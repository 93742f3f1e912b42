use etymora::text_document::{
    extract_word_from_line, lines_needed, path_of_file, read_line, read_word, try_from_uri,
    FileSystem, FsError, Position,
};
use etymora::word::Word;
use lsp_types::Uri;
use std::path::PathBuf;
use std::str::FromStr;

#[test]
fn test_extract_word_from_line() {
    assert_eq!(
        extract_word_from_line(
            "testword\n".into(),
            &Position {
                line: 0,
                character: 0
            }
        ),
        Some(Word::from("testword".to_string()))
    );

    assert_eq!(
        extract_word_from_line(
            "testword(6)\n".into(),
            &Position {
                line: 0,
                character: 0
            }
        ),
        Some(Word::from("testword".to_string()))
    );

    assert_eq!(
        extract_word_from_line(
            "testword!()[]{}&%\n".into(),
            &Position {
                line: 0,
                character: 0
            }
        ),
        Some(Word::from("testword".to_string()))
    );

    assert_eq!(
        extract_word_from_line(
            "testworD6\n".into(),
            &Position {
                line: 0,
                character: 0
            }
        ),
        Some(Word::from("testword".to_string()))
    );

    assert_eq!(
        extract_word_from_line(
            "lorem ipsum\n".into(),
            &Position {
                line: 0,
                character: 0
            }
        ),
        Some(Word::from("lorem".to_string()))
    );

    assert_eq!(
        extract_word_from_line(
            "lorem ipsum\n".into(),
            &Position {
                line: 0,
                character: 7
            }
        ),
        Some(Word::from("ipsum".to_string()))
    );

    assert_eq!(
        extract_word_from_line(
            "".into(),
            &Position {
                line: 0,
                character: 0
            }
        ),
        None
    );
}

fn word_at(line: &str, character: u32) -> Option<String> {
    extract_word_from_line(line.to_string(), &Position { line: 0, character }).map(Word::inner)
}

#[test]
fn extract_gives_the_whole_run_at_every_column_of_it() {
    for character in 0u32..5 {
        assert_eq!(word_at("lorem ipsum\n", character), Some("lorem".to_string()));
    }
    for character in 6u32..11 {
        assert_eq!(word_at("lorem ipsum\n", character), Some("ipsum".to_string()));
    }
}

#[test]
fn extract_gives_nothing_in_a_gap() {
    assert_eq!(word_at("lorem ipsum\n", 5), None);
    assert_eq!(word_at("lorem ipsum\n", 11), None);
    assert_eq!(word_at("testword(6)\n", 8), None);
    assert_eq!(word_at("testword(6)\n", 9), None);
    assert_eq!(word_at("a  b", 1), None);
    assert_eq!(word_at("a  b", 2), None);
    assert_eq!(word_at("...", 0), None);
}

#[test]
fn extract_lowers_the_case() {
    assert_eq!(word_at("Hello, WORLD!", 8), Some("world".to_string()));
    assert_eq!(word_at("Hello, WORLD!", 0), Some("hello".to_string()));
}

#[test]
fn extract_takes_only_ascii_letters() {
    assert_eq!(word_at("caf\u{e9}s", 1), Some("caf".to_string()));
    assert_eq!(word_at("caf\u{e9}s", 3), None);
    assert_eq!(word_at("caf\u{e9}s", 4), Some("s".to_string()));
    assert_eq!(word_at("ab1cd", 3), Some("cd".to_string()));
    assert_eq!(word_at("snake_case", 2), Some("snake".to_string()));
}

#[test]
fn extract_behind_the_end_gives_the_run_that_ends_the_line() {
    assert_eq!(word_at("lorem ipsum", 11), Some("ipsum".to_string()));
    assert_eq!(word_at("lorem ipsum", 400), Some("ipsum".to_string()));
    assert_eq!(word_at("lorem ipsum\n", 400), None);
    assert_eq!(word_at("", 3), None);
}

#[test]
fn test_try_from_uri() {
    assert_eq!(
        PathBuf::from_str("/example").unwrap(),
        PathBuf::from(try_from_uri(&Uri::from_str("file:///example").unwrap()).unwrap())
    );

    // Wrong scheme
    assert!(try_from_uri(&Uri::from_str("https://example.com/").unwrap()).is_err());
}

#[test]
fn uri_scheme_is_read_without_regard_to_case() {
    let path = try_from_uri(&Uri::from_str("FILE:///tmp/a.txt").unwrap()).unwrap();
    assert_eq!(path, "/tmp/a.txt");
    let path = try_from_uri(&Uri::from_str("File:///tmp/b%20c.txt").unwrap()).unwrap();
    assert_eq!(path, "/tmp/b%20c.txt");
}

#[test]
fn uri_without_file_scheme_is_refused() {
    for text in ["https://example.com/", "/no/scheme", "files:///x", "fil:///x", "untitled:x"] {
        let result = try_from_uri(&Uri::from_str(text).unwrap());
        assert!(matches!(result, Err(FsError::WrongScheme)), "{}", text);
    }
}

#[test]
fn path_of_file_decides_by_the_scheme() {
    assert_eq!(path_of_file(Some("file"), "/a".to_string()).unwrap(), "/a");
    assert_eq!(path_of_file(Some("fILe"), "/a".to_string()).unwrap(), "/a");
    assert!(matches!(path_of_file(Some("http"), "/a".to_string()), Err(FsError::WrongScheme)));
    assert!(matches!(path_of_file(None, "/a".to_string()), Err(FsError::WrongScheme)));
}

#[test]
fn test_read_line() {
    let text = "0
1
2
3
4
55
        ";
    let lines: Vec<String> = text.lines().map(str::to_string).collect();

    assert_eq!(
        read_line(
            &lines,
            &Position {
                line: 5,
                character: 0,
            },
        )
        .unwrap(),
        "55"
    );

    assert_eq!(
        read_line(
            &lines,
            &Position {
                line: 0,
                character: 0,
            },
        )
        .unwrap(),
        "0"
    );
}

#[test]
fn read_line_behind_the_last_line_is_a_wrong_position() {
    let lines = vec!["a".to_string(), "b".to_string()];
    assert_eq!(read_line(&lines, &Position { line: 1, character: 0 }).unwrap(), "b");
    assert!(matches!(
        read_line(&lines, &Position { line: 2, character: 0 }),
        Err(FsError::WrongPosition)
    ));
    assert!(matches!(
        read_line(&Vec::new(), &Position { line: 0, character: 0 }),
        Err(FsError::WrongPosition)
    ));
}

#[test]
fn read_word_takes_the_word_of_the_line() {
    let lines = vec!["first line".to_string(), "second Line".to_string()];
    let word = read_word(&lines, &Position { line: 1, character: 8 }).unwrap();
    assert_eq!(word, Some(Word::from("line")));
    let word = read_word(&lines, &Position { line: 0, character: 5 }).unwrap();
    assert_eq!(word, None);
    assert!(matches!(
        read_word(&lines, &Position { line: 7, character: 0 }),
        Err(FsError::WrongPosition)
    ));
}

#[test]
fn cache_opens_a_path_once() {
    let mut fs = FileSystem::new();
    let mut opens: u32 = 0;
    for _ in 0..2 {
        if fs.slot("/tmp/a.txt").is_none() {
            opens += 1;
            assert_eq!(fs.insert("/tmp/a.txt"), 0);
        }
    }
    assert_eq!(opens, 1);
    assert_eq!(fs.slot("/tmp/a.txt"), Some(0));
}

#[test]
fn cache_gives_each_path_its_own_slot() {
    let mut fs = FileSystem::new();
    assert_eq!(fs.slot("/a"), None);
    assert_eq!(fs.insert("/a"), 0);
    assert_eq!(fs.insert("/b"), 1);
    assert_eq!(fs.insert("/a"), 0);
    assert_eq!(fs.insert("/c"), 2);
    assert_eq!(fs.slot("/b"), Some(1));
    assert_eq!(fs.slot("/c"), Some(2));
    assert_eq!(fs.slot("/d"), None);
}

#[test]
fn messages_of_fs_errors() {
    assert_eq!(FsError::WrongScheme.message(), "Given Uri has wrong scheme");
    assert_eq!(FsError::WrongPosition.message(), "Wrong position");
    let error = std::io::Error::new(std::io::ErrorKind::Other, "disk on fire");
    assert_eq!(FsError::IoError(error).message(), "disk on fire");
}

#[test]
fn lines_needed_are_the_lines_up_to_the_position() {
    assert_eq!(lines_needed(&Position { line: 0, character: 9 }), 1);
    assert_eq!(lines_needed(&Position { line: 5, character: 0 }), 6);
    assert_eq!(lines_needed(&Position { line: u32::MAX, character: 0 }), 4294967296);
    let lines = vec!["a".to_string(), "b".to_string(), "c".to_string()];
    for line in 0u32..6 {
        let position = Position { line, character: 0 };
        let enough = lines.len() as u64 >= lines_needed(&position);
        assert_eq!(read_line(&lines, &position).is_ok(), enough);
    }
}
