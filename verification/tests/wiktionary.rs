use etymora::dictionary::Dictionary;
use etymora::wiktionary::adapter::WiktinaryAdapter;
use etymora::wiktionary::entry::{Entry, UnknownKeys};
use etymora::wiktionary::error::WiktionaryError;
use etymora::wiktionary::field::Field;
use etymora::word::Word;

#[test]
fn test_parse_from_tsv_blue() {
    let data = "word=blue\tadjective=of the colour of the sky\tderivative=bluish";
    let parsed = Entry::parse_from_tsv(data.into()).unwrap();

    assert_eq!(parsed.0, Word::from("blue"));
    assert_eq!(parsed.1.detail(Field::Derivative), Some(&"bluish".to_string()));
}

#[test]
fn parse_keeps_the_case_of_the_word() {
    let parsed = Entry::parse_from_tsv("word=Blue\tderivative=bluish".into()).unwrap();
    assert_eq!(parsed.0.as_str(), "Blue");
    assert_ne!(parsed.0, Word::from("blue"));
    assert_eq!(parsed.1.detail(Field::Derivative), Some(&"bluish".to_string()));
}

#[test]
fn parse_normalizes_the_word_and_keeps_the_values() {
    let parsed = Entry::parse_from_tsv("noun= a colour \tword=  blue \t".to_string() + "verb=to make blue");
    let (word, entry) = parsed.unwrap();
    assert_eq!(word.inner(), "blue");
    assert_eq!(entry.list(Field::Noun), Some(&vec![" a colour ".to_string()]));
    assert_eq!(entry.list(Field::Verb), Some(&vec!["to make blue".to_string()]));
}

#[test]
fn parse_keeps_the_order_of_a_list() {
    let line = "noun=first\tword=w\tverb=x\tnoun=second\tnoun=third\tpronunciation_ipa=a\tpronunciation_ipa=b";
    let (_, entry) = Entry::parse_from_tsv(line.into()).unwrap();
    assert_eq!(
        entry.list(Field::Noun),
        Some(&vec!["first".to_string(), "second".to_string(), "third".to_string()])
    );
    assert_eq!(entry.list(Field::Verb), Some(&vec!["x".to_string()]));
    assert_eq!(entry.list(Field::PronunciationIpa), Some(&vec!["a".to_string(), "b".to_string()]));
    assert_eq!(entry.list(Field::Adverb), Some(&Vec::new()));
    assert_eq!(entry.detail(Field::Antonym), None);
    assert_eq!(entry.list(Field::Antonym), None);
    assert_eq!(entry.detail(Field::Noun), None);
}

#[test]
fn parse_splits_a_field_at_its_first_sign() {
    let (word, entry) = Entry::parse_from_tsv("word=a=b\trelation=x=y=z\tnoun=".into()).unwrap();
    assert_eq!(word.inner(), "a=b");
    assert_eq!(entry.detail(Field::Relation), Some(&"x=y=z".to_string()));
    assert_eq!(entry.list(Field::Noun), Some(&vec!["".to_string()]));
}

#[test]
fn parse_reads_every_key() {
    for field in Field::all() {
        let line = format!("word=w\t{}=value of {}", field.name(), field.name());
        let (_, entry) = Entry::parse_from_tsv(line).unwrap();
        let expected = format!("value of {}", field.name());
        if field.single() {
            assert_eq!(entry.detail(field), Some(&expected));
            assert_eq!(entry.list(field), None);
        } else {
            assert_eq!(entry.list(field), Some(&vec![expected]));
            assert_eq!(entry.detail(field), None);
        }
        for other in Field::all() {
            if other != field {
                assert_eq!(entry.detail(other), None);
                assert!(entry.list(other).map_or(true, Vec::is_empty));
            }
        }
        assert_eq!(Field::from_key(field.name()), Some(field));
    }
    assert_eq!(Field::all().len(), 33);
    assert_eq!(Field::all().iter().filter(|field| field.single()).count(), 15);
    assert_eq!(Field::from_key("word"), None);
    assert_eq!(Field::from_key("Noun"), None);
    assert_eq!(Field::from_key(""), None);
}

#[test]
fn parse_without_word_is_title_not_included() {
    let result = Entry::parse_from_tsv("noun=a colour\tderivative=bluish".into());
    assert!(matches!(result, Err(WiktionaryError::TitleNotInclued)));
}

#[test]
fn parse_field_without_sign_is_not_detail() {
    let result = Entry::parse_from_tsv("word=blue\tbluish".into());
    assert!(matches!(result, Err(WiktionaryError::IsNotDetail)));
    let result = Entry::parse_from_tsv("".into());
    assert!(matches!(result, Err(WiktionaryError::IsNotDetail)));
    let result = Entry::parse_from_tsv("word=blue\t".into());
    assert!(matches!(result, Err(WiktionaryError::IsNotDetail)));
    let result = Entry::parse_from_tsv("word=blue\t\tnoun=x".into());
    assert!(matches!(result, Err(WiktionaryError::IsNotDetail)));
}

#[test]
fn parse_second_value_of_a_single_key_is_duplicate() {
    let result = Entry::parse_from_tsv("word=blue\tantonym=a\tnoun=x\tantonym=b".into());
    match result {
        Err(WiktionaryError::DuplicateField(key)) => assert_eq!(key, "antonym"),
        _ => panic!("the second antonym must be refused"),
    }
    let result = Entry::parse_from_tsv("word=blue\tword=red".into());
    match result {
        Err(WiktionaryError::DuplicateField(key)) => assert_eq!(key, "word"),
        _ => panic!("the second word must be refused"),
    }
}

#[test]
fn parse_unknown_key_is_refused_or_passed_over() {
    let line = "word=blue\tcolour=yes\tnoun=x";
    match Entry::parse_from_tsv(line.into()) {
        Err(WiktionaryError::UnknownKey(key)) => assert_eq!(key, "colour"),
        _ => panic!("the unknown key must be refused"),
    }
    match Entry::parse_with(line, UnknownKeys::Reject) {
        Err(WiktionaryError::UnknownKey(key)) => assert_eq!(key, "colour"),
        _ => panic!("the unknown key must be refused"),
    }
    let (word, entry) = Entry::parse_with(line, UnknownKeys::Skip).unwrap();
    assert_eq!(word.inner(), "blue");
    assert_eq!(entry.list(Field::Noun), Some(&vec!["x".to_string()]));
}

#[test]
fn parse_reports_the_first_fault() {
    let result = Entry::parse_from_tsv("colour=x\tbad\tantonym=a\tantonym=b".into());
    assert!(matches!(result, Err(WiktionaryError::UnknownKey(_))));
    let result = Entry::parse_from_tsv("bad\tcolour=x".into());
    assert!(matches!(result, Err(WiktionaryError::IsNotDetail)));
    let result = Entry::parse_from_tsv("antonym=a\tantonym=b\tbad".into());
    assert!(matches!(result, Err(WiktionaryError::DuplicateField(_))));
}

#[test]
fn entry_push_refuses_a_second_single_value() {
    let mut entry = Entry::default();
    assert!(entry.push(Field::Hypernym, "colour".to_string()));
    assert!(!entry.push(Field::Hypernym, "hue".to_string()));
    assert_eq!(entry.detail(Field::Hypernym), Some(&"colour".to_string()));
    assert!(entry.push(Field::Suffix, "a".to_string()));
    assert!(entry.push(Field::Suffix, "b".to_string()));
    assert_eq!(entry.list(Field::Suffix), Some(&vec!["a".to_string(), "b".to_string()]));
    assert_ne!(entry, Entry::default());
}

fn lines(text: &[&str]) -> Vec<String> {
    text.iter().map(|line| line.to_string()).collect()
}

#[test]
fn adapter_holds_what_was_loaded() {
    let dict = WiktinaryAdapter::init(&lines(&[
        "word=blue\tadjective=of the colour of the sky\tderivative=bluish",
        "word=red\tnoun=a colour",
    ]))
    .unwrap();
    assert!(dict.exits(&Word::from("blue")).unwrap());
    assert!(dict.exits(&Word::from(" red ")).unwrap());
    assert!(!dict.exits(&Word::from("green")).unwrap());
    assert!(!dict.exits(&Word::from("Blue")).unwrap());
    let entry = dict.get(&Word::from("blue")).unwrap();
    assert_eq!(entry.detail(Field::Derivative), Some(&"bluish".to_string()));
    assert!(dict.get(&Word::from("green")).is_none());
}

#[test]
fn adapter_finds_a_word_exactly_when_it_has_a_document() {
    let dict = WiktinaryAdapter::init(&lines(&["word=blue\tnoun=a colour", "word=red\tnoun=x"]))
        .unwrap();
    for text in ["blue", "red", "green", "", "Blue", "blu"] {
        let word = Word::from(text);
        let found = dict.exits(&word).unwrap();
        let detail = dict.lookup_ditail(&word).unwrap();
        assert_eq!(found, detail.is_some(), "{}", text);
    }
}

#[test]
fn adapter_renders_an_entry() {
    let dict = WiktinaryAdapter::init(&lines(&[
        "word=blue\tderivative=bluish\tverb=to make blue\tnoun=a colour\tnoun=the sky",
    ]))
    .unwrap();
    let doc = dict.lookup_ditail(&Word::from("blue")).unwrap().unwrap();
    assert_eq!(
        doc.render(),
        "# blue\n\nnoun: a colour\n\nnoun: the sky\n\nverb: to make blue\n\nderivative: bluish\n"
    );
}

#[test]
fn adapter_later_line_replaces_the_entry() {
    let dict = WiktinaryAdapter::init(&lines(&[
        "word=blue\tnoun=first",
        "word=red\tnoun=x",
        "word=blue\tnoun=second",
    ]))
    .unwrap();
    let entry = dict.get(&Word::from("blue")).unwrap();
    assert_eq!(entry.list(Field::Noun), Some(&vec!["second".to_string()]));
    let entry = dict.get(&Word::from("red")).unwrap();
    assert_eq!(entry.list(Field::Noun), Some(&vec!["x".to_string()]));
}

#[test]
fn adapter_load_fails_with_the_first_bad_line() {
    let result = WiktinaryAdapter::init(&lines(&["word=blue\tnoun=x", "noun=y", "broken"]));
    assert!(matches!(result, Err(WiktionaryError::TitleNotInclued)));
    let result = WiktinaryAdapter::init(&lines(&["word=blue\tnoun=x", "broken", "noun=y"]));
    assert!(matches!(result, Err(WiktionaryError::IsNotDetail)));
    let result = WiktinaryAdapter::load(&lines(&["word=blue\tcolour=x"]), UnknownKeys::Reject);
    assert!(matches!(result, Err(WiktionaryError::UnknownKey(_))));
    let dict = WiktinaryAdapter::load(&lines(&["word=blue\tcolour=x"]), UnknownKeys::Skip).unwrap();
    assert!(dict.exits(&Word::from("blue")).unwrap());
    let dict = WiktinaryAdapter::init(&Vec::new()).unwrap();
    assert!(!dict.exits(&Word::from("blue")).unwrap());
}

#[test]
fn adapter_insert_line_leaves_the_dictionary_on_failure() {
    let mut dict = WiktinaryAdapter::new();
    dict.insert_line("word=blue\tnoun=x", UnknownKeys::Reject).unwrap();
    let result = dict.insert_line("word=blue\tnoun", UnknownKeys::Reject);
    assert!(matches!(result, Err(WiktionaryError::IsNotDetail)));
    let entry = dict.get(&Word::from("blue")).unwrap();
    assert_eq!(entry.list(Field::Noun), Some(&vec!["x".to_string()]));
}

#[test]
fn messages_of_wiktionary_errors() {
    assert_eq!(WiktionaryError::IsNotDetail.message(), "= does not inclued in this entry detail");
    assert_eq!(WiktionaryError::TitleNotInclued.message(), "This entry does not inclued the title");
    assert_eq!(
        WiktionaryError::DuplicateField("antonym".to_string()).message(),
        "This key may occur only once in an entry: antonym"
    );
    assert_eq!(
        WiktionaryError::UnknownKey("colour".to_string()).message(),
        "This key is not known: colour"
    );
    let error = std::io::Error::new(std::io::ErrorKind::NotFound, "no such file");
    assert_eq!(WiktionaryError::FileNotFound(error).message(), "File Not found: no such file");
    let error = std::io::Error::new(std::io::ErrorKind::Other, "broken pipe");
    assert_eq!(WiktionaryError::IO(error).message(), "Io Error has occured: broken pipe");
}
