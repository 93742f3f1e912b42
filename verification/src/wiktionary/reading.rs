//! What reading a record guarantees, stated over the fields of the line.

use crate::text::{split, split_once, trimmed};
use crate::wiktionary::entry::{
    absorb, absorb_all, empty_entry, empty_record, parsed, Record, UnknownKeys,
};
use crate::wiktionary::error::Fault;
use crate::wiktionary::field::{field_of, Field};
use vstd::prelude::*;

verus! {

/// The value of `field` where its key is `word`; nothing else.
pub open spec fn word_value(field: Seq<char>) -> Seq<Seq<char>> {
    match split_once(field, '=') {
        Some((key, value)) => if key == "word"@ {
            seq![value]
        } else {
            Seq::empty()
        },
        None => Seq::empty(),
    }
}

/// The value of `field` where its key names `f`; nothing else.
pub open spec fn field_value(field: Seq<char>, f: Field) -> Seq<Seq<char>> {
    match split_once(field, '=') {
        Some((key, value)) => if key != "word"@ && field_of(key) == Some(f) {
            seq![value]
        } else {
            Seq::empty()
        },
        None => Seq::empty(),
    }
}

/// The values of the `word` fields among `fields`, in order.
pub open spec fn word_values(fields: Seq<Seq<char>>) -> Seq<Seq<char>>
    decreases fields.len(),
{
    if fields.len() == 0 {
        Seq::empty()
    } else {
        word_value(fields[0]) + word_values(fields.drop_first())
    }
}

/// The values of the fields among `fields` whose key names `f`, in order.
pub open spec fn values_for(fields: Seq<Seq<char>>, f: Field) -> Seq<Seq<char>>
    decreases fields.len(),
{
    if fields.len() == 0 {
        Seq::empty()
    } else {
        field_value(fields[0], f) + values_for(fields.drop_first(), f)
    }
}

/// Whether the text `field` can be a field of a record at all: it holds a
/// `=`, and its key is `word`, names a field, or is passed over.
pub open spec fn is_well_formed(field: Seq<char>, unknown: UnknownKeys) -> bool {
    match split_once(field, '=') {
        Some((key, _)) => key == "word"@ || field_of(key) is Some || unknown
            == UnknownKeys::Skip,
        None => false,
    }
}

/// Whether a record with the fields `fields` is read without error: every
/// field is well formed, `word` occurs at most once, and so does every key
/// that may occur only once.
pub open spec fn is_accepted(fields: Seq<Seq<char>>, unknown: UnknownKeys) -> bool {
    &&& forall|i: int| 0 <= i < fields.len() ==> is_well_formed(#[trigger] fields[i], unknown)
    &&& word_values(fields).len() <= 1
    &&& forall|f: Field| f.is_single() ==> (#[trigger] values_for(fields, f)).len() <= 1
}

/// A record read so far in which nothing that may occur only once has two
/// values.
pub open spec fn is_sound(record: Record) -> bool {
    &&& record.entry.dom() == Set::<Field>::full()
    &&& forall|f: Field| f.is_single() ==> (#[trigger] record.entry[f]).len() <= 1
}

/// Whether `fields` can be read into `record`: every field is well formed,
/// and nothing that may occur only once is given a second value.
pub open spec fn fits(record: Record, fields: Seq<Seq<char>>, unknown: UnknownKeys) -> bool {
    &&& forall|i: int| 0 <= i < fields.len() ==> is_well_formed(#[trigger] fields[i], unknown)
    &&& (if record.word is Some {
        1int
    } else {
        0int
    }) + word_values(fields).len() <= 1
    &&& forall|f: Field|
        f.is_single() ==> record.entry[f].len() + (#[trigger] values_for(fields, f)).len() <= 1
}

/// Reading `fields` into `record` succeeds exactly when they fit; it then
/// adds to each field the values that `fields` hold for it, in order.
proof fn lemma_absorb_all(record: Record, fields: Seq<Seq<char>>, unknown: UnknownKeys)
    requires
        is_sound(record),
    ensures
        absorb_all(record, fields, unknown) is Ok <==> fits(record, fields, unknown),
        absorb_all(record, fields, unknown) matches Ok(end) ==> {
            &&& is_sound(end)
            &&& forall|f: Field|
                end.entry[f] == record.entry[f] + #[trigger] values_for(fields, f)
            &&& end.word == if word_values(fields).len() > 0 {
                Some(trimmed(word_values(fields)[0]))
            } else {
                record.word
            }
        },
    decreases fields.len(),
{
    if fields.len() == 0 {
        assert forall|f: Field|
            record.entry[f] == record.entry[f] + #[trigger] values_for(fields, f) by {
            assert(record.entry[f] + Seq::<Seq<char>>::empty() =~= record.entry[f]);
        }
        assert forall|f: Field| f.is_single() implies record.entry[f].len() + (
        #[trigger] values_for(fields, f)).len() <= 1 by {
            assert(record.entry[f].len() <= 1);
        }
    } else {
        let head = fields[0];
        let tail = fields.drop_first();
        assert forall|f: Field|
            values_for(fields, f).len() == field_value(head, f).len() + (#[trigger] values_for(
                tail,
                f,
            )).len() by {}
        match absorb(record, head, unknown) {
            Err(_) => {
                if is_well_formed(head, unknown) {
                    let key = split_once(head, '=').unwrap().0;
                    if key == "word"@ {
                        assert(word_value(head).len() == 1);
                        assert(!fits(record, fields, unknown));
                    } else {
                        let f = field_of(key).unwrap();
                        assert(field_value(head, f).len() == 1);
                        assert(values_for(tail, f).len() >= 0);
                        assert(record.entry[f].len() + values_for(fields, f).len() > 1);
                        assert(!fits(record, fields, unknown));
                    }
                } else {
                    assert(!is_well_formed(fields[0], unknown));
                }
            },
            Ok(next) => {
                assert(is_well_formed(head, unknown));
                assert(next.entry.dom() =~= Set::<Field>::full());
                assert forall|f: Field| #[trigger]
                    next.entry[f] =~= record.entry[f] + field_value(head, f) by {}
                assert(is_sound(next)) by {
                    assert forall|f: Field| f.is_single() implies (#[trigger] next.entry[f]).len()
                        <= 1 by {
                        assert(record.entry[f].len() <= 1);
                    }
                }
                lemma_absorb_all(next, tail, unknown);
                assert((if next.word is Some {
                    1int
                } else {
                    0int
                }) + word_values(tail).len() == (if record.word is Some {
                    1int
                } else {
                    0int
                }) + word_values(fields).len());
                if fits(record, fields, unknown) {
                    assert forall|i: int| 0 <= i < tail.len() implies is_well_formed(
                        #[trigger] tail[i],
                        unknown,
                    ) by {
                        assert(tail[i] == fields[i + 1]);
                    }
                    assert forall|f: Field| f.is_single() implies next.entry[f].len() + (
                    #[trigger] values_for(tail, f)).len() <= 1 by {
                        assert(record.entry[f].len() + values_for(fields, f).len() <= 1);
                    }
                    assert(fits(next, tail, unknown));
                }
                if fits(next, tail, unknown) {
                    assert forall|i: int| 0 <= i < fields.len() implies is_well_formed(
                        #[trigger] fields[i],
                        unknown,
                    ) by {
                        if i > 0 {
                            assert(fields[i] == tail[i - 1]);
                        }
                    }
                    assert forall|f: Field| f.is_single() implies record.entry[f].len() + (
                    #[trigger] values_for(fields, f)).len() <= 1 by {
                        assert(next.entry[f].len() + values_for(tail, f).len() <= 1);
                    }
                    assert(fits(record, fields, unknown));
                }
                match absorb_all(next, tail, unknown) {
                    Ok(end) => {
                        assert forall|f: Field|
                            end.entry[f] == record.entry[f] + #[trigger] values_for(
                                fields,
                                f,
                            ) by {
                            assert(end.entry[f] == next.entry[f] + values_for(tail, f));
                            assert((record.entry[f] + field_value(head, f)) + values_for(tail, f)
                                =~= record.entry[f] + (field_value(head, f) + values_for(
                                tail,
                                f,
                            )));
                        }
                    },
                    Err(_) => {},
                }
            },
        }
    }
}

proof fn lemma_empty_record_sound()
    ensures
        is_sound(empty_record()),
{
    assert(empty_entry().dom() =~= Set::<Field>::full());
}

/// Fields are accepted exactly when they fit the record before its first
/// field.
proof fn lemma_accepted_fits(fields: Seq<Seq<char>>, unknown: UnknownKeys)
    ensures
        is_accepted(fields, unknown) <==> fits(empty_record(), fields, unknown),
{
    if is_accepted(fields, unknown) {
        assert forall|f: Field| f.is_single() implies empty_record().entry[f].len() + (
        #[trigger] values_for(fields, f)).len() <= 1 by {}
    }
    if fits(empty_record(), fields, unknown) {
        assert forall|f: Field| f.is_single() implies (#[trigger] values_for(fields, f)).len()
            <= 1 by {
            assert(empty_record().entry[f].len() + values_for(fields, f).len() <= 1);
        }
    }
}

/// A line is read without error exactly when its fields are accepted and one
/// of them is `word`.
pub proof fn lemma_parsed_ok(line: Seq<char>, unknown: UnknownKeys)
    ensures
        parsed(line, unknown) is Ok <==> is_accepted(split(line, '\t'), unknown) && word_values(
            split(line, '\t'),
        ).len() == 1,
{
    lemma_empty_record_sound();
    let fields = split(line, '\t');
    lemma_absorb_all(empty_record(), fields, unknown);
    lemma_accepted_fits(fields, unknown);
}

/// What is read from a line is what the line holds: the word is the normal
/// form of the value of its `word` field, and each field of the entry holds
/// the values that the line gives under its key, in the order of the line.
pub proof fn lemma_parsed_round_trip(line: Seq<char>, unknown: UnknownKeys)
    ensures
        parsed(line, unknown) matches Ok((word, entry)) ==> {
            &&& word == trimmed(word_values(split(line, '\t'))[0])
            &&& forall|f: Field| entry[f] == #[trigger] values_for(split(line, '\t'), f)
        },
{
    lemma_empty_record_sound();
    let fields = split(line, '\t');
    lemma_absorb_all(empty_record(), fields, unknown);
    match absorb_all(empty_record(), fields, unknown) {
        Ok(end) => {
            assert forall|f: Field| end.entry[f] == #[trigger] values_for(fields, f) by {
                assert(empty_entry()[f] + values_for(fields, f) =~= values_for(fields, f));
            }
        },
        Err(_) => {},
    }
}

/// A line without a `word` field is refused, and where its fields are
/// accepted, the reason is that the word is missing.
pub proof fn lemma_parsed_without_word(line: Seq<char>, unknown: UnknownKeys)
    requires
        word_values(split(line, '\t')).len() == 0,
    ensures
        parsed(line, unknown) is Err,
        is_accepted(split(line, '\t'), unknown) ==> parsed(line, unknown) == Err::<
            (Seq<char>, Map<Field, Seq<Seq<char>>>),
            Fault,
        >(Fault::TitleNotInclued),
{
    lemma_empty_record_sound();
    let fields = split(line, '\t');
    lemma_absorb_all(empty_record(), fields, unknown);
    lemma_accepted_fits(fields, unknown);
}

/// Reading `fields` goes through the fields one after the other: what is
/// read of `a + b` is what is read of `b` after `a`.
pub proof fn lemma_absorb_all_concat(
    record: Record,
    a: Seq<Seq<char>>,
    b: Seq<Seq<char>>,
    unknown: UnknownKeys,
)
    ensures
        absorb_all(record, a + b, unknown) == match absorb_all(record, a, unknown) {
            Err(fault) => Err::<Record, Fault>(fault),
            Ok(next) => absorb_all(next, b, unknown),
        },
    decreases a.len(),
{
    if a.len() == 0 {
        assert(a + b =~= b);
    } else {
        assert((a + b)[0] == a[0]);
        assert((a + b).drop_first() =~= a.drop_first() + b);
        match absorb(record, a[0], unknown) {
            Err(_) => {},
            Ok(next) => {
                lemma_absorb_all_concat(next, a.drop_first(), b, unknown);
            },
        }
    }
}

/// A line is refused for a field without `=` when the fields before that
/// field are accepted.
pub proof fn lemma_parsed_without_sign(line: Seq<char>, unknown: UnknownKeys, i: int)
    requires
        0 <= i < split(line, '\t').len(),
        split_once(split(line, '\t')[i], '=') is None,
        is_accepted(split(line, '\t').take(i), unknown),
    ensures
        parsed(line, unknown) == Err::<(Seq<char>, Map<Field, Seq<Seq<char>>>), Fault>(
            Fault::IsNotDetail,
        ),
{
    let fields = split(line, '\t');
    let before = fields.take(i);
    let after = fields.skip(i);
    assert(fields =~= before + after);
    lemma_empty_record_sound();
    lemma_absorb_all(empty_record(), before, unknown);
    lemma_accepted_fits(before, unknown);
    lemma_absorb_all_concat(empty_record(), before, after, unknown);
    assert(after[0] == fields[i]);
}

} // verus!
