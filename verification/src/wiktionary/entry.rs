//! Records of the Wiktionary data file and the entries made from them.
//!
//! A record is one line. Its fields are separated by tabs, and each field is
//! `key=value`. The field `word` names the word; the other keys are those of
//! [`Field`].

use crate::text::{chars_of, find, first_index, split, split_once, str_eq, string_of, trimmed};
use crate::wiktionary::error::{Fault, WiktionaryError};
use crate::wiktionary::field::{field_of, Field};
use crate::word::{word_view, Word};
use vstd::prelude::*;

verus! {

/// What a dictionary holds of one word: for each field the values that the
/// word's record gave it, in the order of the record.
#[derive(Debug, PartialEq, Eq)]
pub struct Entry {
    /// Meanings as a noun.
    noun: Vec<String>,
    /// Meanings as a verb.
    verb: Vec<String>,
    /// Meanings as a pronoun.
    pronoun: Vec<String>,
    /// Meanings as a preposition.
    preposition: Vec<String>,
    /// Meanings as an abbreviation.
    abbreviation: Vec<String>,
    /// Meanings as an adjective.
    adjective: Vec<String>,
    /// Meanings as an adverb.
    adverb: Vec<String>,
    /// Meanings as a conjunction.
    conjunction: Vec<String>,
    /// Meanings as a prefix.
    prefix: Vec<String>,
    /// Meanings as a determiner.
    determiner: Vec<String>,
    /// Plural forms.
    inflection_noun_plural: Vec<String>,
    /// Third person singular.
    inflection_verb_singular: Option<String>,
    /// Present participle.
    inflection_verb_present_participle: Option<String>,
    /// Past tense.
    inflection_verb_past: Option<String>,
    /// Past participle.
    inflection_verb_past_participle: Option<String>,
    /// Pronunciations in IPA.
    pronunciation_ipa: Vec<String>,
    /// Pronunciations in SAMPA.
    pronunciation_sampa: Vec<String>,
    /// Pronunciations in AHD.
    pronunciation_ahd: Vec<String>,
    /// Alternative form.
    alternative: Option<String>,
    /// Derived term.
    derivative: Option<String>,
    /// Antonym.
    antonym: Option<String>,
    /// Synonym.
    synonym: Option<String>,
    /// Related term.
    relation: Option<String>,
    /// Comparative of the adjective.
    inflection_adjective_comparative: Option<String>,
    /// Superlative of the adjective.
    inflection_adjective_superlative: Option<String>,
    /// Meanings as an interjection.
    interjection: Vec<String>,
    /// Broader term.
    hypernym: Option<String>,
    /// Narrower term.
    hyponym: Option<String>,
    /// Meanings as an auxiliary verb.
    auxverb: Vec<String>,
    /// Meanings as an article.
    article: Vec<String>,
    /// Comparative of the adverb.
    inflection_adverb_comparative: Option<String>,
    /// Superlative of the adverb.
    inflection_adverb_superlative: Option<String>,
    /// Meanings as a suffix.
    suffix: Vec<String>,
}

/// What to do with a key that no field answers to.
#[derive(Clone, Copy, Debug, PartialEq, Eq, Structural)]
pub enum UnknownKeys {
    /// The record is refused, with the key named in the error.
    Reject,
    /// The field is passed over.
    Skip,
}

/// The views of the strings of `v`, in order.
pub open spec fn texts(v: Seq<String>) -> Seq<Seq<char>> {
    Seq::new(v.len(), |i: int| v[i]@)
}

/// The values of a field that may occur only once: one or none.
pub open spec fn held(value: Option<String>) -> Seq<Seq<char>> {
    match value {
        Some(text) => seq![text@],
        None => Seq::empty(),
    }
}

proof fn lemma_texts_push(v: Seq<String>, s: String)
    ensures
        texts(v.push(s)) == texts(v).push(s@),
{
    assert(texts(v.push(s)) =~= texts(v).push(s@));
}

/// What has been read of a record so far: the word, if a `word` field came
/// by, and the values of each field.
pub struct Record {
    pub word: Option<Seq<char>>,
    pub entry: Map<Field, Seq<Seq<char>>>,
}

/// An entry without values.
pub open spec fn empty_entry() -> Map<Field, Seq<Seq<char>>> {
    Map::new(|field: Field| true, |field: Field| Seq::<Seq<char>>::empty())
}

/// The record before its first field.
pub open spec fn empty_record() -> Record {
    Record { word: None, entry: empty_entry() }
}

/// The record `record` after one more field, the text `field`.
///
/// The field is split at its first `=`. The key `word` sets the word, once,
/// to the normal form of the value. A key of [`Field`] adds the value to that
/// field, which for a field that may occur only once must still be empty.
pub open spec fn absorb(record: Record, field: Seq<char>, unknown: UnknownKeys) -> Result<
    Record,
    Fault,
> {
    match split_once(field, '=') {
        None => Err(Fault::IsNotDetail),
        Some((key, value)) => {
            if key == "word"@ {
                if record.word is Some {
                    Err(Fault::DuplicateField(key))
                } else {
                    Ok(Record { word: Some(trimmed(value)), entry: record.entry })
                }
            } else {
                match field_of(key) {
                    None => match unknown {
                        UnknownKeys::Reject => Err(Fault::UnknownKey(key)),
                        UnknownKeys::Skip => Ok(record),
                    },
                    Some(f) => {
                        if f.is_single() && record.entry[f].len() > 0 {
                            Err(Fault::DuplicateField(key))
                        } else {
                            Ok(
                                Record {
                                    word: record.word,
                                    entry: record.entry.insert(f, record.entry[f].push(value)),
                                },
                            )
                        }
                    },
                }
            }
        },
    }
}

/// The record `record` after the fields `fields`, taken from left to right.
/// The first field that is refused decides the error.
pub open spec fn absorb_all(record: Record, fields: Seq<Seq<char>>, unknown: UnknownKeys) -> Result<
    Record,
    Fault,
>
    decreases fields.len(),
{
    if fields.len() == 0 {
        Ok(record)
    } else {
        match absorb(record, fields[0], unknown) {
            Err(fault) => Err(fault),
            Ok(next) => absorb_all(next, fields.drop_first(), unknown),
        }
    }
}

/// The word and the entry that the line `line` stands for, or the reason why
/// it stands for none.
pub open spec fn parsed(line: Seq<char>, unknown: UnknownKeys) -> Result<
    (Seq<char>, Map<Field, Seq<Seq<char>>>),
    Fault,
> {
    match absorb_all(empty_record(), split(line, '\t'), unknown) {
        Err(fault) => Err(fault),
        Ok(record) => match record.word {
            None => Err(Fault::TitleNotInclued),
            Some(word) => Ok((word, record.entry)),
        },
    }
}

/// Whether `result` is what reading a record came to: `expected`, with the
/// word and the entry taken by their views.
pub open spec fn is_parse_of(
    result: Result<(Word, Entry), WiktionaryError>,
    expected: Result<(Seq<char>, Map<Field, Seq<Seq<char>>>), Fault>,
) -> bool {
    match result {
        Ok((word, entry)) => expected == Ok::<
            (Seq<char>, Map<Field, Seq<Seq<char>>>),
            Fault,
        >((word@, entry@)),
        Err(error) => expected == Err::<(Seq<char>, Map<Field, Seq<Seq<char>>>), Fault>(error@),
    }
}

impl View for Entry {
    type V = Map<Field, Seq<Seq<char>>>;

    open spec fn view(&self) -> Map<Field, Seq<Seq<char>>> {
        Map::new(|field: Field| true, |field: Field| self.values(field))
    }
}

impl Default for Entry {
    fn default() -> (entry: Entry)
        ensures
            entry@ == empty_entry(),
    {
        let entry = Entry {
            noun: Vec::new(),
            verb: Vec::new(),
            pronoun: Vec::new(),
            preposition: Vec::new(),
            abbreviation: Vec::new(),
            adjective: Vec::new(),
            adverb: Vec::new(),
            conjunction: Vec::new(),
            prefix: Vec::new(),
            determiner: Vec::new(),
            inflection_noun_plural: Vec::new(),
            inflection_verb_singular: None,
            inflection_verb_present_participle: None,
            inflection_verb_past: None,
            inflection_verb_past_participle: None,
            pronunciation_ipa: Vec::new(),
            pronunciation_sampa: Vec::new(),
            pronunciation_ahd: Vec::new(),
            alternative: None,
            derivative: None,
            antonym: None,
            synonym: None,
            relation: None,
            inflection_adjective_comparative: None,
            inflection_adjective_superlative: None,
            interjection: Vec::new(),
            hypernym: None,
            hyponym: None,
            auxverb: Vec::new(),
            article: Vec::new(),
            inflection_adverb_comparative: None,
            inflection_adverb_superlative: None,
            suffix: Vec::new(),
        };
        assert forall|field: Field| entry.values(field) == Seq::<Seq<char>>::empty() by {
            assert(texts(Seq::<String>::empty()) =~= Seq::<Seq<char>>::empty());
        }
        assert(entry@ =~= empty_entry());
        entry
    }
}

impl Entry {
    /// The values of `field`, in the order in which they were added. A field
    /// that may occur only once has at most one.
    pub closed spec fn values(&self, field: Field) -> Seq<Seq<char>> {
        match field {
            Field::Noun => texts(self.noun@),
            Field::Verb => texts(self.verb@),
            Field::Pronoun => texts(self.pronoun@),
            Field::Preposition => texts(self.preposition@),
            Field::Abbreviation => texts(self.abbreviation@),
            Field::Adjective => texts(self.adjective@),
            Field::Adverb => texts(self.adverb@),
            Field::Conjunction => texts(self.conjunction@),
            Field::Prefix => texts(self.prefix@),
            Field::Determiner => texts(self.determiner@),
            Field::InflectionNounPlural => texts(self.inflection_noun_plural@),
            Field::InflectionVerbSingular => held(self.inflection_verb_singular),
            Field::InflectionVerbPresentParticiple => held(self.inflection_verb_present_participle),
            Field::InflectionVerbPast => held(self.inflection_verb_past),
            Field::InflectionVerbPastParticiple => held(self.inflection_verb_past_participle),
            Field::PronunciationIpa => texts(self.pronunciation_ipa@),
            Field::PronunciationSampa => texts(self.pronunciation_sampa@),
            Field::PronunciationAhd => texts(self.pronunciation_ahd@),
            Field::Alternative => held(self.alternative),
            Field::Derivative => held(self.derivative),
            Field::Antonym => held(self.antonym),
            Field::Synonym => held(self.synonym),
            Field::Relation => held(self.relation),
            Field::InflectionAdjectiveComparative => held(self.inflection_adjective_comparative),
            Field::InflectionAdjectiveSuperlative => held(self.inflection_adjective_superlative),
            Field::Interjection => texts(self.interjection@),
            Field::Hypernym => held(self.hypernym),
            Field::Hyponym => held(self.hyponym),
            Field::Auxverb => texts(self.auxverb@),
            Field::Article => texts(self.article@),
            Field::InflectionAdverbComparative => held(self.inflection_adverb_comparative),
            Field::InflectionAdverbSuperlative => held(self.inflection_adverb_superlative),
            Field::Suffix => texts(self.suffix@),
        }
    }

    /// Adds `value` to `field`. A field that may occur only once and holds a
    /// value already is left as it is, and the answer is `false`.
    pub fn push(&mut self, field: Field, value: String) -> (added: bool)
        ensures
            added == !(field.is_single() && old(self)@[field].len() > 0),
            added ==> final(self)@ == old(self)@.insert(field, old(self)@[field].push(value@)),
            !added ==> final(self)@ == old(self)@,
    {
        match field {
            Field::Noun => {
                self.noun.push(value);
                proof {
                    lemma_texts_push(old(self).noun@, value);
                }
            },
            Field::Verb => {
                self.verb.push(value);
                proof {
                    lemma_texts_push(old(self).verb@, value);
                }
            },
            Field::Pronoun => {
                self.pronoun.push(value);
                proof {
                    lemma_texts_push(old(self).pronoun@, value);
                }
            },
            Field::Preposition => {
                self.preposition.push(value);
                proof {
                    lemma_texts_push(old(self).preposition@, value);
                }
            },
            Field::Abbreviation => {
                self.abbreviation.push(value);
                proof {
                    lemma_texts_push(old(self).abbreviation@, value);
                }
            },
            Field::Adjective => {
                self.adjective.push(value);
                proof {
                    lemma_texts_push(old(self).adjective@, value);
                }
            },
            Field::Adverb => {
                self.adverb.push(value);
                proof {
                    lemma_texts_push(old(self).adverb@, value);
                }
            },
            Field::Conjunction => {
                self.conjunction.push(value);
                proof {
                    lemma_texts_push(old(self).conjunction@, value);
                }
            },
            Field::Prefix => {
                self.prefix.push(value);
                proof {
                    lemma_texts_push(old(self).prefix@, value);
                }
            },
            Field::Determiner => {
                self.determiner.push(value);
                proof {
                    lemma_texts_push(old(self).determiner@, value);
                }
            },
            Field::InflectionNounPlural => {
                self.inflection_noun_plural.push(value);
                proof {
                    lemma_texts_push(old(self).inflection_noun_plural@, value);
                }
            },
            Field::InflectionVerbSingular => {
                if self.inflection_verb_singular.is_some() {
                    return false;
                }
                self.inflection_verb_singular = Some(value);
            },
            Field::InflectionVerbPresentParticiple => {
                if self.inflection_verb_present_participle.is_some() {
                    return false;
                }
                self.inflection_verb_present_participle = Some(value);
            },
            Field::InflectionVerbPast => {
                if self.inflection_verb_past.is_some() {
                    return false;
                }
                self.inflection_verb_past = Some(value);
            },
            Field::InflectionVerbPastParticiple => {
                if self.inflection_verb_past_participle.is_some() {
                    return false;
                }
                self.inflection_verb_past_participle = Some(value);
            },
            Field::PronunciationIpa => {
                self.pronunciation_ipa.push(value);
                proof {
                    lemma_texts_push(old(self).pronunciation_ipa@, value);
                }
            },
            Field::PronunciationSampa => {
                self.pronunciation_sampa.push(value);
                proof {
                    lemma_texts_push(old(self).pronunciation_sampa@, value);
                }
            },
            Field::PronunciationAhd => {
                self.pronunciation_ahd.push(value);
                proof {
                    lemma_texts_push(old(self).pronunciation_ahd@, value);
                }
            },
            Field::Alternative => {
                if self.alternative.is_some() {
                    return false;
                }
                self.alternative = Some(value);
            },
            Field::Derivative => {
                if self.derivative.is_some() {
                    return false;
                }
                self.derivative = Some(value);
            },
            Field::Antonym => {
                if self.antonym.is_some() {
                    return false;
                }
                self.antonym = Some(value);
            },
            Field::Synonym => {
                if self.synonym.is_some() {
                    return false;
                }
                self.synonym = Some(value);
            },
            Field::Relation => {
                if self.relation.is_some() {
                    return false;
                }
                self.relation = Some(value);
            },
            Field::InflectionAdjectiveComparative => {
                if self.inflection_adjective_comparative.is_some() {
                    return false;
                }
                self.inflection_adjective_comparative = Some(value);
            },
            Field::InflectionAdjectiveSuperlative => {
                if self.inflection_adjective_superlative.is_some() {
                    return false;
                }
                self.inflection_adjective_superlative = Some(value);
            },
            Field::Interjection => {
                self.interjection.push(value);
                proof {
                    lemma_texts_push(old(self).interjection@, value);
                }
            },
            Field::Hypernym => {
                if self.hypernym.is_some() {
                    return false;
                }
                self.hypernym = Some(value);
            },
            Field::Hyponym => {
                if self.hyponym.is_some() {
                    return false;
                }
                self.hyponym = Some(value);
            },
            Field::Auxverb => {
                self.auxverb.push(value);
                proof {
                    lemma_texts_push(old(self).auxverb@, value);
                }
            },
            Field::Article => {
                self.article.push(value);
                proof {
                    lemma_texts_push(old(self).article@, value);
                }
            },
            Field::InflectionAdverbComparative => {
                if self.inflection_adverb_comparative.is_some() {
                    return false;
                }
                self.inflection_adverb_comparative = Some(value);
            },
            Field::InflectionAdverbSuperlative => {
                if self.inflection_adverb_superlative.is_some() {
                    return false;
                }
                self.inflection_adverb_superlative = Some(value);
            },
            Field::Suffix => {
                self.suffix.push(value);
                proof {
                    lemma_texts_push(old(self).suffix@, value);
                }
            },
        }
        assert(self@ =~= old(self)@.insert(field, old(self)@[field].push(value@)));
        true
    }

    /// The values of a field that is a list; `None` for a field that may
    /// occur only once.
    pub fn list(&self, field: Field) -> (values: Option<&Vec<String>>)
        ensures
            values is Some <==> !field.is_single(),
            values matches Some(v) ==> texts(v@) == self@[field],
    {
        match field {
            Field::Noun => Some(&self.noun),
            Field::Verb => Some(&self.verb),
            Field::Pronoun => Some(&self.pronoun),
            Field::Preposition => Some(&self.preposition),
            Field::Abbreviation => Some(&self.abbreviation),
            Field::Adjective => Some(&self.adjective),
            Field::Adverb => Some(&self.adverb),
            Field::Conjunction => Some(&self.conjunction),
            Field::Prefix => Some(&self.prefix),
            Field::Determiner => Some(&self.determiner),
            Field::InflectionNounPlural => Some(&self.inflection_noun_plural),
            Field::PronunciationIpa => Some(&self.pronunciation_ipa),
            Field::PronunciationSampa => Some(&self.pronunciation_sampa),
            Field::PronunciationAhd => Some(&self.pronunciation_ahd),
            Field::Interjection => Some(&self.interjection),
            Field::Auxverb => Some(&self.auxverb),
            Field::Article => Some(&self.article),
            Field::Suffix => Some(&self.suffix),
            _ => None,
        }
    }

    /// The value of a field that may occur only once, if it has one; `None`
    /// for a field that is a list.
    pub fn detail(&self, field: Field) -> (value: Option<&String>)
        ensures
            value is Some <==> field.is_single() && self@[field].len() > 0,
            value matches Some(text) ==> self@[field] == seq![text@],
    {
        match field {
            Field::InflectionVerbSingular => self.inflection_verb_singular.as_ref(),
            Field::InflectionVerbPresentParticiple => self.inflection_verb_present_participle.as_ref(),
            Field::InflectionVerbPast => self.inflection_verb_past.as_ref(),
            Field::InflectionVerbPastParticiple => self.inflection_verb_past_participle.as_ref(),
            Field::Alternative => self.alternative.as_ref(),
            Field::Derivative => self.derivative.as_ref(),
            Field::Antonym => self.antonym.as_ref(),
            Field::Synonym => self.synonym.as_ref(),
            Field::Relation => self.relation.as_ref(),
            Field::InflectionAdjectiveComparative => self.inflection_adjective_comparative.as_ref(),
            Field::InflectionAdjectiveSuperlative => self.inflection_adjective_superlative.as_ref(),
            Field::Hypernym => self.hypernym.as_ref(),
            Field::Hyponym => self.hyponym.as_ref(),
            Field::InflectionAdverbComparative => self.inflection_adverb_comparative.as_ref(),
            Field::InflectionAdverbSuperlative => self.inflection_adverb_superlative.as_ref(),
            _ => None,
        }
    }
}

/// Reading the fields of `rest` is reading its first field and then the
/// fields of what follows the first tab.
proof fn lemma_absorb_first(record: Record, rest: Seq<char>, unknown: UnknownKeys)
    ensures
        ({
            let i = first_index(rest, '\t');
            let last = !(0 <= i < rest.len());
            let field = if last {
                rest
            } else {
                rest.subrange(0, i)
            };
            absorb_all(record, split(rest, '\t'), unknown) == match absorb(record, field, unknown) {
                Err(fault) => Err::<Record, Fault>(fault),
                Ok(next) => if last {
                    Ok(next)
                } else {
                    absorb_all(next, split(rest.subrange(i + 1, rest.len() as int), '\t'), unknown)
                },
            }
        }),
{
    let i = first_index(rest, '\t');
    let fields = split(rest, '\t');
    if 0 <= i < rest.len() {
        let more = split(rest.subrange(i + 1, rest.len() as int), '\t');
        assert(fields == seq![rest.subrange(0, i)] + more);
        assert(fields[0] == rest.subrange(0, i));
        assert(fields.drop_first() =~= more);
    } else {
        assert(fields == seq![rest]);
        assert(fields[0] == rest);
        assert(fields.drop_first() =~= Seq::<Seq<char>>::empty());
        match absorb(record, rest, unknown) {
            Ok(next) => {
                assert(absorb_all(next, fields.drop_first(), unknown) == Ok::<Record, Fault>(next));
            },
            Err(_) => {},
        }
    }
}

impl Entry {
    /// Reads one record. A key that no field answers to refuses the record.
    ///
    /// The result is `Ok` exactly for a line in which every field holds a
    /// `=`, every key is `word` or a key of [`Field`], no key that may occur
    /// only once occurs twice, and `word` occurs.
    pub fn parse_from_tsv(value: String) -> (result: Result<(Word, Entry), WiktionaryError>)
        ensures
            is_parse_of(result, parsed(value@, UnknownKeys::Reject)),
    {
        Entry::parse_with(value.as_str(), UnknownKeys::Reject)
    }

    /// Reads one record, with the choice of what an unknown key does.
    pub fn parse_with(line: &str, unknown: UnknownKeys) -> (result: Result<
        (Word, Entry),
        WiktionaryError,
    >)
        ensures
            is_parse_of(result, parsed(line@, unknown)),
    {
        let chars = chars_of(line);
        let n = chars.len();
        let mut entry = Entry::default();
        let mut word: Option<Word> = None;
        let mut pos: usize = 0;
        let mut done = false;
        let ghost whole = absorb_all(empty_record(), split(line@, '\t'), unknown);
        assert(line@.subrange(0, n as int) =~= line@);
        while !done
            invariant
                pos <= n,
                n == chars@.len(),
                chars@ == line@,
                whole == absorb_all(empty_record(), split(line@, '\t'), unknown),
                !done ==> whole == absorb_all(
                    Record { word: word_view(word), entry: entry@ },
                    split(line@.subrange(pos as int, n as int), '\t'),
                    unknown,
                ),
                done ==> whole == Ok::<Record, Fault>(
                    Record { word: word_view(word), entry: entry@ },
                ),
            decreases n - pos + if done { 0int } else { 1int },
        {
            let tab = find(&chars, pos, n, '\t');
            let sign = find(&chars, pos, tab, '=');
            let ghost record = Record { word: word_view(word), entry: entry@ };
            let ghost rest = line@.subrange(pos as int, n as int);
            let ghost field = line@.subrange(pos as int, tab as int);
            proof {
                lemma_absorb_first(record, rest, unknown);
                assert(chars@.subrange(pos as int, n as int) == rest);
                assert(chars@.subrange(pos as int, tab as int) == field);
                if tab < n {
                    assert(rest.subrange(0, tab - pos) =~= field);
                    assert(rest.subrange(tab - pos + 1, rest.len() as int) =~= line@.subrange(
                        tab as int + 1,
                        n as int,
                    ));
                } else {
                    assert(rest =~= field);
                }
            }
            if sign == tab {
                return Err(WiktionaryError::IsNotDetail);
            }
            let key = string_of(&chars, pos, sign);
            let value = string_of(&chars, sign + 1, tab);
            proof {
                assert(key@ =~= field.subrange(0, sign - pos));
                assert(value@ =~= field.subrange(sign - pos + 1, field.len() as int));
                assert(split_once(field, '=') == Some((key@, value@)));
            }
            if str_eq(key.as_str(), "word") {
                if word.is_some() {
                    return Err(WiktionaryError::DuplicateField(key));
                }
                word = Some(Word::new(value.as_str()));
            } else {
                match Field::from_key(key.as_str()) {
                    None => match unknown {
                        UnknownKeys::Reject => {
                            return Err(WiktionaryError::UnknownKey(key));
                        },
                        UnknownKeys::Skip => {},
                    },
                    Some(f) => {
                        if !entry.push(f, value) {
                            return Err(WiktionaryError::DuplicateField(key));
                        }
                    },
                }
            }
            if tab == n {
                done = true;
            } else {
                pos = tab + 1;
            }
        }
        match word {
            None => Err(WiktionaryError::TitleNotInclued),
            Some(w) => Ok((w, entry)),
        }
    }
}

} // verus!
