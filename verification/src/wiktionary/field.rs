//! The table of record keys: which keys a record may hold, and which of them
//! may occur only once.

use crate::text::str_eq;
use vstd::prelude::*;

verus! {

/// A key of a record, other than `word`.
#[derive(Clone, Copy, Debug, PartialEq, Eq, Structural, Hash)]
pub enum Field {
    /// `noun`: meanings as a noun.
    Noun,
    /// `verb`: meanings as a verb.
    Verb,
    /// `pronoun`: meanings as a pronoun.
    Pronoun,
    /// `preposition`: meanings as a preposition.
    Preposition,
    /// `abbreviation`: meanings as an abbreviation.
    Abbreviation,
    /// `adjective`: meanings as an adjective.
    Adjective,
    /// `adverb`: meanings as an adverb.
    Adverb,
    /// `conjunction`: meanings as a conjunction.
    Conjunction,
    /// `prefix`: meanings as a prefix.
    Prefix,
    /// `determiner`: meanings as a determiner.
    Determiner,
    /// `inflection_noun_plural`: plural forms.
    InflectionNounPlural,
    /// `inflection_verb_singular`: third person singular.
    InflectionVerbSingular,
    /// `inflection_verb_present_participle`: present participle.
    InflectionVerbPresentParticiple,
    /// `inflection_verb_past`: past tense.
    InflectionVerbPast,
    /// `inflection_verb_past_participle`: past participle.
    InflectionVerbPastParticiple,
    /// `pronunciation_ipa`: pronunciations in IPA.
    PronunciationIpa,
    /// `pronunciation_sampa`: pronunciations in SAMPA.
    PronunciationSampa,
    /// `pronunciation_ahd`: pronunciations in AHD.
    PronunciationAhd,
    /// `alternative`: alternative form.
    Alternative,
    /// `derivative`: derived term.
    Derivative,
    /// `antonym`: antonym.
    Antonym,
    /// `synonym`: synonym.
    Synonym,
    /// `relation`: related term.
    Relation,
    /// `inflection_adjective_comparative`: comparative of the adjective.
    InflectionAdjectiveComparative,
    /// `inflection_adjective_superlative`: superlative of the adjective.
    InflectionAdjectiveSuperlative,
    /// `interjection`: meanings as an interjection.
    Interjection,
    /// `hypernym`: broader term.
    Hypernym,
    /// `hyponym`: narrower term.
    Hyponym,
    /// `auxverb`: meanings as an auxiliary verb.
    Auxverb,
    /// `article`: meanings as an article.
    Article,
    /// `inflection_adverb_comparative`: comparative of the adverb.
    InflectionAdverbComparative,
    /// `inflection_adverb_superlative`: superlative of the adverb.
    InflectionAdverbSuperlative,
    /// `suffix`: meanings as a suffix.
    Suffix,
}

impl Field {
    /// The key under which a record writes this field.
    pub open spec fn key(self) -> Seq<char> {
        match self {
            Field::Noun => "noun"@,
            Field::Verb => "verb"@,
            Field::Pronoun => "pronoun"@,
            Field::Preposition => "preposition"@,
            Field::Abbreviation => "abbreviation"@,
            Field::Adjective => "adjective"@,
            Field::Adverb => "adverb"@,
            Field::Conjunction => "conjunction"@,
            Field::Prefix => "prefix"@,
            Field::Determiner => "determiner"@,
            Field::InflectionNounPlural => "inflection_noun_plural"@,
            Field::InflectionVerbSingular => "inflection_verb_singular"@,
            Field::InflectionVerbPresentParticiple => "inflection_verb_present_participle"@,
            Field::InflectionVerbPast => "inflection_verb_past"@,
            Field::InflectionVerbPastParticiple => "inflection_verb_past_participle"@,
            Field::PronunciationIpa => "pronunciation_ipa"@,
            Field::PronunciationSampa => "pronunciation_sampa"@,
            Field::PronunciationAhd => "pronunciation_ahd"@,
            Field::Alternative => "alternative"@,
            Field::Derivative => "derivative"@,
            Field::Antonym => "antonym"@,
            Field::Synonym => "synonym"@,
            Field::Relation => "relation"@,
            Field::InflectionAdjectiveComparative => "inflection_adjective_comparative"@,
            Field::InflectionAdjectiveSuperlative => "inflection_adjective_superlative"@,
            Field::Interjection => "interjection"@,
            Field::Hypernym => "hypernym"@,
            Field::Hyponym => "hyponym"@,
            Field::Auxverb => "auxverb"@,
            Field::Article => "article"@,
            Field::InflectionAdverbComparative => "inflection_adverb_comparative"@,
            Field::InflectionAdverbSuperlative => "inflection_adverb_superlative"@,
            Field::Suffix => "suffix"@,
        }
    }

    /// Whether a record may hold this field at most once. The other fields
    /// are lists: each occurrence adds a value.
    pub open spec fn is_single(self) -> bool {
        match self {
            Field::InflectionVerbSingular
            | Field::InflectionVerbPresentParticiple
            | Field::InflectionVerbPast
            | Field::InflectionVerbPastParticiple
            | Field::Alternative
            | Field::Derivative
            | Field::Antonym
            | Field::Synonym
            | Field::Relation
            | Field::InflectionAdjectiveComparative
            | Field::InflectionAdjectiveSuperlative
            | Field::Hypernym
            | Field::Hyponym
            | Field::InflectionAdverbComparative
            | Field::InflectionAdverbSuperlative => true,
            _ => false,
        }
    }

    /// Whether a record may hold this field at most once.
    pub fn single(self) -> (single: bool)
        ensures
            single == self.is_single(),
    {
        match self {
            Field::InflectionVerbSingular
            | Field::InflectionVerbPresentParticiple
            | Field::InflectionVerbPast
            | Field::InflectionVerbPastParticiple
            | Field::Alternative
            | Field::Derivative
            | Field::Antonym
            | Field::Synonym
            | Field::Relation
            | Field::InflectionAdjectiveComparative
            | Field::InflectionAdjectiveSuperlative
            | Field::Hypernym
            | Field::Hyponym
            | Field::InflectionAdverbComparative
            | Field::InflectionAdverbSuperlative => true,
            _ => false,
        }
    }

    /// The key under which a record writes this field.
    pub fn name(self) -> (name: &'static str)
        ensures
            name@ == self.key(),
    {
        match self {
            Field::Noun => "noun",
            Field::Verb => "verb",
            Field::Pronoun => "pronoun",
            Field::Preposition => "preposition",
            Field::Abbreviation => "abbreviation",
            Field::Adjective => "adjective",
            Field::Adverb => "adverb",
            Field::Conjunction => "conjunction",
            Field::Prefix => "prefix",
            Field::Determiner => "determiner",
            Field::InflectionNounPlural => "inflection_noun_plural",
            Field::InflectionVerbSingular => "inflection_verb_singular",
            Field::InflectionVerbPresentParticiple => "inflection_verb_present_participle",
            Field::InflectionVerbPast => "inflection_verb_past",
            Field::InflectionVerbPastParticiple => "inflection_verb_past_participle",
            Field::PronunciationIpa => "pronunciation_ipa",
            Field::PronunciationSampa => "pronunciation_sampa",
            Field::PronunciationAhd => "pronunciation_ahd",
            Field::Alternative => "alternative",
            Field::Derivative => "derivative",
            Field::Antonym => "antonym",
            Field::Synonym => "synonym",
            Field::Relation => "relation",
            Field::InflectionAdjectiveComparative => "inflection_adjective_comparative",
            Field::InflectionAdjectiveSuperlative => "inflection_adjective_superlative",
            Field::Interjection => "interjection",
            Field::Hypernym => "hypernym",
            Field::Hyponym => "hyponym",
            Field::Auxverb => "auxverb",
            Field::Article => "article",
            Field::InflectionAdverbComparative => "inflection_adverb_comparative",
            Field::InflectionAdverbSuperlative => "inflection_adverb_superlative",
            Field::Suffix => "suffix",
        }
    }

    /// Every field, in the order in which an entry is shown.
    pub fn all() -> (fields: Vec<Field>)
        ensures
            fields@ == all_fields(),
    {
        let fields = vec![
            Field::Noun,
            Field::Verb,
            Field::Pronoun,
            Field::Preposition,
            Field::Abbreviation,
            Field::Adjective,
            Field::Adverb,
            Field::Conjunction,
            Field::Prefix,
            Field::Determiner,
            Field::InflectionNounPlural,
            Field::InflectionVerbSingular,
            Field::InflectionVerbPresentParticiple,
            Field::InflectionVerbPast,
            Field::InflectionVerbPastParticiple,
            Field::PronunciationIpa,
            Field::PronunciationSampa,
            Field::PronunciationAhd,
            Field::Alternative,
            Field::Derivative,
            Field::Antonym,
            Field::Synonym,
            Field::Relation,
            Field::InflectionAdjectiveComparative,
            Field::InflectionAdjectiveSuperlative,
            Field::Interjection,
            Field::Hypernym,
            Field::Hyponym,
            Field::Auxverb,
            Field::Article,
            Field::InflectionAdverbComparative,
            Field::InflectionAdverbSuperlative,
            Field::Suffix,
        ];
        assert(fields@ =~= all_fields());
        fields
    }

    /// The field that `key` names, if it names one.
    pub fn from_key(key: &str) -> (field: Option<Field>)
        ensures
            field == field_of(key@),
    {
        if str_eq(key, "noun") {
            Some(Field::Noun)
        } else if str_eq(key, "verb") {
            Some(Field::Verb)
        } else if str_eq(key, "pronoun") {
            Some(Field::Pronoun)
        } else if str_eq(key, "preposition") {
            Some(Field::Preposition)
        } else if str_eq(key, "abbreviation") {
            Some(Field::Abbreviation)
        } else if str_eq(key, "adjective") {
            Some(Field::Adjective)
        } else if str_eq(key, "adverb") {
            Some(Field::Adverb)
        } else if str_eq(key, "conjunction") {
            Some(Field::Conjunction)
        } else if str_eq(key, "prefix") {
            Some(Field::Prefix)
        } else if str_eq(key, "determiner") {
            Some(Field::Determiner)
        } else if str_eq(key, "inflection_noun_plural") {
            Some(Field::InflectionNounPlural)
        } else if str_eq(key, "inflection_verb_singular") {
            Some(Field::InflectionVerbSingular)
        } else if str_eq(key, "inflection_verb_present_participle") {
            Some(Field::InflectionVerbPresentParticiple)
        } else if str_eq(key, "inflection_verb_past") {
            Some(Field::InflectionVerbPast)
        } else if str_eq(key, "inflection_verb_past_participle") {
            Some(Field::InflectionVerbPastParticiple)
        } else if str_eq(key, "pronunciation_ipa") {
            Some(Field::PronunciationIpa)
        } else if str_eq(key, "pronunciation_sampa") {
            Some(Field::PronunciationSampa)
        } else if str_eq(key, "pronunciation_ahd") {
            Some(Field::PronunciationAhd)
        } else if str_eq(key, "alternative") {
            Some(Field::Alternative)
        } else if str_eq(key, "derivative") {
            Some(Field::Derivative)
        } else if str_eq(key, "antonym") {
            Some(Field::Antonym)
        } else if str_eq(key, "synonym") {
            Some(Field::Synonym)
        } else if str_eq(key, "relation") {
            Some(Field::Relation)
        } else if str_eq(key, "inflection_adjective_comparative") {
            Some(Field::InflectionAdjectiveComparative)
        } else if str_eq(key, "inflection_adjective_superlative") {
            Some(Field::InflectionAdjectiveSuperlative)
        } else if str_eq(key, "interjection") {
            Some(Field::Interjection)
        } else if str_eq(key, "hypernym") {
            Some(Field::Hypernym)
        } else if str_eq(key, "hyponym") {
            Some(Field::Hyponym)
        } else if str_eq(key, "auxverb") {
            Some(Field::Auxverb)
        } else if str_eq(key, "article") {
            Some(Field::Article)
        } else if str_eq(key, "inflection_adverb_comparative") {
            Some(Field::InflectionAdverbComparative)
        } else if str_eq(key, "inflection_adverb_superlative") {
            Some(Field::InflectionAdverbSuperlative)
        } else if str_eq(key, "suffix") {
            Some(Field::Suffix)
        } else {
            None
        }
    }
}

/// Every field, in the order in which an entry is shown.
pub open spec fn all_fields() -> Seq<Field> {
    seq![
        Field::Noun,
        Field::Verb,
        Field::Pronoun,
        Field::Preposition,
        Field::Abbreviation,
        Field::Adjective,
        Field::Adverb,
        Field::Conjunction,
        Field::Prefix,
        Field::Determiner,
        Field::InflectionNounPlural,
        Field::InflectionVerbSingular,
        Field::InflectionVerbPresentParticiple,
        Field::InflectionVerbPast,
        Field::InflectionVerbPastParticiple,
        Field::PronunciationIpa,
        Field::PronunciationSampa,
        Field::PronunciationAhd,
        Field::Alternative,
        Field::Derivative,
        Field::Antonym,
        Field::Synonym,
        Field::Relation,
        Field::InflectionAdjectiveComparative,
        Field::InflectionAdjectiveSuperlative,
        Field::Interjection,
        Field::Hypernym,
        Field::Hyponym,
        Field::Auxverb,
        Field::Article,
        Field::InflectionAdverbComparative,
        Field::InflectionAdverbSuperlative,
        Field::Suffix,
    ]
}

/// The field that `key` names, if it names one.
pub open spec fn field_of(key: Seq<char>) -> Option<Field> {
    if key == "noun"@ {
        Some(Field::Noun)
    } else if key == "verb"@ {
        Some(Field::Verb)
    } else if key == "pronoun"@ {
        Some(Field::Pronoun)
    } else if key == "preposition"@ {
        Some(Field::Preposition)
    } else if key == "abbreviation"@ {
        Some(Field::Abbreviation)
    } else if key == "adjective"@ {
        Some(Field::Adjective)
    } else if key == "adverb"@ {
        Some(Field::Adverb)
    } else if key == "conjunction"@ {
        Some(Field::Conjunction)
    } else if key == "prefix"@ {
        Some(Field::Prefix)
    } else if key == "determiner"@ {
        Some(Field::Determiner)
    } else if key == "inflection_noun_plural"@ {
        Some(Field::InflectionNounPlural)
    } else if key == "inflection_verb_singular"@ {
        Some(Field::InflectionVerbSingular)
    } else if key == "inflection_verb_present_participle"@ {
        Some(Field::InflectionVerbPresentParticiple)
    } else if key == "inflection_verb_past"@ {
        Some(Field::InflectionVerbPast)
    } else if key == "inflection_verb_past_participle"@ {
        Some(Field::InflectionVerbPastParticiple)
    } else if key == "pronunciation_ipa"@ {
        Some(Field::PronunciationIpa)
    } else if key == "pronunciation_sampa"@ {
        Some(Field::PronunciationSampa)
    } else if key == "pronunciation_ahd"@ {
        Some(Field::PronunciationAhd)
    } else if key == "alternative"@ {
        Some(Field::Alternative)
    } else if key == "derivative"@ {
        Some(Field::Derivative)
    } else if key == "antonym"@ {
        Some(Field::Antonym)
    } else if key == "synonym"@ {
        Some(Field::Synonym)
    } else if key == "relation"@ {
        Some(Field::Relation)
    } else if key == "inflection_adjective_comparative"@ {
        Some(Field::InflectionAdjectiveComparative)
    } else if key == "inflection_adjective_superlative"@ {
        Some(Field::InflectionAdjectiveSuperlative)
    } else if key == "interjection"@ {
        Some(Field::Interjection)
    } else if key == "hypernym"@ {
        Some(Field::Hypernym)
    } else if key == "hyponym"@ {
        Some(Field::Hyponym)
    } else if key == "auxverb"@ {
        Some(Field::Auxverb)
    } else if key == "article"@ {
        Some(Field::Article)
    } else if key == "inflection_adverb_comparative"@ {
        Some(Field::InflectionAdverbComparative)
    } else if key == "inflection_adverb_superlative"@ {
        Some(Field::InflectionAdverbSuperlative)
    } else if key == "suffix"@ {
        Some(Field::Suffix)
    } else {
        None
    }
}

/// The character of `s` at `i`, or a blank where `s` ends before.
spec fn at(s: Seq<char>, i: int) -> char {
    if 0 <= i < s.len() {
        s[i]
    } else {
        ' '
    }
}

/// The length of `s` with four of its characters: enough to tell the keys
/// of the table apart.
spec fn mark(s: Seq<char>) -> (nat, char, char, char, char) {
    (s.len(), at(s, 0), at(s, 3), at(s, 14), at(s, 21))
}

/// Every field is found again by its key, and no key is `word`: the table
/// has one row for each field.
pub proof fn lemma_field_of_key(field: Field)
    ensures
        field_of(field.key()) == Some(field),
        field.key() != "word"@,
{
    reveal_strlit("word");
    assert(mark("word"@) == (4nat, 'w', 'd', ' ', ' '));
    reveal_strlit("noun");
    assert(mark("noun"@) == (4nat, 'n', 'n', ' ', ' '));
    reveal_strlit("verb");
    assert(mark("verb"@) == (4nat, 'v', 'b', ' ', ' '));
    reveal_strlit("pronoun");
    assert(mark("pronoun"@) == (7nat, 'p', 'n', ' ', ' '));
    reveal_strlit("preposition");
    assert(mark("preposition"@) == (11nat, 'p', 'p', ' ', ' '));
    reveal_strlit("abbreviation");
    assert(mark("abbreviation"@) == (12nat, 'a', 'r', ' ', ' '));
    reveal_strlit("adjective");
    assert(mark("adjective"@) == (9nat, 'a', 'e', ' ', ' '));
    reveal_strlit("adverb");
    assert(mark("adverb"@) == (6nat, 'a', 'e', ' ', ' '));
    reveal_strlit("conjunction");
    assert(mark("conjunction"@) == (11nat, 'c', 'j', ' ', ' '));
    reveal_strlit("prefix");
    assert(mark("prefix"@) == (6nat, 'p', 'f', ' ', ' '));
    reveal_strlit("determiner");
    assert(mark("determiner"@) == (10nat, 'd', 'e', ' ', ' '));
    reveal_strlit("inflection_noun_plural");
    assert(mark("inflection_noun_plural"@) == (22nat, 'i', 'l', 'n', 'l'));
    reveal_strlit("inflection_verb_singular");
    assert(mark("inflection_verb_singular"@) == (24nat, 'i', 'l', 'b', 'l'));
    reveal_strlit("inflection_verb_present_participle");
    assert(mark("inflection_verb_present_participle"@) == (34nat, 'i', 'l', 'b', 'n'));
    reveal_strlit("inflection_verb_past");
    assert(mark("inflection_verb_past"@) == (20nat, 'i', 'l', 'b', ' '));
    reveal_strlit("inflection_verb_past_participle");
    assert(mark("inflection_verb_past_participle"@) == (31nat, 'i', 'l', 'b', 'p'));
    reveal_strlit("pronunciation_ipa");
    assert(mark("pronunciation_ipa"@) == (17nat, 'p', 'n', 'i', ' '));
    reveal_strlit("pronunciation_sampa");
    assert(mark("pronunciation_sampa"@) == (19nat, 'p', 'n', 's', ' '));
    reveal_strlit("pronunciation_ahd");
    assert(mark("pronunciation_ahd"@) == (17nat, 'p', 'n', 'a', ' '));
    reveal_strlit("alternative");
    assert(mark("alternative"@) == (11nat, 'a', 'e', ' ', ' '));
    reveal_strlit("derivative");
    assert(mark("derivative"@) == (10nat, 'd', 'i', ' ', ' '));
    reveal_strlit("antonym");
    assert(mark("antonym"@) == (7nat, 'a', 'o', ' ', ' '));
    reveal_strlit("synonym");
    assert(mark("synonym"@) == (7nat, 's', 'o', ' ', ' '));
    reveal_strlit("relation");
    assert(mark("relation"@) == (8nat, 'r', 'a', ' ', ' '));
    reveal_strlit("inflection_adjective_comparative");
    assert(mark("inflection_adjective_comparative"@) == (32nat, 'i', 'l', 'e', 'c'));
    reveal_strlit("inflection_adjective_superlative");
    assert(mark("inflection_adjective_superlative"@) == (32nat, 'i', 'l', 'e', 's'));
    reveal_strlit("interjection");
    assert(mark("interjection"@) == (12nat, 'i', 'e', ' ', ' '));
    reveal_strlit("hypernym");
    assert(mark("hypernym"@) == (8nat, 'h', 'e', ' ', ' '));
    reveal_strlit("hyponym");
    assert(mark("hyponym"@) == (7nat, 'h', 'o', ' ', ' '));
    reveal_strlit("auxverb");
    assert(mark("auxverb"@) == (7nat, 'a', 'v', ' ', ' '));
    reveal_strlit("article");
    assert(mark("article"@) == (7nat, 'a', 'i', ' ', ' '));
    reveal_strlit("inflection_adverb_comparative");
    assert(mark("inflection_adverb_comparative"@) == (29nat, 'i', 'l', 'e', 'p'));
    reveal_strlit("inflection_adverb_superlative");
    assert(mark("inflection_adverb_superlative"@) == (29nat, 'i', 'l', 'e', 'e'));
    reveal_strlit("suffix");
    assert(mark("suffix"@) == (6nat, 's', 'f', ' ', ' '));
}

} // verus!
