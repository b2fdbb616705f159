//! The grammatical categories that the verb templates are built from.

use vstd::prelude::*;

verus! {

/// The tenses of the indicative and interrogative moods.
#[derive(Debug, Clone, Copy, PartialEq, Eq, Structural)]
pub enum Tense {
    Present,
    Imperfect,
    Perfect,
    PlusQuamPerfect,
    FarPast1,
    FastPast2,
    Aorist1,
    Aorist2,
    Future1,
    Future2,
}

/// Every tense once, in declaration order.
pub open spec fn all_tenses() -> Seq<Tense> {
    seq![
        Tense::Present,
        Tense::Imperfect,
        Tense::Perfect,
        Tense::PlusQuamPerfect,
        Tense::FarPast1,
        Tense::FastPast2,
        Tense::Aorist1,
        Tense::Aorist2,
        Tense::Future1,
        Tense::Future2,
    ]
}

impl Tense {
    pub fn variants() -> (res: Vec<Self>)
        ensures
            res@ == all_tenses(),
    {
        vec![
            Tense::Present,
            Tense::Imperfect,
            Tense::Perfect,
            Tense::PlusQuamPerfect,
            Tense::FarPast1,
            Tense::FastPast2,
            Tense::Aorist1,
            Tense::Aorist2,
            Tense::Future1,
            Tense::Future2,
        ]
    }

    pub fn variants_iter() -> (res: std::vec::IntoIter<Self>)
        ensures
            vstd::std_specs::iter::IteratorSpec::remaining(&res) == all_tenses(),
    {
        Self::variants().into_iter()
    }
}


/// How a preverb sounds in front of what follows it.
#[derive(Debug, Clone, PartialEq, Eq, Structural)]
pub enum PreverbSoundForm {
    /// e.g. къэ-
    Full,
    /// e.g. къы-
    Reduced,
    /// e.g. къ-
    BeforeVowel,
}

#[derive(Debug, Clone, PartialEq, Eq, Structural)]
pub enum Transitivity {
    Transitive,
    Intransitive,
}

/// The case in which the subject of a verb of the given transitivity stands.
pub open spec fn spec_subject_case(transitivity: Transitivity) -> Case {
    match transitivity {
        Transitivity::Transitive => Case::Ergative,
        Transitivity::Intransitive => Case::Absolutive,
    }
}

impl Transitivity {
    pub fn subject_case(&self) -> (res: Case)
        ensures
            res == spec_subject_case(*self),
    {
        match self {
            Transitivity::Transitive => Case::Ergative,
            Transitivity::Intransitive => Case::Absolutive,
        }
    }
}

pub struct Pronoun {
    pub case: Case,
    pub number: Number,
    pub person: Person,
}

/// The personal pronouns in the case of the subject of a verb of the given
/// transitivity: first, second and third person singular, then plural.
pub open spec fn pronoun_forms(transitivity: Transitivity) -> Seq<Seq<char>> {
    match transitivity {
        Transitivity::Intransitive => seq!["сэ"@, "уэ"@, "ар"@, "дэ"@, "фэ"@, "ахэр"@],
        Transitivity::Transitive => seq!["сэ"@, "уэ"@, "абы"@, "дэ"@, "фэ"@, "абыхэм"@],
    }
}

impl Pronoun {
    pub fn variants_str(transitivity: &Transitivity) -> (res: [&str; 6])
        ensures
            forall|i: int| 0 <= i < 6 ==> #[trigger] res@[i]@ == pronoun_forms(*transitivity)[i],
    {
        match transitivity {
            Transitivity::Intransitive => ["сэ", "уэ", "ар", "дэ", "фэ", "ахэр"],
            Transitivity::Transitive => ["сэ", "уэ", "абы", "дэ", "фэ", "абыхэм"],
        }
    }
}

#[derive(Debug, Clone, Copy, PartialEq, Eq, Structural)]
pub enum Polarity {
    Positive,
    Negative,
}

/// Both polarities once, positive first.
pub open spec fn all_polarities() -> Seq<Polarity> {
    seq![Polarity::Positive, Polarity::Negative]
}

/// The prefix that marks a polarity: none for the positive, "мы" for the negative.
pub open spec fn polarity_prefix(polarity: Polarity) -> Seq<char> {
    match polarity {
        Polarity::Positive => ""@,
        Polarity::Negative => "мы"@,
    }
}

/// The suffix that marks a polarity: none for the positive, "къым" for the negative.
pub open spec fn polarity_suffix(polarity: Polarity) -> Seq<char> {
    match polarity {
        Polarity::Positive => ""@,
        Polarity::Negative => "къым"@,
    }
}

impl Polarity {
    pub fn variants() -> (res: Vec<Self>)
        ensures
            res@ == all_polarities(),
    {
        vec![Polarity::Positive, Polarity::Negative]
    }

    pub fn variants_iter() -> (res: std::vec::IntoIter<Self>)
        ensures
            vstd::std_specs::iter::IteratorSpec::remaining(&res) == all_polarities(),
    {
        Self::variants().into_iter()
    }

    pub fn to_string_prefix(self) -> (res: String)
        ensures
            res@ == polarity_prefix(self),
    {
        match self {
            Polarity::Positive => "".to_owned(),
            Polarity::Negative => "мы".to_owned(),
        }
    }

    pub fn to_string_suffix(self) -> (res: String)
        ensures
            res@ == polarity_suffix(self),
    {
        match self {
            Polarity::Positive => "".to_owned(),
            Polarity::Negative => "къым".to_owned(),
        }
    }
}

#[derive(Debug, Clone, Copy, PartialEq, Eq, Structural)]
pub enum Case {
    /// (-р) subject of intransitive verb, direct object of transitive verb
    Absolutive,
    /// (-м) subject of transitive verb
    Ergative,
}

/// A struct that indicates the number of a noun or verb.
#[derive(Debug, Clone, Copy, PartialEq, Eq, Structural)]
pub enum Number {
    Singular,
    Plural,
}

/// Both numbers once, singular first.
pub open spec fn all_numbers() -> Seq<Number> {
    seq![Number::Singular, Number::Plural]
}

impl Number {
    pub fn variants() -> (res: Vec<Self>)
        ensures
            res@ == all_numbers(),
    {
        vec![Number::Singular, Number::Plural]
    }

    pub fn variants_iter() -> (res: std::vec::IntoIter<Self>)
        ensures
            vstd::std_specs::iter::IteratorSpec::remaining(&res) == all_numbers(),
    {
        Self::variants().into_iter()
    }
}

/// A struct that indicates the person of a verb.
#[derive(Debug, Clone, Copy, PartialEq, Eq, Structural)]
pub enum Person {
    First,
    Second,
    Third,
}

/// The three persons once, first person first.
pub open spec fn all_persons() -> Seq<Person> {
    seq![Person::First, Person::Second, Person::Third]
}

impl Person {
    pub fn variants() -> (res: Vec<Self>)
        ensures
            res@ == all_persons(),
    {
        vec![Person::First, Person::Second, Person::Third]
    }

    pub fn variants_iter() -> (res: std::vec::IntoIter<Self>)
        ensures
            vstd::std_specs::iter::IteratorSpec::remaining(&res) == all_persons(),
    {
        Self::variants().into_iter()
    }
}

} // verus!
