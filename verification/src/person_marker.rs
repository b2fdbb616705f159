//! Person markers: the prefixes that mark the person and number of the
//! absolutive and ergative arguments of a verb, and their sound variants.

use vstd::prelude::*;

use crate::grammar::{Case, Number, Person};

verus! {

#[derive(Debug, Clone, Copy, PartialEq, Eq, Structural)]
pub struct PersonMarker {
    pub person: Person,
    pub number: Number,
    /// The case of the person marker.
    /// However, not direct reflection of the actual case, but more so the "surface level" appearance of the person markers.
    pub case: Case,
}

/// The written form of a person marker. The third person has no absolutive marker.
pub open spec fn marker_base(person: Person, number: Number, case: Case) -> Seq<char> {
    match (person, number, case) {
        (Person::First, Number::Singular, Case::Absolutive) => "сы"@,
        (Person::Second, Number::Singular, Case::Absolutive) => "у"@,
        (Person::Third, Number::Singular, Case::Absolutive) => ""@,
        (Person::First, Number::Plural, Case::Absolutive) => "ды"@,
        (Person::Second, Number::Plural, Case::Absolutive) => "фы"@,
        (Person::Third, Number::Plural, Case::Absolutive) => ""@,
        (Person::First, Number::Singular, Case::Ergative) => "с"@,
        (Person::Second, Number::Singular, Case::Ergative) => "б"@,
        (Person::Third, Number::Singular, Case::Ergative) => "и"@,
        (Person::First, Number::Plural, Case::Ergative) => "д"@,
        (Person::Second, Number::Plural, Case::Ergative) => "ф"@,
        (Person::Third, Number::Plural, Case::Ergative) => "я"@,
    }
}

/// The written form of a person marker, letter by letter.
pub open spec fn marker_base_letters(person: Person, number: Number, case: Case) -> Seq<char> {
    match (person, number, case) {
        (Person::First, Number::Singular, Case::Absolutive) => seq!['с', 'ы'],
        (Person::Second, Number::Singular, Case::Absolutive) => seq!['у'],
        (Person::Third, _, Case::Absolutive) => seq![],
        (Person::First, Number::Plural, Case::Absolutive) => seq!['д', 'ы'],
        (Person::Second, Number::Plural, Case::Absolutive) => seq!['ф', 'ы'],
        (Person::First, Number::Singular, Case::Ergative) => seq!['с'],
        (Person::Second, Number::Singular, Case::Ergative) => seq!['б'],
        (Person::Third, Number::Singular, Case::Ergative) => seq!['и'],
        (Person::First, Number::Plural, Case::Ergative) => seq!['д'],
        (Person::Second, Number::Plural, Case::Ergative) => seq!['ф'],
        (Person::Third, Number::Plural, Case::Ergative) => seq!['я'],
    }
}

/// The letters of each person marker's written form.
pub proof fn lemma_marker_base_letters(person: Person, number: Number, case: Case)
    ensures
        marker_base(person, number, case) == marker_base_letters(person, number, case),
{
    reveal_strlit("сы");
    reveal_strlit("у");
    reveal_strlit("");
    reveal_strlit("ды");
    reveal_strlit("фы");
    reveal_strlit("с");
    reveal_strlit("б");
    reveal_strlit("и");
    reveal_strlit("д");
    reveal_strlit("ф");
    reveal_strlit("я");
}

/// The voiced counterpart of a marker's initial letter, where it has one.
pub open spec fn voiced_initial(c: char) -> Option<char> {
    if c == 'с' {
        Some('з')
    } else if c == 'ф' {
        Some('в')
    } else if c == 'б' || c == 'д' || c == 'и' {
        Some(c)
    } else {
        None
    }
}

/// The voiceless counterpart of a marker's initial letter, where it has one.
pub open spec fn voiceless_initial(c: char) -> Option<char> {
    if c == 'б' {
        Some('п')
    } else if c == 'д' {
        Some('т')
    } else if c == 'с' || c == 'ф' || c == 'и' {
        Some(c)
    } else {
        None
    }
}

/// The form a marker's initial letter takes after a consonant, where it has one.
pub open spec fn after_consonant_initial(c: char) -> Option<char> {
    if c == 'я' {
        Some('а')
    } else if c == 'с' || c == 'б' || c == 'д' || c == 'ф' || c == 'и' {
        Some(c)
    } else {
        None
    }
}

/// The markers whose initial letter has a voiced counterpart: all but the second
/// person singular absolutive "у", the third person absolutive (written as
/// nothing) and the third person plural ergative "я".
pub open spec fn has_voiced_form(m: PersonMarker) -> bool {
    &&& !(m.person == Person::Second && m.number == Number::Singular && m.case == Case::Absolutive)
    &&& !(m.person == Person::Third && m.case == Case::Absolutive)
    &&& !(m.person == Person::Third && m.number == Number::Plural && m.case == Case::Ergative)
}

/// The markers whose initial letter has a voiceless counterpart: the same as
/// those with a voiced one.
pub open spec fn has_voiceless_form(m: PersonMarker) -> bool {
    has_voiced_form(m)
}

/// The markers whose initial letter has a form after a consonant: all but the
/// second person singular absolutive "у" and the third person absolutive.
pub open spec fn has_after_consonant_form(m: PersonMarker) -> bool {
    &&& !(m.person == Person::Second && m.number == Number::Singular && m.case == Case::Absolutive)
    &&& !(m.person == Person::Third && m.case == Case::Absolutive)
}

/// `s` with its first letter replaced by `c`.
pub open spec fn with_initial(s: Seq<char>, c: char) -> Seq<char> {
    seq![c] + s.drop_first()
}

impl PersonMarker {
    /// The written form of this marker.
    pub open spec fn spec_base(self) -> Seq<char> {
        marker_base(self.person, self.number, self.case)
    }

    pub fn new(person: Person, number: Number, case: Case) -> (res: Self)
        ensures
            res.person == person,
            res.number == number,
            res.case == case,
    {
        PersonMarker { person, number, case }
    }

    pub fn is_third(&self) -> (res: bool)
        ensures
            res == (self.person == Person::Third),
    {
        self.person == Person::Third
    }

    pub fn is_second_singular(&self) -> (res: bool)
        ensures
            res == (self.person == Person::Second && self.number == Number::Singular),
    {
        self.person == Person::Second && self.number == Number::Singular
    }

    pub fn is_third_ergative(&self) -> (res: bool)
        ensures
            res == (self.person == Person::Third && self.case == Case::Ergative),
    {
        self.person == Person::Third && self.case == Case::Ergative
    }

    pub fn is_third_singular_ergative(&self) -> (res: bool)
        ensures
            res == (self.person == Person::Third && self.number == Number::Singular && self.case
                == Case::Ergative),
    {
        self.person == Person::Third && self.number == Number::Singular && self.case
            == Case::Ergative
    }

    pub fn is_third_plural_ergative(&self) -> (res: bool)
        ensures
            res == (self.person == Person::Third && self.number == Number::Plural && self.case
                == Case::Ergative),
    {
        self.person == Person::Third && self.number == Number::Plural && self.case == Case::Ergative
    }

    pub fn is_ergative(&self) -> (res: bool)
        ensures
            res == (self.case == Case::Ergative),
    {
        self.case == Case::Ergative
    }

    pub fn is_absolutive(&self) -> (res: bool)
        ensures
            res == (self.case == Case::Absolutive),
    {
        self.case == Case::Absolutive
    }

    pub fn base_string(&self) -> (res: String)
        ensures
            res@ == self.spec_base(),
    {
        let result = match (self.person, self.number, self.case) {
            (Person::First, Number::Singular, Case::Absolutive) => "сы",
            (Person::Second, Number::Singular, Case::Absolutive) => "у",
            (Person::Third, Number::Singular, Case::Absolutive) => "",
            (Person::First, Number::Plural, Case::Absolutive) => "ды",
            (Person::Second, Number::Plural, Case::Absolutive) => "фы",
            (Person::Third, Number::Plural, Case::Absolutive) => "",
            (Person::First, Number::Singular, Case::Ergative) => "с",
            (Person::Second, Number::Singular, Case::Ergative) => "б",
            (Person::Third, Number::Singular, Case::Ergative) => "и",
            (Person::First, Number::Plural, Case::Ergative) => "д",
            (Person::Second, Number::Plural, Case::Ergative) => "ф",
            (Person::Third, Number::Plural, Case::Ergative) => "я",
        };
        result.to_string()
    }

    pub fn base_string_as_voiced(&self) -> (res: String)
        requires
            has_voiced_form(*self),
        ensures
            res@ == with_initial(self.spec_base(), voiced_initial(self.spec_base()[0])->0),
    {
        let base = self.base_string();
        proof {
            lemma_marker_base_letters(self.person, self.number, self.case);
        }
        let n = base.as_str().unicode_len();
        let old = base.as_str().get_char(0);
        if old == 'с' {
            proof {
                reveal_strlit("з");
            }
            String::from_str("з").concat(base.as_str().substring_char(1, n))
        } else if old == 'ф' {
            proof {
                reveal_strlit("в");
            }
            String::from_str("в").concat(base.as_str().substring_char(1, n))
        } else {
            assert(base@ =~= with_initial(base@, old));
            base
        }
    }

    pub fn base_string_as_voiceless(&self) -> (res: String)
        requires
            has_voiceless_form(*self),
        ensures
            res@ == with_initial(self.spec_base(), voiceless_initial(self.spec_base()[0])->0),
    {
        let base = self.base_string();
        proof {
            lemma_marker_base_letters(self.person, self.number, self.case);
        }
        let n = base.as_str().unicode_len();
        let old = base.as_str().get_char(0);
        if old == 'б' {
            proof {
                reveal_strlit("п");
            }
            String::from_str("п").concat(base.as_str().substring_char(1, n))
        } else if old == 'д' {
            proof {
                reveal_strlit("т");
            }
            String::from_str("т").concat(base.as_str().substring_char(1, n))
        } else {
            assert(base@ =~= with_initial(base@, old));
            base
        }
    }

    pub fn base_string_as_after_consonant(&self) -> (res: String)
        requires
            has_after_consonant_form(*self),
        ensures
            res@ == with_initial(self.spec_base(), after_consonant_initial(self.spec_base()[0])->0),
    {
        let base = self.base_string();
        proof {
            lemma_marker_base_letters(self.person, self.number, self.case);
        }
        let n = base.as_str().unicode_len();
        let old = base.as_str().get_char(0);
        if old == 'я' {
            proof {
                reveal_strlit("а");
            }
            String::from_str("а").concat(base.as_str().substring_char(1, n))
        } else {
            assert(base@ =~= with_initial(base@, old));
            base
        }
    }

    /// The written form of this marker in front of the vowel "о": a final "ы" drops.
    pub open spec fn spec_base_before_o(self) -> Seq<char> {
        let b = self.spec_base();
        if b.len() > 0 && b.last() == 'ы' {
            b.drop_last()
        } else {
            b
        }
    }

    pub fn base_string_as_before_o(&self) -> (res: String)
        ensures
            res@ == self.spec_base_before_o(),
    {
        let base = self.base_string();
        let n = base.as_str().unicode_len();
        if n > 0 && base.as_str().get_char(n - 1) == 'ы' {
            base.as_str().substring_char(0, n - 1).to_owned()
        } else {
            base
        }
    }
}

} // verus!
