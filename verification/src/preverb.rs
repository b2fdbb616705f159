//! Preverbs and the sound forms they take in front of other morphemes.

use vstd::prelude::*;

use crate::grammar::PreverbSoundForm;

verus! {

#[derive(Debug, Clone, PartialEq, Eq)]
pub struct Preverb {
    base: String,
}

impl View for Preverb {
    type V = Seq<char>;

    /// The full written form of the preverb.
    closed spec fn view(&self) -> Seq<char> {
        self.base@
    }
}

/// A preverb can be shortened only where it ends in "э" or "ы".
pub open spec fn ends_in_reducible_vowel(base: Seq<char>) -> bool {
    base.len() > 0 && (base.last() == 'э' || base.last() == 'ы')
}

/// The written form of a preverb `base` in the given sound form: the full
/// form; the final vowel replaced by "ы"; or the final vowel dropped.
pub open spec fn preverb_form(base: Seq<char>, form: PreverbSoundForm) -> Seq<char> {
    match form {
        PreverbSoundForm::Full => base,
        PreverbSoundForm::Reduced => base.drop_last() + "ы"@,
        PreverbSoundForm::BeforeVowel => base.drop_last(),
    }
}

/// Whether a preverb `base` has the given sound form.
pub open spec fn has_form(base: Seq<char>, form: PreverbSoundForm) -> bool {
    form is Full || ends_in_reducible_vowel(base)
}

impl Preverb {
    pub fn new(base: &String) -> (res: Self)
        ensures
            res@ == base@,
    {
        Preverb { base: base.clone() }
    }

    /// A copy of this preverb.
    pub(crate) fn duplicate(&self) -> (res: Self)
        ensures
            res@ == self@,
    {
        Preverb { base: self.base.clone() }
    }

    /// The written form of the preverb.
    pub(crate) fn base_string(&self) -> (res: String)
        ensures
            res@ == self@,
    {
        self.base.clone()
    }

    pub fn get_form(&self, form: &PreverbSoundForm) -> (res: String)
        requires
            has_form(self@, *form),
        ensures
            res@ == preverb_form(self@, *form),
    {
        match form {
            PreverbSoundForm::Full => self.base.clone(),
            PreverbSoundForm::Reduced => self.reduced(),
            PreverbSoundForm::BeforeVowel => self.before_vowel(),
        }
    }

    fn before_vowel(&self) -> (res: String)
        requires
            ends_in_reducible_vowel(self@),
        ensures
            res@ == self@.drop_last(),
    {
        let n = self.base.as_str().unicode_len();
        self.base.as_str().substring_char(0, n - 1).to_owned()
    }

    fn reduced(&self) -> (res: String)
        requires
            ends_in_reducible_vowel(self@),
        ensures
            res@ == self@.drop_last() + "ы"@,
    {
        let n = self.base.as_str().unicode_len();
        let reduced = self.base.as_str().substring_char(0, n - 1).to_owned();
        reduced.concat("ы")
    }

    #[allow(dead_code)]
    fn get_string(&self, form: PreverbSoundForm) -> (res: String)
        requires
            ends_in_reducible_vowel(self@),
        ensures
            res@ == preverb_form(self@, form),
    {
        let n = self.base.as_str().unicode_len();
        let reduced = self.base.as_str().substring_char(0, n - 1).to_owned();
        if self.base.as_str().get_char(n - 1) == 'э' {
            // This handles the preverbs which end on 'э'
            match form {
                PreverbSoundForm::Full => self.base.clone(),
                PreverbSoundForm::Reduced => reduced.concat("ы"),
                PreverbSoundForm::BeforeVowel => reduced,
            }
        } else {
            // and this the preverbs which end on 'ы'
            match form {
                PreverbSoundForm::Full => self.base.clone(),
                PreverbSoundForm::Reduced => reduced.concat("ы"),
                PreverbSoundForm::BeforeVowel => reduced,
            }
        }
    }
}

} // verus!
