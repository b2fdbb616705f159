//! Morphemes: the pieces a verb form is assembled from.

use vstd::prelude::*;

use crate::person_marker::PersonMarker;
use crate::preverb::Preverb;

verus! {

/// The kind of a morpheme and what it is made of. `S` is the verb stem that a
/// stem morpheme stands for.
#[derive(Debug, Clone, PartialEq, Eq)]
pub enum MorphemeKind<S> {
    Preverb(Preverb),
    PersonMarker(PersonMarker),
    NegationPrefix,
    RajImperative,
    Stem(S, String),
    Generic(String),
}

/// A morpheme as a mathematical value: strings are taken by their letters.
pub enum SpecMorpheme<S> {
    Preverb(Seq<char>),
    PersonMarker(PersonMarker),
    NegationPrefix,
    RajImperative,
    Stem(S, Seq<char>),
    Generic(Seq<char>),
}

impl<S> View for MorphemeKind<S> {
    type V = SpecMorpheme<S>;

    open spec fn view(&self) -> SpecMorpheme<S> {
        match self {
            MorphemeKind::Preverb(p) => SpecMorpheme::Preverb(p@),
            MorphemeKind::PersonMarker(m) => SpecMorpheme::PersonMarker(*m),
            MorphemeKind::NegationPrefix => SpecMorpheme::NegationPrefix,
            MorphemeKind::RajImperative => SpecMorpheme::RajImperative,
            MorphemeKind::Stem(s, base) => SpecMorpheme::Stem(*s, base@),
            MorphemeKind::Generic(g) => SpecMorpheme::Generic(g@),
        }
    }
}

/// The written form of a morpheme.
pub open spec fn morpheme_text<S>(m: SpecMorpheme<S>) -> Seq<char> {
    match m {
        SpecMorpheme::Preverb(base) => base,
        SpecMorpheme::PersonMarker(marker) => marker.spec_base(),
        SpecMorpheme::NegationPrefix => "мы"@,
        SpecMorpheme::RajImperative => "ре"@,
        SpecMorpheme::Stem(_, base) => base,
        SpecMorpheme::Generic(generic) => generic,
    }
}

impl<S> MorphemeKind<S> {
    /// The written form of the morpheme.
    pub fn to_string(&self) -> (res: String)
        ensures
            res@ == morpheme_text(self@),
    {
        match self {
            MorphemeKind::Preverb(preverb) => preverb.base_string(),
            MorphemeKind::PersonMarker(person_marker) => person_marker.base_string(),
            MorphemeKind::NegationPrefix => String::from_str("мы"),
            MorphemeKind::RajImperative => String::from_str("ре"),
            MorphemeKind::Stem(_, base) => base.clone(),
            MorphemeKind::Generic(generic) => generic.clone(),
        }
    }
}

#[derive(Debug, Clone)]
pub struct Morpheme<S> {
    pub kind: MorphemeKind<S>,
}

impl<S> View for Morpheme<S> {
    type V = SpecMorpheme<S>;

    open spec fn view(&self) -> SpecMorpheme<S> {
        self.kind@
    }
}

impl<S> Morpheme<S> {
    /// The written form of the morpheme.
    pub fn to_string(&self) -> (res: String)
        ensures
            res@ == morpheme_text(self@),
    {
        self.kind.to_string()
    }

    pub fn new_generic(base: &str) -> (res: Self)
        ensures
            res@ == SpecMorpheme::<S>::Generic(base@),
    {
        Morpheme { kind: MorphemeKind::Generic(base.to_owned()) }
    }

    pub fn new_negative_prefix() -> (res: Self)
        ensures
            res@ == SpecMorpheme::<S>::NegationPrefix,
    {
        Morpheme { kind: MorphemeKind::NegationPrefix }
    }

    pub fn new_imperative_raj() -> (res: Self)
        ensures
            res@ == SpecMorpheme::<S>::RajImperative,
    {
        Morpheme { kind: MorphemeKind::RajImperative }
    }

    pub fn new_preverb(preverb: &Preverb) -> (res: Self)
        ensures
            res@ == SpecMorpheme::<S>::Preverb(preverb@),
    {
        Morpheme { kind: MorphemeKind::Preverb(preverb.duplicate()) }
    }

    pub fn new_person_marker(marker: &PersonMarker) -> (res: Self)
        ensures
            res@ == SpecMorpheme::<S>::PersonMarker(*marker),
    {
        Morpheme { kind: MorphemeKind::PersonMarker(*marker) }
    }
}

} // verus!
