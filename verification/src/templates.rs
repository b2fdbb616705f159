//! The templates that lay out, in order, the morphemes of the verb forms:
//! the masdar, the imperatives, the indicative and the interrogative.

use vstd::prelude::*;

use std::collections::VecDeque;

use crate::grammar::{Case, Number, Person, Polarity, Tense};
use crate::morpheme::{Morpheme, MorphemeKind, SpecMorpheme};
use crate::person_marker::PersonMarker;
use crate::preverb::Preverb;

verus! {

/// The placeholder that the stem morpheme is written as.
pub open spec fn stem_root() -> Seq<char> {
    "{{{псалъэпкъ}}}"@
}

/// The morphemes of a sequence, as values.
pub open spec fn morphemes_view<S>(ms: Seq<Morpheme<S>>) -> Seq<SpecMorpheme<S>> {
    ms.map_values(|m: Morpheme<S>| m@)
}

/// The written form of an optional preverb.
pub open spec fn preverb_view(preverb: Option<Preverb>) -> Option<Seq<char>> {
    match preverb {
        Some(p) => Some(p@),
        None => None,
    }
}

/// `m` where `present` holds, nothing otherwise.
pub open spec fn optional<S>(present: bool, m: SpecMorpheme<S>) -> Seq<SpecMorpheme<S>> {
    if present {
        seq![m]
    } else {
        seq![]
    }
}

/// The preverb morpheme, where there is a preverb.
pub open spec fn preverb_part<S>(preverb: Option<Seq<char>>) -> Seq<SpecMorpheme<S>> {
    match preverb {
        Some(p) => seq![SpecMorpheme::Preverb(p)],
        None => seq![],
    }
}

/// The negation prefix of a negative form.
pub open spec fn negation_part<S>(polarity: Polarity) -> Seq<SpecMorpheme<S>> {
    optional(polarity == Polarity::Negative, SpecMorpheme::NegationPrefix)
}

/// The person marker of the given person and number in the given case.
pub open spec fn marker_of<S>(person: Person, number: Number, case: Case) -> SpecMorpheme<S> {
    SpecMorpheme::PersonMarker(PersonMarker { person, number, case })
}

/// The ergative marker of the ergative argument, where there is one.
pub open spec fn ergative_part<S>(erg_marker: Option<PersonMarker>) -> Seq<SpecMorpheme<S>> {
    match erg_marker {
        Some(m) => seq![marker_of(m.person, m.number, Case::Ergative)],
        None => seq![],
    }
}

/// The absolutive marker of the absolutive argument; the third person has none.
pub open spec fn absolutive_part<S>(abs_marker: PersonMarker) -> Seq<SpecMorpheme<S>> {
    optional(
        abs_marker.person != Person::Third,
        marker_of(abs_marker.person, abs_marker.number, Case::Absolutive),
    )
}

/// The stem morpheme.
pub open spec fn stem_part<S>(stem: S) -> Seq<SpecMorpheme<S>> {
    seq![SpecMorpheme::Stem(stem, stem_root())]
}

/// Masdar: [preverb] [negation] stem "н".
pub open spec fn masdar<S>(polarity: Polarity, preverb: Option<Seq<char>>, stem: S) -> Seq<
    SpecMorpheme<S>,
> {
    preverb_part(preverb) + negation_part(polarity) + stem_part(stem) + seq![
        SpecMorpheme::Generic("н"@),
    ]
}

/// The number of the marker of the "рей" imperative: the third person plural
/// takes the singular marker.
pub open spec fn raj_marker_number(person: Person, number: Number) -> Number {
    if person == Person::Third && number == Number::Plural {
        Number::Singular
    } else {
        number
    }
}

/// Imperative with "ре": [ergative marker] [preverb] "ре" [negation] stem. Where
/// there is a preverb, the third person has no marker.
pub open spec fn imperative_raj<S>(
    polarity: Polarity,
    preverb: Option<Seq<char>>,
    stem: S,
    person: Person,
    number: Number,
) -> Seq<SpecMorpheme<S>> {
    optional(
        !(preverb is Some && person == Person::Third),
        marker_of(person, raj_marker_number(person, number), Case::Ergative),
    ) + preverb_part(preverb) + seq![SpecMorpheme::RajImperative] + negation_part(polarity)
        + stem_part(stem)
}

/// Personal masdar: [absolutive marker] [preverb] [ergative marker] [negation] stem "н".
pub open spec fn masdar_personal<S>(
    polarity: Polarity,
    preverb: Option<Seq<char>>,
    stem: S,
    abs_marker: PersonMarker,
    erg_marker: Option<PersonMarker>,
) -> Seq<SpecMorpheme<S>> {
    absolutive_part(abs_marker) + preverb_part(preverb) + ergative_part(erg_marker)
        + negation_part(polarity) + stem_part(stem) + seq![SpecMorpheme::Generic("н"@)]
}

/// The second person ergative marker of an imperative, where there is one: the
/// negative imperative of the second person singular has none.
pub open spec fn imperative_ergative_part<S>(
    polarity: Polarity,
    erg_marker: Option<PersonMarker>,
) -> Seq<SpecMorpheme<S>> {
    match erg_marker {
        Some(m) => optional(
            !(polarity == Polarity::Negative && m.person == Person::Second && m.number
                == Number::Singular),
            marker_of(Person::Second, m.number, Case::Ergative),
        ),
        None => seq![],
    }
}

/// Imperative: [second person absolutive marker] [preverb] [second person
/// ergative marker] [negation] stem.
pub open spec fn imperative<S>(
    polarity: Polarity,
    preverb: Option<Seq<char>>,
    stem: S,
    abs_marker: PersonMarker,
    erg_marker: Option<PersonMarker>,
) -> Seq<SpecMorpheme<S>> {
    optional(
        abs_marker.person != Person::Third,
        marker_of(Person::Second, abs_marker.number, Case::Absolutive),
    ) + preverb_part(preverb) + imperative_ergative_part(polarity, erg_marker) + negation_part(
        polarity,
    ) + stem_part(stem)
}

/// The tense suffix of the indicative, positive and negative.
pub open spec fn indicative_suffixes(tense: Tense) -> (Seq<char>, Seq<char>) {
    match tense {
        Tense::Present => ("р"@, "ркъым"@),
        Tense::Imperfect => ("рт"@, "ртэкъым"@),
        Tense::Perfect => ("ащ"@, "акъым"@),
        Tense::PlusQuamPerfect => ("ат"@, "атэкъым"@),
        Tense::FarPast1 => ("гъащ"@, "гъакъым"@),
        Tense::FastPast2 => ("гъат"@, "гъатэкъым"@),
        Tense::Aorist1 => ("щ"@, "къым"@),
        Tense::Aorist2 => ("т"@, "тэкъым"@),
        Tense::Future1 => ("нщ"@, "нкъым"@),
        Tense::Future2 => ("ну"@, "нукъым"@),
    }
}

/// The tense suffix of the indicative in the given polarity.
pub open spec fn indicative_suffix(polarity: Polarity, tense: Tense) -> Seq<char> {
    if polarity == Polarity::Positive {
        indicative_suffixes(tense).0
    } else {
        indicative_suffixes(tense).1
    }
}

/// Indicative: [absolutive marker] [preverb] [ergative marker] ["о"] stem suffix,
/// where "о" marks the positive present.
pub open spec fn indicative<S>(
    polarity: Polarity,
    tense: Tense,
    preverb: Option<Seq<char>>,
    stem: S,
    abs_marker: PersonMarker,
    erg_marker: Option<PersonMarker>,
) -> Seq<SpecMorpheme<S>> {
    absolutive_part(abs_marker) + preverb_part(preverb) + ergative_part(erg_marker) + optional(
        polarity == Polarity::Positive && tense == Tense::Present,
        SpecMorpheme::Generic("о"@),
    ) + stem_part(stem) + seq![SpecMorpheme::Generic(indicative_suffix(polarity, tense))]
}

/// The tense suffix of the interrogative, positive and negative.
pub open spec fn interrogative_suffixes(tense: Tense) -> (Seq<char>, Seq<char>) {
    match tense {
        Tense::Present => ("рэ"@, "ркъэ"@),
        Tense::Imperfect => ("рт"@, "ртэкъым"@),
        Tense::Perfect => ("ащ"@, "акъэ"@),
        Tense::PlusQuamPerfect => ("ат"@, "атэкъэ"@),
        Tense::FarPast1 => ("гъащ"@, "гъакъэ"@),
        Tense::FastPast2 => ("гъат"@, "гъатэкъэ"@),
        Tense::Aorist1 => (""@, "къэ"@),
        Tense::Aorist2 => ("т"@, "тэкъэ"@),
        Tense::Future1 => ("нщ"@, "нкъэ"@),
        Tense::Future2 => ("ну"@, "нукъэ"@),
    }
}

/// Interrogative: [absolutive marker] [preverb] [ergative marker] stem [suffix],
/// where only a positive form with a nonempty suffix has a suffix.
pub open spec fn interrogative<S>(
    polarity: Polarity,
    tense: Tense,
    preverb: Option<Seq<char>>,
    stem: S,
    abs_marker: PersonMarker,
    erg_marker: Option<PersonMarker>,
) -> Seq<SpecMorpheme<S>> {
    absolutive_part(abs_marker) + preverb_part(preverb) + ergative_part(erg_marker) + stem_part(
        stem,
    ) + optional(
        interrogative_suffixes(tense).0.len() != 0 && polarity == Polarity::Positive,
        SpecMorpheme::Generic(interrogative_suffixes(tense).0),
    )
}

/// The stem morpheme of a template.
fn stem_morpheme<S: Clone>(stem: &S) -> (res: Morpheme<S>)
    ensures
        res@ is Stem,
        cloned(*stem, res@->Stem_0),
        res@->Stem_1 == stem_root(),
{
    let root = "{{{псалъэпкъ}}}".to_owned();
    Morpheme { kind: MorphemeKind::Stem(stem.clone(), root) }
}

pub fn new_masdar<S: Clone>(polarity: &Polarity, preverb: &Option<Preverb>, stem: &S) -> (res:
    VecDeque<Morpheme<S>>)
    ensures
        exists|s: S|
            cloned(*stem, s) && morphemes_view(res@) == #[trigger] masdar(
                *polarity,
                preverb_view(*preverb),
                s,
            ),
{
    let mut morphemes: VecDeque<Morpheme<S>> = VecDeque::new();
    let stem_m = stem_morpheme(stem);
    let ghost s = stem_m@->Stem_0;
    morphemes.push_back(stem_m);
    morphemes.push_back(Morpheme::new_generic("н"));

    // Prefix part

    if *polarity == Polarity::Negative {
        let m = Morpheme::new_negative_prefix();
        morphemes.push_front(m);
    }
    if let Some(preverb) = preverb {
        let m = Morpheme::new_preverb(preverb);
        morphemes.push_front(m);
    }
    assert(morphemes_view(morphemes@) =~= masdar(*polarity, preverb_view(*preverb), s));
    morphemes
}


pub fn new_imperative_raj<S: Clone>(
    polarity: &Polarity,
    preverb: &Option<Preverb>,
    stem: &S,
    person: &Person,
    number: &Number,
) -> (res: VecDeque<Morpheme<S>>)
    ensures
        exists|s: S|
            cloned(*stem, s) && morphemes_view(res@) == #[trigger] imperative_raj(
                *polarity,
                preverb_view(*preverb),
                s,
                *person,
                *number,
            ),
{
    let mut morphemes: VecDeque<Morpheme<S>> = VecDeque::new();
    // Add stem
    let stem_m = stem_morpheme(stem);
    let ghost s = stem_m@->Stem_0;
    morphemes.push_back(stem_m);

    // Prefix part

    // Add negative prefix
    if *polarity == Polarity::Negative {
        let m = Morpheme::new_negative_prefix();
        morphemes.push_front(m);
    }
    // Add imperative raj
    morphemes.push_front(Morpheme::new_imperative_raj());
    // Add preverb
    if let Some(preverb) = preverb {
        let m = Morpheme::new_preverb(preverb);
        morphemes.push_front(m);
    }
    // Add person marker
    // If there is a preverb present, the third person marker is not present
    if !(preverb.is_some() && *person == Person::Third) {
        let number = if *person == Person::Third && *number == Number::Plural {
            Number::Singular
        } else {
            *number
        };
        let marker = PersonMarker::new(*person, number, Case::Ergative);
        let m = Morpheme::new_person_marker(&marker);
        morphemes.push_front(m);
    }
    assert(morphemes_view(morphemes@) =~= imperative_raj(
        *polarity,
        preverb_view(*preverb),
        s,
        *person,
        *number,
    ));
    morphemes
}

pub fn new_masdar_personal<S: Clone>(
    polarity: &Polarity,
    preverb: &Option<Preverb>,
    stem: &S,
    abs_marker: &PersonMarker,
    erg_marker: &Option<PersonMarker>,
) -> (res: VecDeque<Morpheme<S>>)
    requires
        abs_marker.case == Case::Absolutive,
    ensures
        exists|s: S|
            cloned(*stem, s) && morphemes_view(res@) == #[trigger] masdar_personal(
                *polarity,
                preverb_view(*preverb),
                s,
                *abs_marker,
                *erg_marker,
            ),
{
    let mut morphemes: VecDeque<Morpheme<S>> = VecDeque::new();
    let stem_m = stem_morpheme(stem);
    let ghost s = stem_m@->Stem_0;
    morphemes.push_back(stem_m);

    // Suffix part
    morphemes.push_back(Morpheme::new_generic("н"));

    // Prefix part

    // Add negative prefix
    if *polarity == Polarity::Negative {
        let m = Morpheme::new_negative_prefix();
        morphemes.push_front(m);
    }
    // Add ergative person marker
    if let Some(marker) = erg_marker {
        let marker = PersonMarker::new(marker.person, marker.number, Case::Ergative);
        let m = Morpheme::new_person_marker(&marker);
        morphemes.push_front(m);
    }
    // Add preverb
    if let Some(preverb) = preverb {
        let m = Morpheme::new_preverb(preverb);
        morphemes.push_front(m);
    }
    // Add absolutive person marker
    if Person::Third != abs_marker.person {
        let marker = PersonMarker::new(abs_marker.person, abs_marker.number, Case::Absolutive);
        let m = Morpheme::new_person_marker(&marker);
        morphemes.push_front(m);
    }
    assert(morphemes_view(morphemes@) =~= masdar_personal(
        *polarity,
        preverb_view(*preverb),
        s,
        *abs_marker,
        *erg_marker,
    ));
    morphemes
}

pub fn new_imperative<S: Clone>(
    polarity: &Polarity,
    preverb: &Option<Preverb>,
    stem: &S,
    abs_marker: &PersonMarker,
    erg_marker: &Option<PersonMarker>,
) -> (res: VecDeque<Morpheme<S>>)
    ensures
        exists|s: S|
            cloned(*stem, s) && morphemes_view(res@) == #[trigger] imperative(
                *polarity,
                preverb_view(*preverb),
                s,
                *abs_marker,
                *erg_marker,
            ),
{
    let mut morphemes: VecDeque<Morpheme<S>> = VecDeque::new();
    let stem_m = stem_morpheme(stem);
    let ghost s = stem_m@->Stem_0;
    morphemes.push_back(stem_m);

    // Prefix part

    // Add negative prefix
    if *polarity == Polarity::Negative {
        let m = Morpheme::new_negative_prefix();
        morphemes.push_front(m);
    }
    // Add ergative person marker
    if let Some(marker) = erg_marker {
        if !(*polarity == Polarity::Negative && marker.person == Person::Second && marker.number
            == Number::Singular) {
            let marker = PersonMarker::new(Person::Second, marker.number, Case::Ergative);
            let m = Morpheme::new_person_marker(&marker);
            morphemes.push_front(m);
        }
    }
    // Add preverb
    if let Some(preverb) = preverb {
        let m = Morpheme::new_preverb(preverb);
        morphemes.push_front(m);
    }
    // Add absolutive person marker
    if Person::Third != abs_marker.person {
        let marker = PersonMarker::new(Person::Second, abs_marker.number, Case::Absolutive);
        let m = Morpheme::new_person_marker(&marker);
        morphemes.push_front(m);
    }
    assert(morphemes_view(morphemes@) =~= imperative(
        *polarity,
        preverb_view(*preverb),
        s,
        *abs_marker,
        *erg_marker,
    ));
    morphemes
}

/// The positive and negative tense suffixes of the indicative.
fn indicative_suffix_pair(tense: &Tense) -> (res: (&'static str, &'static str))
    ensures
        res.0@ == indicative_suffixes(*tense).0,
        res.1@ == indicative_suffixes(*tense).1,
{
    match tense {
        Tense::Present => ("р", "ркъым"),
        Tense::Imperfect => ("рт", "ртэкъым"),
        Tense::Perfect => ("ащ", "акъым"),
        Tense::PlusQuamPerfect => ("ат", "атэкъым"),
        Tense::FarPast1 => ("гъащ", "гъакъым"),
        Tense::FastPast2 => ("гъат", "гъатэкъым"),
        Tense::Aorist1 => ("щ", "къым"),
        Tense::Aorist2 => ("т", "тэкъым"),
        Tense::Future1 => ("нщ", "нкъым"),
        Tense::Future2 => ("ну", "нукъым"),
    }
}

/// The positive and negative tense suffixes of the interrogative.
fn interrogative_suffix_pair(tense: &Tense) -> (res: (&'static str, &'static str))
    ensures
        res.0@ == interrogative_suffixes(*tense).0,
        res.1@ == interrogative_suffixes(*tense).1,
{
    match tense {
        Tense::Present => ("рэ", "ркъэ"),
        Tense::Imperfect => ("рт", "ртэкъым"),
        Tense::Perfect => ("ащ", "акъэ"),
        Tense::PlusQuamPerfect => ("ат", "атэкъэ"),
        Tense::FarPast1 => ("гъащ", "гъакъэ"),
        Tense::FastPast2 => ("гъат", "гъатэкъэ"),
        Tense::Aorist1 => ("", "къэ"),
        Tense::Aorist2 => ("т", "тэкъэ"),
        Tense::Future1 => ("нщ", "нкъэ"),
        Tense::Future2 => ("ну", "нукъэ"),
    }
}

pub fn new_indicative<S: Clone>(
    polarity: &Polarity,
    tense: &Tense,
    preverb: &Option<Preverb>,
    stem: &S,
    abs_marker: &PersonMarker,
    erg_marker: &Option<PersonMarker>,
) -> (res: VecDeque<Morpheme<S>>)
    ensures
        exists|s: S|
            cloned(*stem, s) && morphemes_view(res@) == #[trigger] indicative(
                *polarity,
                *tense,
                preverb_view(*preverb),
                s,
                *abs_marker,
                *erg_marker,
            ),
{
    let mut morphemes: VecDeque<Morpheme<S>> = VecDeque::new();
    let tense_suffix_pair = indicative_suffix_pair(tense);
    let stem_m = stem_morpheme(stem);
    let ghost s = stem_m@->Stem_0;
    morphemes.push_back(stem_m);
    morphemes.push_back(
        Morpheme::new_generic(
            if *polarity == Polarity::Positive {
                tense_suffix_pair.0
            } else {
                tense_suffix_pair.1
            },
        ),
    );
    if *polarity == Polarity::Positive && *tense == Tense::Present {
        morphemes.push_front(Morpheme::new_generic("о"));
    }
    // Add ergative person marker
    if let Some(marker) = erg_marker {
        let marker = PersonMarker::new(marker.person, marker.number, Case::Ergative);
        let m = Morpheme::new_person_marker(&marker);
        morphemes.push_front(m);
    }
    // Add preverb
    if let Some(preverb) = preverb {
        let m = Morpheme::new_preverb(preverb);
        morphemes.push_front(m);
    }
    // Add absolutive person marker
    if Person::Third != abs_marker.person {
        let marker = PersonMarker::new(abs_marker.person, abs_marker.number, Case::Absolutive);
        let m = Morpheme::new_person_marker(&marker);
        morphemes.push_front(m);
    }
    assert(morphemes_view(morphemes@) =~= indicative(
        *polarity,
        *tense,
        preverb_view(*preverb),
        s,
        *abs_marker,
        *erg_marker,
    ));
    morphemes
}

pub fn new_interrogative<S: Clone>(
    polarity: &Polarity,
    tense: &Tense,
    preverb: &Option<Preverb>,
    stem: &S,
    abs_marker: &PersonMarker,
    erg_marker: &Option<PersonMarker>,
) -> (res: VecDeque<Morpheme<S>>)
    ensures
        exists|s: S|
            cloned(*stem, s) && morphemes_view(res@) == #[trigger] interrogative(
                *polarity,
                *tense,
                preverb_view(*preverb),
                s,
                *abs_marker,
                *erg_marker,
            ),
{
    let mut morphemes: VecDeque<Morpheme<S>> = VecDeque::new();
    let tense_suffix_pair = interrogative_suffix_pair(tense);
    let stem_m = stem_morpheme(stem);
    let ghost s = stem_m@->Stem_0;
    morphemes.push_back(stem_m);
    if !tense_suffix_pair.0.is_empty() && *polarity == Polarity::Positive {
        morphemes.push_back(
            Morpheme::new_generic(
                if *polarity == Polarity::Positive {
                    tense_suffix_pair.0
                } else {
                    tense_suffix_pair.1
                },
            ),
        );
    }
    // Add ergative person marker
    if let Some(marker) = erg_marker {
        let marker = PersonMarker::new(marker.person, marker.number, Case::Ergative);
        let m = Morpheme::new_person_marker(&marker);
        morphemes.push_front(m);
    }
    // Add preverb
    if let Some(preverb) = preverb {
        let m = Morpheme::new_preverb(preverb);
        morphemes.push_front(m);
    }
    // Add absolutive person marker
    if Person::Third != abs_marker.person {
        let marker = PersonMarker::new(abs_marker.person, abs_marker.number, Case::Absolutive);
        let m = Morpheme::new_person_marker(&marker);
        morphemes.push_front(m);
    }
    assert(morphemes_view(morphemes@) =~= interrogative(
        *polarity,
        *tense,
        preverb_view(*preverb),
        s,
        *abs_marker,
        *erg_marker,
    ));
    morphemes
}

} // verus!
