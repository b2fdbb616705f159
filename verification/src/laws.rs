//! What holds of the library as a whole: of the lists of grammatical values,
//! the person markers and their sound variants, the preverb forms and the
//! morphemes that the templates lay out.

use vstd::prelude::*;

use crate::grammar::{
    Case,
    Number,
    Person,
    Polarity,
    PreverbSoundForm,
    Tense,
    Transitivity,
    all_numbers,
    all_persons,
    all_polarities,
    all_tenses,
    polarity_prefix,
    polarity_suffix,
    pronoun_forms,
};
use crate::morpheme::{SpecMorpheme, morpheme_text};
use crate::person_marker::{
    PersonMarker,
    after_consonant_initial,
    has_after_consonant_form,
    has_voiced_form,
    has_voiceless_form,
    lemma_marker_base_letters,
    marker_base,
    voiced_initial,
    voiceless_initial,
    with_initial,
};
use crate::preverb::{ends_in_reducible_vowel, has_form, preverb_form};
use crate::templates::{
    absolutive_part,
    ergative_part,
    imperative_ergative_part,
    interrogative_suffixes,
    marker_of,
    negation_part,
    optional,
    preverb_part,
    raj_marker_number,
    stem_part,
    imperative,
    imperative_raj,
    indicative,
    indicative_suffix,
    interrogative,
    masdar,
    masdar_personal,
    stem_root,
};

verus! {

/// Each tense, polarity, number and person is listed by `variants` exactly once.
pub proof fn lemma_variants_list_each_value_once()
    ensures
        forall|t: Tense| #[trigger] all_tenses().contains(t),
        all_tenses().no_duplicates(),
        forall|p: Polarity| #[trigger] all_polarities().contains(p),
        all_polarities().no_duplicates(),
        forall|n: Number| #[trigger] all_numbers().contains(n),
        all_numbers().no_duplicates(),
        forall|p: Person| #[trigger] all_persons().contains(p),
        all_persons().no_duplicates(),
{
    assert forall|t: Tense| #[trigger] all_tenses().contains(t) by {
        let i: int = match t {
            Tense::Present => 0,
            Tense::Imperfect => 1,
            Tense::Perfect => 2,
            Tense::PlusQuamPerfect => 3,
            Tense::FarPast1 => 4,
            Tense::FastPast2 => 5,
            Tense::Aorist1 => 6,
            Tense::Aorist2 => 7,
            Tense::Future1 => 8,
            Tense::Future2 => 9,
        };
        assert(all_tenses()[i] == t);
    }
    assert forall|p: Polarity| #[trigger] all_polarities().contains(p) by {
        let i: int = if p == Polarity::Positive { 0 } else { 1 };
        assert(all_polarities()[i] == p);
    }
    assert forall|n: Number| #[trigger] all_numbers().contains(n) by {
        let i: int = if n == Number::Singular { 0 } else { 1 };
        assert(all_numbers()[i] == n);
    }
    assert forall|p: Person| #[trigger] all_persons().contains(p) by {
        let i: int = match p {
            Person::First => 0,
            Person::Second => 1,
            Person::Third => 2,
        };
        assert(all_persons()[i] == p);
    }
}

/// The first and second person pronouns are the same whatever the
/// transitivity; the third person pronouns differ.
pub proof fn lemma_pronouns_differ_only_in_third_person()
    ensures
        forall|i: int|
            0 <= i < 6 && i != 2 && i != 5 ==> #[trigger] pronoun_forms(Transitivity::Transitive)[i]
                == pronoun_forms(Transitivity::Intransitive)[i],
        pronoun_forms(Transitivity::Transitive)[2] != pronoun_forms(Transitivity::Intransitive)[2],
        pronoun_forms(Transitivity::Transitive)[5] != pronoun_forms(Transitivity::Intransitive)[5],
{
    reveal_strlit("абы");
    reveal_strlit("ар");
    reveal_strlit("абыхэм");
    reveal_strlit("ахэр");
    assert("абы"@[1] != "ар"@[1]);
    assert("абыхэм"@.len() != "ахэр"@.len());
}

/// A person marker is written as nothing exactly when it is a third person
/// absolutive marker.
pub proof fn lemma_marker_empty_exactly_for_third_absolutive(marker: PersonMarker)
    ensures
        (marker.spec_base().len() == 0) <==> (marker.person == Person::Third && marker.case
            == Case::Absolutive),
{
    lemma_marker_base_letters(marker.person, marker.number, marker.case);
}

/// A marker has a voiced, a voiceless or an after-consonant form exactly where
/// it is written with an initial letter that has such a counterpart.
pub proof fn lemma_sound_form_domains(marker: PersonMarker)
    ensures
        has_voiced_form(marker) <==> (marker.spec_base().len() > 0 && voiced_initial(
            marker.spec_base()[0],
        ) is Some),
        has_voiceless_form(marker) <==> (marker.spec_base().len() > 0 && voiceless_initial(
            marker.spec_base()[0],
        ) is Some),
        has_after_consonant_form(marker) <==> (marker.spec_base().len() > 0
            && after_consonant_initial(marker.spec_base()[0]) is Some),
{
    lemma_marker_base_letters(marker.person, marker.number, marker.case);
}

/// In front of "о", the first person and the second person plural absolutive
/// markers take the form of the ergative marker of the same person and number.
pub proof fn lemma_before_o_is_ergative_form(person: Person, number: Number)
    requires
        person != Person::Third,
        !(person == Person::Second && number == Number::Singular),
    ensures
        (PersonMarker { person, number, case: Case::Absolutive }).spec_base_before_o()
            == marker_base(person, number, Case::Ergative),
{
    lemma_marker_base_letters(person, number, Case::Absolutive);
    lemma_marker_base_letters(person, number, Case::Ergative);
}

/// The sound forms of a preverb differ only in its final vowel: the reduced
/// form ends in "ы" in its place, the full form in the vowel itself, and the
/// form before a vowel has none.
pub proof fn lemma_preverb_forms_share_all_but_final_vowel(base: Seq<char>)
    requires
        ends_in_reducible_vowel(base),
    ensures
        preverb_form(base, PreverbSoundForm::Reduced) == preverb_form(
            base,
            PreverbSoundForm::BeforeVowel,
        ).push('ы'),
        preverb_form(base, PreverbSoundForm::Full) == preverb_form(
            base,
            PreverbSoundForm::BeforeVowel,
        ).push(base.last()),
        preverb_form(base, PreverbSoundForm::Reduced).len() == base.len(),
        preverb_form(base, PreverbSoundForm::Reduced).last() == 'ы',
        base.last() == 'ы' ==> preverb_form(base, PreverbSoundForm::Reduced) == base,
        forall|form: PreverbSoundForm| has_form(base, form),
{
    reveal_strlit("ы");
    assert(base.drop_last() + "ы"@ =~= base.drop_last().push('ы'));
    assert(base =~= base.drop_last().push(base.last()));
}

/// The negation prefix is written as the prefix of the negative polarity, and
/// the positive polarity has neither prefix nor suffix.
pub proof fn lemma_polarity_affixes<S>()
    ensures
        morpheme_text(SpecMorpheme::<S>::NegationPrefix) == polarity_prefix(Polarity::Negative),
        polarity_prefix(Polarity::Positive).len() == 0,
        polarity_suffix(Polarity::Positive).len() == 0,
{
    reveal_strlit("");
}

/// Every negative tense suffix of the indicative ends in the negative
/// polarity suffix.
pub proof fn lemma_negative_indicative_suffix_ends_in_negation(tense: Tense)
    ensures
        indicative_suffix(Polarity::Negative, tense).len() >= polarity_suffix(
            Polarity::Negative,
        ).len(),
        indicative_suffix(Polarity::Negative, tense).subrange(
            indicative_suffix(Polarity::Negative, tense).len() - polarity_suffix(
                Polarity::Negative,
            ).len(),
            indicative_suffix(Polarity::Negative, tense).len() as int,
        ) == polarity_suffix(Polarity::Negative),
{
    reveal_strlit("къым");
    reveal_strlit("ркъым");
    reveal_strlit("ртэкъым");
    reveal_strlit("акъым");
    reveal_strlit("атэкъым");
    reveal_strlit("гъакъым");
    reveal_strlit("гъатэкъым");
    reveal_strlit("тэкъым");
    reveal_strlit("нкъым");
    reveal_strlit("нукъым");
    let s = indicative_suffix(Polarity::Negative, tense);
    assert(s.subrange(s.len() - 4, s.len() as int) =~= "къым"@);
}


/// No morpheme of `ms` is a stem.
pub open spec fn has_no_stem<S>(ms: Seq<SpecMorpheme<S>>) -> bool {
    forall|i: int| 0 <= i < ms.len() ==> !(#[trigger] ms[i] is Stem)
}

/// Exactly one morpheme of `ms` is a stem, and it is `stem` written as the
/// stem placeholder.
pub open spec fn carries_single_stem<S>(ms: Seq<SpecMorpheme<S>>, stem: S) -> bool {
    exists|i: int|
        0 <= i < ms.len() && #[trigger] ms[i] == SpecMorpheme::Stem(stem, stem_root()) && forall|
            j: int,
        |
            0 <= j < ms.len() && j != i ==> !(#[trigger] ms[j] is Stem)
}

proof fn lemma_single_stem_between<S>(
    before: Seq<SpecMorpheme<S>>,
    after: Seq<SpecMorpheme<S>>,
    stem: S,
)
    requires
        has_no_stem(before),
        has_no_stem(after),
    ensures
        carries_single_stem(before + stem_part(stem) + after, stem),
{
    let ms = before + stem_part(stem) + after;
    let i = before.len() as int;
    assert(ms[i] == SpecMorpheme::Stem(stem, stem_root()));
    assert forall|j: int| 0 <= j < ms.len() && j != i implies !(#[trigger] ms[j] is Stem) by {
        if j < i {
            assert(ms[j] == before[j]);
        } else {
            assert(ms[j] == after[j - i - 1]);
        }
    }
}

proof fn lemma_no_stem_concat<S>(a: Seq<SpecMorpheme<S>>, b: Seq<SpecMorpheme<S>>)
    requires
        has_no_stem(a),
        has_no_stem(b),
    ensures
        has_no_stem(a + b),
{
    assert forall|i: int| 0 <= i < (a + b).len() implies !(#[trigger] (a + b)[i] is Stem) by {
        if i < a.len() {
            assert((a + b)[i] == a[i]);
        } else {
            assert((a + b)[i] == b[i - a.len()]);
        }
    }
}

/// The parts around the stem hold no stem.
proof fn lemma_parts_have_no_stem<S>(
    polarity: Polarity,
    tense: Tense,
    preverb: Option<Seq<char>>,
    abs_marker: PersonMarker,
    erg_marker: Option<PersonMarker>,
    present: bool,
    m: SpecMorpheme<S>,
)
    requires
        !(m is Stem),
    ensures
        has_no_stem(preverb_part::<S>(preverb)),
        has_no_stem(negation_part::<S>(polarity)),
        has_no_stem(ergative_part::<S>(erg_marker)),
        has_no_stem(absolutive_part::<S>(abs_marker)),
        has_no_stem(imperative_ergative_part::<S>(polarity, erg_marker)),
        has_no_stem(optional::<S>(present, m)),
        has_no_stem(seq![m]),
{
}

/// Every verb form that a template lays out holds exactly one stem, the one
/// it was given.
pub proof fn lemma_templates_carry_single_stem<S>(
    polarity: Polarity,
    tense: Tense,
    preverb: Option<Seq<char>>,
    stem: S,
    person: Person,
    number: Number,
    abs_marker: PersonMarker,
    erg_marker: Option<PersonMarker>,
)
    ensures
        carries_single_stem(masdar(polarity, preverb, stem), stem),
        carries_single_stem(imperative_raj(polarity, preverb, stem, person, number), stem),
        carries_single_stem(masdar_personal(polarity, preverb, stem, abs_marker, erg_marker), stem),
        carries_single_stem(imperative(polarity, preverb, stem, abs_marker, erg_marker), stem),
        carries_single_stem(indicative(polarity, tense, preverb, stem, abs_marker, erg_marker), stem),
        carries_single_stem(
            interrogative(polarity, tense, preverb, stem, abs_marker, erg_marker),
            stem,
        ),
{
    let g = SpecMorpheme::<S>::Generic("н"@);
    lemma_parts_have_no_stem(polarity, tense, preverb, abs_marker, erg_marker, true, g);
    let pp = preverb_part::<S>(preverb);
    let neg = negation_part::<S>(polarity);
    let erg = ergative_part::<S>(erg_marker);
    let abs = absolutive_part::<S>(abs_marker);
    assert(carries_single_stem(masdar(polarity, preverb, stem), stem)) by {
        lemma_no_stem_concat(pp, neg);
        lemma_single_stem_between(pp + neg, seq![g], stem);
    }
    assert(carries_single_stem(imperative_raj(polarity, preverb, stem, person, number), stem)) by {
        let mk = optional::<S>(
            !(preverb is Some && person == Person::Third),
            marker_of(person, raj_marker_number(person, number), Case::Ergative),
        );
        let raj = seq![SpecMorpheme::<S>::RajImperative];
        lemma_parts_have_no_stem(
            polarity,
            tense,
            preverb,
            abs_marker,
            erg_marker,
            !(preverb is Some && person == Person::Third),
            marker_of::<S>(person, raj_marker_number(person, number), Case::Ergative),
        );
        lemma_parts_have_no_stem(
            polarity,
            tense,
            preverb,
            abs_marker,
            erg_marker,
            true,
            SpecMorpheme::<S>::RajImperative,
        );
        lemma_no_stem_concat(mk, pp);
        lemma_no_stem_concat(mk + pp, raj);
        lemma_no_stem_concat(mk + pp + raj, neg);
        lemma_single_stem_between(mk + pp + raj + neg, seq![], stem);
        assert(imperative_raj(polarity, preverb, stem, person, number) =~= mk + pp + raj + neg
            + stem_part(stem) + seq![]);
    }
    assert(carries_single_stem(
        masdar_personal(polarity, preverb, stem, abs_marker, erg_marker),
        stem,
    )) by {
        lemma_no_stem_concat(abs, pp);
        lemma_no_stem_concat(abs + pp, erg);
        lemma_no_stem_concat(abs + pp + erg, neg);
        lemma_single_stem_between(abs + pp + erg + neg, seq![g], stem);
    }
    assert(carries_single_stem(imperative(polarity, preverb, stem, abs_marker, erg_marker), stem))
        by {
        let a2 = optional::<S>(
            abs_marker.person != Person::Third,
            marker_of(Person::Second, abs_marker.number, Case::Absolutive),
        );
        let e2 = imperative_ergative_part::<S>(polarity, erg_marker);
        lemma_parts_have_no_stem(
            polarity,
            tense,
            preverb,
            abs_marker,
            erg_marker,
            abs_marker.person != Person::Third,
            marker_of::<S>(Person::Second, abs_marker.number, Case::Absolutive),
        );
        lemma_no_stem_concat(a2, pp);
        lemma_no_stem_concat(a2 + pp, e2);
        lemma_no_stem_concat(a2 + pp + e2, neg);
        lemma_single_stem_between(a2 + pp + e2 + neg, seq![], stem);
        assert(imperative(polarity, preverb, stem, abs_marker, erg_marker) =~= a2 + pp + e2 + neg
            + stem_part(stem) + seq![]);
    }
    assert(carries_single_stem(
        indicative(polarity, tense, preverb, stem, abs_marker, erg_marker),
        stem,
    )) by {
        let o = optional::<S>(
            polarity == Polarity::Positive && tense == Tense::Present,
            SpecMorpheme::Generic("о"@),
        );
        let suffix = SpecMorpheme::<S>::Generic(indicative_suffix(polarity, tense));
        lemma_parts_have_no_stem(
            polarity,
            tense,
            preverb,
            abs_marker,
            erg_marker,
            polarity == Polarity::Positive && tense == Tense::Present,
            SpecMorpheme::<S>::Generic("о"@),
        );
        lemma_parts_have_no_stem(polarity, tense, preverb, abs_marker, erg_marker, true, suffix);
        lemma_no_stem_concat(abs, pp);
        lemma_no_stem_concat(abs + pp, erg);
        lemma_no_stem_concat(abs + pp + erg, o);
        lemma_single_stem_between(abs + pp + erg + o, seq![suffix], stem);
    }
    assert(carries_single_stem(
        interrogative(polarity, tense, preverb, stem, abs_marker, erg_marker),
        stem,
    )) by {
        let present = interrogative_suffixes(tense).0.len() != 0 && polarity == Polarity::Positive;
        let suffix = SpecMorpheme::<S>::Generic(interrogative_suffixes(tense).0);
        lemma_parts_have_no_stem(polarity, tense, preverb, abs_marker, erg_marker, present, suffix);
        lemma_no_stem_concat(abs, pp);
        lemma_no_stem_concat(abs + pp, erg);
        lemma_single_stem_between(abs + pp + erg, optional(present, suffix), stem);
    }
}


/// No morpheme of `ms` is the negation prefix.
pub open spec fn has_no_negation<S>(ms: Seq<SpecMorpheme<S>>) -> bool {
    forall|i: int| 0 <= i < ms.len() ==> !(#[trigger] ms[i] is NegationPrefix)
}

/// Every person marker among `ms` is written with at least one letter.
pub open spec fn markers_written<S>(ms: Seq<SpecMorpheme<S>>) -> bool {
    forall|i: int|
        0 <= i < ms.len() && #[trigger] ms[i] is PersonMarker ==> (ms[i]->PersonMarker_0).spec_base().len() > 0
}

/// No morpheme of `ms` is a person marker.
pub open spec fn has_no_marker<S>(ms: Seq<SpecMorpheme<S>>) -> bool {
    forall|i: int| 0 <= i < ms.len() ==> !(#[trigger] ms[i] is PersonMarker)
}

proof fn lemma_index_concat<S>(a: Seq<SpecMorpheme<S>>, b: Seq<SpecMorpheme<S>>)
    ensures
        forall|i: int|
            0 <= i < (a + b).len() ==> #[trigger] (a + b)[i] == (if i < a.len() {
                a[i]
            } else {
                b[i - a.len()]
            }),
{
}

broadcast proof fn lemma_concat_no_negation<S>(a: Seq<SpecMorpheme<S>>, b: Seq<SpecMorpheme<S>>)
    requires
        has_no_negation(a),
        has_no_negation(b),
    ensures
        #[trigger] has_no_negation(a + b),
{
    lemma_index_concat(a, b);
}

broadcast proof fn lemma_concat_markers_written<S>(
    a: Seq<SpecMorpheme<S>>,
    b: Seq<SpecMorpheme<S>>,
)
    requires
        markers_written(a),
        markers_written(b),
    ensures
        #[trigger] markers_written(a + b),
{
    lemma_index_concat(a, b);
}

broadcast proof fn lemma_concat_no_marker<S>(a: Seq<SpecMorpheme<S>>, b: Seq<SpecMorpheme<S>>)
    requires
        has_no_marker(a),
        has_no_marker(b),
    ensures
        #[trigger] has_no_marker(a + b),
{
    lemma_index_concat(a, b);
}

/// Every marker that a template can place, an ergative one or a first or
/// second person absolutive one, is written with at least one letter.
proof fn lemma_placed_markers_written(person: Person, number: Number, case: Case)
    requires
        case == Case::Ergative || person != Person::Third,
    ensures
        marker_base(person, number, case).len() > 0,
{
    lemma_marker_base_letters(person, number, case);
}

/// The masdar and the imperatives hold the negation prefix exactly when they
/// are negative; the indicative and the interrogative never hold it.
pub proof fn lemma_negation_prefix_marks_negative<S>(
    polarity: Polarity,
    tense: Tense,
    preverb: Option<Seq<char>>,
    stem: S,
    person: Person,
    number: Number,
    abs_marker: PersonMarker,
    erg_marker: Option<PersonMarker>,
)
    ensures
        masdar(polarity, preverb, stem).contains(SpecMorpheme::NegationPrefix) <==> polarity
            == Polarity::Negative,
        imperative_raj(polarity, preverb, stem, person, number).contains(
            SpecMorpheme::NegationPrefix,
        ) <==> polarity == Polarity::Negative,
        masdar_personal(polarity, preverb, stem, abs_marker, erg_marker).contains(
            SpecMorpheme::NegationPrefix,
        ) <==> polarity == Polarity::Negative,
        imperative(polarity, preverb, stem, abs_marker, erg_marker).contains(
            SpecMorpheme::NegationPrefix,
        ) <==> polarity == Polarity::Negative,
        !indicative(polarity, tense, preverb, stem, abs_marker, erg_marker).contains(
            SpecMorpheme::NegationPrefix,
        ),
        !interrogative(polarity, tense, preverb, stem, abs_marker, erg_marker).contains(
            SpecMorpheme::NegationPrefix,
        ),
{
    broadcast use lemma_concat_no_negation;

    let n = SpecMorpheme::<S>::NegationPrefix;
    let pp = preverb_part::<S>(preverb);
    let erg = ergative_part::<S>(erg_marker);
    let abs = absolutive_part::<S>(abs_marker);
    assert(has_no_negation(pp));
    assert(has_no_negation(erg));
    assert(has_no_negation(abs));
    assert(has_no_negation(stem_part(stem)));
    assert(has_no_negation(seq![SpecMorpheme::<S>::Generic("н"@)]));
    assert(has_no_negation(imperative_ergative_part::<S>(polarity, erg_marker)));
    let mk = optional::<S>(
        !(preverb is Some && person == Person::Third),
        marker_of(person, raj_marker_number(person, number), Case::Ergative),
    );
    assert(has_no_negation(mk));
    let a2 = optional::<S>(
        abs_marker.person != Person::Third,
        marker_of(Person::Second, abs_marker.number, Case::Absolutive),
    );
    assert(has_no_negation(a2));
    let o = optional::<S>(
        polarity == Polarity::Positive && tense == Tense::Present,
        SpecMorpheme::Generic("о"@),
    );
    assert(has_no_negation(o));
    assert(has_no_negation(seq![SpecMorpheme::<S>::RajImperative]));
    assert(has_no_negation(seq![SpecMorpheme::<S>::Generic(indicative_suffix(polarity, tense))]));
    assert(has_no_negation(
        optional::<S>(
            interrogative_suffixes(tense).0.len() != 0 && polarity == Polarity::Positive,
            SpecMorpheme::Generic(interrogative_suffixes(tense).0),
        ),
    ));
    if polarity == Polarity::Negative {
        assert(masdar(polarity, preverb, stem)[pp.len() as int] == n);
        assert(imperative_raj(polarity, preverb, stem, person, number)[(mk.len() + pp.len() + 1) as int]
            == n);
        assert(masdar_personal(polarity, preverb, stem, abs_marker, erg_marker)[(abs.len()
            + pp.len() + erg.len()) as int] == n);
        assert(imperative(polarity, preverb, stem, abs_marker, erg_marker)[(a2.len() + pp.len()
            + imperative_ergative_part::<S>(polarity, erg_marker).len()) as int] == n);
    } else {
        assert(negation_part::<S>(polarity) =~= seq![]);
        assert(has_no_negation(masdar(polarity, preverb, stem)));
        assert(has_no_negation(imperative_raj(polarity, preverb, stem, person, number)));
        assert(has_no_negation(masdar_personal(polarity, preverb, stem, abs_marker, erg_marker)));
        assert(has_no_negation(imperative(polarity, preverb, stem, abs_marker, erg_marker)));
    }
    assert(has_no_negation(indicative(polarity, tense, preverb, stem, abs_marker, erg_marker)));
    assert(has_no_negation(interrogative(polarity, tense, preverb, stem, abs_marker, erg_marker)));
}


/// No verb form that a template lays out holds a person marker that is written
/// as nothing: the third person absolutive marker is always left out.
pub proof fn lemma_templates_leave_out_empty_markers<S>(
    polarity: Polarity,
    tense: Tense,
    preverb: Option<Seq<char>>,
    stem: S,
    person: Person,
    number: Number,
    abs_marker: PersonMarker,
    erg_marker: Option<PersonMarker>,
)
    ensures
        markers_written(masdar(polarity, preverb, stem)),
        markers_written(imperative_raj(polarity, preverb, stem, person, number)),
        markers_written(masdar_personal(polarity, preverb, stem, abs_marker, erg_marker)),
        markers_written(imperative(polarity, preverb, stem, abs_marker, erg_marker)),
        markers_written(indicative(polarity, tense, preverb, stem, abs_marker, erg_marker)),
        markers_written(interrogative(polarity, tense, preverb, stem, abs_marker, erg_marker)),
{
    broadcast use lemma_concat_markers_written;

    let pp = preverb_part::<S>(preverb);
    assert(markers_written(pp));
    assert(markers_written(negation_part::<S>(polarity)));
    assert(markers_written(stem_part(stem)));
    assert(markers_written(seq![SpecMorpheme::<S>::Generic("н"@)]));
    assert(markers_written(seq![SpecMorpheme::<S>::RajImperative]));
    assert(markers_written(seq![SpecMorpheme::<S>::Generic(indicative_suffix(polarity, tense))]));
    assert(markers_written(
        optional::<S>(
            polarity == Polarity::Positive && tense == Tense::Present,
            SpecMorpheme::Generic("о"@),
        ),
    ));
    assert(markers_written(
        optional::<S>(
            interrogative_suffixes(tense).0.len() != 0 && polarity == Polarity::Positive,
            SpecMorpheme::Generic(interrogative_suffixes(tense).0),
        ),
    ));
    if let Some(m) = erg_marker {
        lemma_placed_markers_written(m.person, m.number, Case::Ergative);
        lemma_placed_markers_written(Person::Second, m.number, Case::Ergative);
    }
    assert(markers_written(ergative_part::<S>(erg_marker)));
    assert(markers_written(imperative_ergative_part::<S>(polarity, erg_marker)));
    if abs_marker.person != Person::Third {
        lemma_placed_markers_written(abs_marker.person, abs_marker.number, Case::Absolutive);
        lemma_placed_markers_written(Person::Second, abs_marker.number, Case::Absolutive);
    }
    assert(markers_written(absolutive_part::<S>(abs_marker)));
    assert(markers_written(
        optional::<S>(
            abs_marker.person != Person::Third,
            marker_of(Person::Second, abs_marker.number, Case::Absolutive),
        ),
    ));
    lemma_placed_markers_written(person, raj_marker_number(person, number), Case::Ergative);
    assert(markers_written(
        optional::<S>(
            !(preverb is Some && person == Person::Third),
            marker_of(person, raj_marker_number(person, number), Case::Ergative),
        ),
    ));
}

/// The imperative with "ре" of the third person has no person marker where
/// there is a preverb, and its third person plural takes the singular marker.
pub proof fn lemma_raj_imperative_third_person<S>(
    polarity: Polarity,
    preverb: Option<Seq<char>>,
    stem: S,
    number: Number,
)
    ensures
        preverb is Some ==> has_no_marker(
            imperative_raj(polarity, preverb, stem, Person::Third, number),
        ),
        preverb is None ==> imperative_raj(polarity, preverb, stem, Person::Third, number)[0]
            == SpecMorpheme::<S>::PersonMarker(
            PersonMarker { person: Person::Third, number: Number::Singular, case: Case::Ergative },
        ),
{
    broadcast use lemma_concat_no_marker;

    if preverb is Some {
        let mk = optional::<S>(
            false,
            marker_of(Person::Third, raj_marker_number(Person::Third, number), Case::Ergative),
        );
        assert(has_no_marker(mk));
        assert(has_no_marker(preverb_part::<S>(preverb)));
        assert(has_no_marker(seq![SpecMorpheme::<S>::RajImperative]));
        assert(has_no_marker(negation_part::<S>(polarity)));
        assert(has_no_marker(stem_part(stem)));
    }
}


/// The marker of `m`'s person and number in the given case.
pub open spec fn with_case(m: PersonMarker, case: Case) -> PersonMarker {
    PersonMarker { person: m.person, number: m.number, case }
}

/// The optional marker `m`, where there is one, in the given case.
pub open spec fn optional_with_case(m: Option<PersonMarker>, case: Case) -> Option<PersonMarker> {
    match m {
        Some(m) => Some(with_case(m, case)),
        None => None,
    }
}

/// The indicative and the interrogative take only the person and number of
/// the markers they are given: the absolutive marker is written absolutive
/// and the ergative marker ergative, whatever case the given markers hold.
pub proof fn lemma_moods_ignore_given_marker_cases<S>(
    polarity: Polarity,
    tense: Tense,
    preverb: Option<Seq<char>>,
    stem: S,
    abs_marker: PersonMarker,
    erg_marker: Option<PersonMarker>,
    abs_case: Case,
    erg_case: Case,
)
    ensures
        indicative(polarity, tense, preverb, stem, abs_marker, erg_marker) == indicative(
            polarity,
            tense,
            preverb,
            stem,
            with_case(abs_marker, abs_case),
            optional_with_case(erg_marker, erg_case),
        ),
        interrogative(polarity, tense, preverb, stem, abs_marker, erg_marker) == interrogative(
            polarity,
            tense,
            preverb,
            stem,
            with_case(abs_marker, abs_case),
            optional_with_case(erg_marker, erg_case),
        ),
{
    assert(absolutive_part::<S>(abs_marker) == absolutive_part::<S>(
        with_case(abs_marker, abs_case),
    ));
    assert(ergative_part::<S>(erg_marker) == ergative_part::<S>(
        optional_with_case(erg_marker, erg_case),
    ));
}

/// With a third person absolutive marker and no ergative marker, the personal
/// masdar is the plain masdar.
pub proof fn lemma_impersonal_masdar_personal_is_masdar<S>(
    polarity: Polarity,
    preverb: Option<Seq<char>>,
    stem: S,
    abs_marker: PersonMarker,
)
    requires
        abs_marker.person == Person::Third,
    ensures
        masdar_personal(polarity, preverb, stem, abs_marker, None) == masdar(
            polarity,
            preverb,
            stem,
        ),
{
    assert(masdar_personal(polarity, preverb, stem, abs_marker, None) =~= masdar(
        polarity,
        preverb,
        stem,
    ));
}

/// The imperative with "ре" of the third person plural is that of the third
/// person singular, and every marker it holds is a singular or first or second
/// person ergative marker.
pub proof fn lemma_raj_imperative_markers<S>(
    polarity: Polarity,
    preverb: Option<Seq<char>>,
    stem: S,
    person: Person,
    number: Number,
)
    ensures
        imperative_raj(polarity, preverb, stem, Person::Third, Number::Plural) == imperative_raj(
            polarity,
            preverb,
            stem,
            Person::Third,
            Number::Singular,
        ),
        forall|i: int|
            0 <= i < imperative_raj(polarity, preverb, stem, person, number).len()
                && #[trigger] imperative_raj(polarity, preverb, stem, person, number)[i] is PersonMarker
                ==> {
                let m = imperative_raj(polarity, preverb, stem, person, number)[i]->PersonMarker_0;
                &&& m.case == Case::Ergative
                &&& !(m.person == Person::Third && m.number == Number::Plural)
            },
{
    let ms = imperative_raj(polarity, preverb, stem, person, number);
    let mk = optional::<S>(
        !(preverb is Some && person == Person::Third),
        marker_of(person, raj_marker_number(person, number), Case::Ergative),
    );
    let rest = preverb_part::<S>(preverb) + seq![SpecMorpheme::<S>::RajImperative]
        + negation_part::<S>(polarity) + stem_part(stem);
    assert(ms =~= mk + rest);
    assert forall|i: int| 0 <= i < ms.len() && #[trigger] ms[i] is PersonMarker implies {
        let m = ms[i]->PersonMarker_0;
        &&& m.case == Case::Ergative
        &&& !(m.person == Person::Third && m.number == Number::Plural)
    } by {
        if i >= mk.len() {
            let j = i - mk.len();
            assert(ms[i] == rest[j]);
            let pp = preverb_part::<S>(preverb);
            let raj = seq![SpecMorpheme::<S>::RajImperative];
            let neg = negation_part::<S>(polarity);
            if j < pp.len() {
                assert(rest[j] == pp[j]);
            } else if j < pp.len() + 1 {
                assert(rest[j] == raj[j - pp.len()]);
            } else if j < pp.len() + 1 + neg.len() {
                assert(rest[j] == neg[j - pp.len() - 1]);
            } else {
                assert(rest[j] == stem_part(stem)[j - pp.len() - 1 - neg.len()]);
            }
        }
    }
}


/// The indicative ends in its tense suffix: "р", "рт", "ащ", "ат", "гъащ",
/// "гъат", "щ", "т", "нщ", "ну" in the positive and "ркъым", "ртэкъым",
/// "акъым", "атэкъым", "гъакъым", "гъатэкъым", "къым", "тэкъым", "нкъым",
/// "нукъым" in the negative, for the tenses in declaration order.
pub proof fn lemma_indicative_tense_suffixes<S>(
    polarity: Polarity,
    tense: Tense,
    preverb: Option<Seq<char>>,
    stem: S,
    abs_marker: PersonMarker,
    erg_marker: Option<PersonMarker>,
)
    ensures
        indicative(polarity, tense, preverb, stem, abs_marker, erg_marker).last()
            == SpecMorpheme::<S>::Generic(indicative_suffix(polarity, tense)),
        indicative_suffix(Polarity::Positive, Tense::Present) == "р"@,
        indicative_suffix(Polarity::Positive, Tense::Imperfect) == "рт"@,
        indicative_suffix(Polarity::Positive, Tense::Perfect) == "ащ"@,
        indicative_suffix(Polarity::Positive, Tense::PlusQuamPerfect) == "ат"@,
        indicative_suffix(Polarity::Positive, Tense::FarPast1) == "гъащ"@,
        indicative_suffix(Polarity::Positive, Tense::FastPast2) == "гъат"@,
        indicative_suffix(Polarity::Positive, Tense::Aorist1) == "щ"@,
        indicative_suffix(Polarity::Positive, Tense::Aorist2) == "т"@,
        indicative_suffix(Polarity::Positive, Tense::Future1) == "нщ"@,
        indicative_suffix(Polarity::Positive, Tense::Future2) == "ну"@,
        indicative_suffix(Polarity::Negative, Tense::Present) == "ркъым"@,
        indicative_suffix(Polarity::Negative, Tense::Imperfect) == "ртэкъым"@,
        indicative_suffix(Polarity::Negative, Tense::Perfect) == "акъым"@,
        indicative_suffix(Polarity::Negative, Tense::PlusQuamPerfect) == "атэкъым"@,
        indicative_suffix(Polarity::Negative, Tense::FarPast1) == "гъакъым"@,
        indicative_suffix(Polarity::Negative, Tense::FastPast2) == "гъатэкъым"@,
        indicative_suffix(Polarity::Negative, Tense::Aorist1) == "къым"@,
        indicative_suffix(Polarity::Negative, Tense::Aorist2) == "тэкъым"@,
        indicative_suffix(Polarity::Negative, Tense::Future1) == "нкъым"@,
        indicative_suffix(Polarity::Negative, Tense::Future2) == "нукъым"@,
{
}

/// Distinct tenses give distinct indicative suffixes, in each polarity.
pub proof fn lemma_indicative_suffixes_tell_tenses_apart(
    polarity: Polarity,
    tense1: Tense,
    tense2: Tense,
)
    requires
        tense1 != tense2,
    ensures
        indicative_suffix(polarity, tense1) != indicative_suffix(polarity, tense2),
{
    reveal_strlit("р");
    reveal_strlit("рт");
    reveal_strlit("ащ");
    reveal_strlit("ат");
    reveal_strlit("гъащ");
    reveal_strlit("гъат");
    reveal_strlit("щ");
    reveal_strlit("т");
    reveal_strlit("нщ");
    reveal_strlit("ну");
    reveal_strlit("ркъым");
    reveal_strlit("ртэкъым");
    reveal_strlit("акъым");
    reveal_strlit("атэкъым");
    reveal_strlit("гъакъым");
    reveal_strlit("гъатэкъым");
    reveal_strlit("къым");
    reveal_strlit("тэкъым");
    reveal_strlit("нкъым");
    reveal_strlit("нукъым");
    let a = indicative_suffix(polarity, tense1);
    let b = indicative_suffix(polarity, tense2);
    if a.len() == b.len() {
        assert(a[0] != b[0] || a[a.len() - 1] != b[b.len() - 1] || (a.len() > 1 && a[1] != b[1]) || (a.len() > 3 && a[a.len() - 4] != b[b.len() - 4]));
    }
}

/// A positive interrogative ends in its tense suffix, where the tense has one:
/// "рэ", "рт", "ащ", "ат", "гъащ", "гъат", none, "т", "нщ", "ну" for the
/// tenses in declaration order; a negative interrogative ends in the stem.
pub proof fn lemma_interrogative_tense_suffixes<S>(
    polarity: Polarity,
    tense: Tense,
    preverb: Option<Seq<char>>,
    stem: S,
    abs_marker: PersonMarker,
    erg_marker: Option<PersonMarker>,
)
    ensures
        polarity == Polarity::Positive && tense != Tense::Aorist1 ==> interrogative(
            polarity,
            tense,
            preverb,
            stem,
            abs_marker,
            erg_marker,
        ).last() == SpecMorpheme::<S>::Generic(interrogative_suffixes(tense).0),
        polarity == Polarity::Negative || tense == Tense::Aorist1 ==> interrogative(
            polarity,
            tense,
            preverb,
            stem,
            abs_marker,
            erg_marker,
        ).last() == SpecMorpheme::<S>::Stem(stem, stem_root()),
        interrogative_suffixes(Tense::Present).0 == "рэ"@,
        interrogative_suffixes(Tense::Imperfect).0 == "рт"@,
        interrogative_suffixes(Tense::Perfect).0 == "ащ"@,
        interrogative_suffixes(Tense::PlusQuamPerfect).0 == "ат"@,
        interrogative_suffixes(Tense::FarPast1).0 == "гъащ"@,
        interrogative_suffixes(Tense::FastPast2).0 == "гъат"@,
        interrogative_suffixes(Tense::Aorist1).0 == ""@,
        interrogative_suffixes(Tense::Aorist2).0 == "т"@,
        interrogative_suffixes(Tense::Future1).0 == "нщ"@,
        interrogative_suffixes(Tense::Future2).0 == "ну"@,
        interrogative_suffixes(Tense::Present).1 == "ркъэ"@,
        interrogative_suffixes(Tense::Imperfect).1 == "ртэкъым"@,
        interrogative_suffixes(Tense::Perfect).1 == "акъэ"@,
        interrogative_suffixes(Tense::PlusQuamPerfect).1 == "атэкъэ"@,
        interrogative_suffixes(Tense::FarPast1).1 == "гъакъэ"@,
        interrogative_suffixes(Tense::FastPast2).1 == "гъатэкъэ"@,
        interrogative_suffixes(Tense::Aorist1).1 == "къэ"@,
        interrogative_suffixes(Tense::Aorist2).1 == "тэкъэ"@,
        interrogative_suffixes(Tense::Future1).1 == "нкъэ"@,
        interrogative_suffixes(Tense::Future2).1 == "нукъэ"@,
{
    reveal_strlit("рэ");
    reveal_strlit("рт");
    reveal_strlit("ащ");
    reveal_strlit("ат");
    reveal_strlit("гъащ");
    reveal_strlit("гъат");
    reveal_strlit("");
    reveal_strlit("т");
    reveal_strlit("нщ");
    reveal_strlit("ну");
}

/// Distinct tenses give distinct positive interrogative forms.
pub proof fn lemma_interrogative_suffixes_tell_tenses_apart(tense1: Tense, tense2: Tense)
    requires
        tense1 != tense2,
    ensures
        interrogative_suffixes(tense1).0 != interrogative_suffixes(tense2).0,
{
    reveal_strlit("рэ");
    reveal_strlit("рт");
    reveal_strlit("ащ");
    reveal_strlit("ат");
    reveal_strlit("гъащ");
    reveal_strlit("гъат");
    reveal_strlit("");
    reveal_strlit("т");
    reveal_strlit("нщ");
    reveal_strlit("ну");
    let a = interrogative_suffixes(tense1).0;
    let b = interrogative_suffixes(tense2).0;
    if a.len() == b.len() && a.len() > 0 {
        assert(a[0] != b[0] || a[a.len() - 1] != b[b.len() - 1] || (a.len() > 1 && a[1] != b[1]));
    }
}

/// In the imperative with "ре", a first or second person marker carries the
/// given person and number, in the ergative case.
pub proof fn lemma_raj_imperative_keeps_person_and_number<S>(
    polarity: Polarity,
    preverb: Option<Seq<char>>,
    stem: S,
    person: Person,
    number: Number,
)
    requires
        person != Person::Third,
    ensures
        imperative_raj(polarity, preverb, stem, person, number)[0]
            == SpecMorpheme::<S>::PersonMarker(PersonMarker { person, number, case: Case::Ergative }),
{
}

/// The voiced form of a marker changes only a voiceless initial: "с" becomes
/// "з" and "ф" becomes "в"; an initial "б", "д" or "и" stays as it is.
pub proof fn lemma_voicing_changes_only_voiceless_initials(marker: PersonMarker)
    requires
        has_voiced_form(marker),
    ensures
        ({
            let b = marker.spec_base();
            let v = with_initial(b, voiced_initial(b[0])->0);
            &&& v.len() == b.len()
            &&& v.drop_first() == b.drop_first()
            &&& b[0] == 'с' ==> v[0] == 'з'
            &&& b[0] == 'ф' ==> v[0] == 'в'
            &&& (b[0] == 'б' || b[0] == 'д' || b[0] == 'и') ==> v == b
        }),
{
    lemma_marker_base_letters(marker.person, marker.number, marker.case);
    let b = marker.spec_base();
    let v = with_initial(b, voiced_initial(b[0])->0);
    assert(v.drop_first() =~= b.drop_first());
    if b[0] == 'б' || b[0] == 'д' || b[0] == 'и' {
        assert(v =~= b);
    }
}

/// The voiceless form of a marker changes only a voiced initial: "б" becomes
/// "п" and "д" becomes "т"; an initial "с", "ф" or "и" stays as it is.
pub proof fn lemma_devoicing_changes_only_voiced_initials(marker: PersonMarker)
    requires
        has_voiceless_form(marker),
    ensures
        ({
            let b = marker.spec_base();
            let v = with_initial(b, voiceless_initial(b[0])->0);
            &&& v.len() == b.len()
            &&& v.drop_first() == b.drop_first()
            &&& b[0] == 'б' ==> v[0] == 'п'
            &&& b[0] == 'д' ==> v[0] == 'т'
            &&& (b[0] == 'с' || b[0] == 'ф' || b[0] == 'и') ==> v == b
        }),
{
    lemma_marker_base_letters(marker.person, marker.number, marker.case);
    let b = marker.spec_base();
    let v = with_initial(b, voiceless_initial(b[0])->0);
    assert(v.drop_first() =~= b.drop_first());
    if b[0] == 'с' || b[0] == 'ф' || b[0] == 'и' {
        assert(v =~= b);
    }
}

/// After a consonant only the marker "я" changes, to "а"; every other marker
/// that has this form stays as it is.
pub proof fn lemma_after_consonant_changes_only_ya(marker: PersonMarker)
    requires
        has_after_consonant_form(marker),
    ensures
        ({
            let b = marker.spec_base();
            let v = with_initial(b, after_consonant_initial(b[0])->0);
            &&& b[0] == 'я' ==> v == seq!['а']
            &&& b[0] != 'я' ==> v == b
        }),
{
    lemma_marker_base_letters(marker.person, marker.number, marker.case);
    let b = marker.spec_base();
    let v = with_initial(b, after_consonant_initial(b[0])->0);
    if b[0] != 'я' {
        assert(v =~= b);
    } else {
        assert(v =~= seq!['а']);
    }
}


/// Where a morpheme stands in a verb form.
pub enum Slot {
    AbsolutiveMarker,
    Preverb,
    ErgativeMarker,
    Raj,
    Negation,
    Stem,
    Other,
}

/// The slot of a morpheme: person markers by their case, generic morphemes
/// (suffixes and the like) in no ordered slot.
pub open spec fn slot<S>(m: SpecMorpheme<S>) -> Slot {
    match m {
        SpecMorpheme::PersonMarker(k) => if k.case == Case::Absolutive {
            Slot::AbsolutiveMarker
        } else {
            Slot::ErgativeMarker
        },
        SpecMorpheme::Preverb(_) => Slot::Preverb,
        SpecMorpheme::RajImperative => Slot::Raj,
        SpecMorpheme::NegationPrefix => Slot::Negation,
        SpecMorpheme::Stem(_, _) => Slot::Stem,
        SpecMorpheme::Generic(_) => Slot::Other,
    }
}

/// The order of the slots: in most forms absolutive marker, preverb, ergative
/// marker, negation, stem; in the imperative with "ре" ergative marker,
/// preverb, "ре", negation, stem.
pub open spec fn slot_rank(s: Slot, raj_order: bool) -> int {
    if raj_order {
        match s {
            Slot::ErgativeMarker => 0,
            Slot::Preverb => 1,
            Slot::Raj => 2,
            Slot::Negation => 3,
            Slot::Stem => 4,
            _ => 0,
        }
    } else {
        match s {
            Slot::AbsolutiveMarker => 0,
            Slot::Preverb => 1,
            Slot::ErgativeMarker => 2,
            Slot::Negation => 3,
            Slot::Stem => 4,
            _ => 0,
        }
    }
}

/// The morphemes of `ms` that stand in an ordered slot come in slot order.
pub open spec fn in_slot_order<S>(ms: Seq<SpecMorpheme<S>>, raj_order: bool) -> bool {
    forall|i: int, j: int|
        0 <= i < j < ms.len() && slot(#[trigger] ms[i]) != Slot::Other && slot(#[trigger] ms[j])
            != Slot::Other ==> slot_rank(slot(ms[i]), raj_order) <= slot_rank(
            slot(ms[j]),
            raj_order,
        )
}

/// Every morpheme of `ms` in an ordered slot has a rank from `lo` to `hi`.
pub open spec fn ranks_within<S>(ms: Seq<SpecMorpheme<S>>, raj_order: bool, lo: int, hi: int) -> bool {
    forall|i: int|
        0 <= i < ms.len() && slot(#[trigger] ms[i]) != Slot::Other ==> lo <= slot_rank(
            slot(ms[i]),
            raj_order,
        ) <= hi
}

proof fn lemma_slot_order_concat<S>(
    a: Seq<SpecMorpheme<S>>,
    b: Seq<SpecMorpheme<S>>,
    raj_order: bool,
    lo: int,
    mid: int,
    hi: int,
)
    requires
        lo <= mid <= hi,
        in_slot_order(a, raj_order),
        in_slot_order(b, raj_order),
        ranks_within(a, raj_order, lo, mid),
        ranks_within(b, raj_order, mid, hi),
    ensures
        in_slot_order(a + b, raj_order),
        ranks_within(a + b, raj_order, lo, hi),
{
    lemma_index_concat(a, b);
    let ab = a + b;
    assert forall|i: int, j: int|
        0 <= i < j < ab.len() && slot(#[trigger] ab[i]) != Slot::Other && slot(#[trigger] ab[j])
            != Slot::Other implies slot_rank(slot(ab[i]), raj_order) <= slot_rank(
        slot(ab[j]),
        raj_order,
    ) by {
        if j < a.len() {
            assert(ab[i] == a[i] && ab[j] == a[j]);
        } else if i >= a.len() {
            assert(ab[i] == b[i - a.len()] && ab[j] == b[j - a.len()]);
        } else {
            assert(ab[i] == a[i] && ab[j] == b[j - a.len()]);
        }
    }
    assert forall|i: int| 0 <= i < ab.len() && slot(#[trigger] ab[i]) != Slot::Other implies lo
        <= slot_rank(slot(ab[i]), raj_order) <= hi by {
        if i < a.len() {
            assert(ab[i] == a[i]);
        } else {
            assert(ab[i] == b[i - a.len()]);
        }
    }
}

/// A part of at most one morpheme, of the given rank where it is ordered.
proof fn lemma_short_part<S>(p: Seq<SpecMorpheme<S>>, raj_order: bool, r: int)
    requires
        p.len() <= 1,
        p.len() == 1 && slot(p[0]) != Slot::Other ==> slot_rank(slot(p[0]), raj_order) == r,
    ensures
        in_slot_order(p, raj_order),
        ranks_within(p, raj_order, r, r),
{
}

proof fn lemma_masdars_keep_slot_order<S>(
    polarity: Polarity,
    preverb: Option<Seq<char>>,
    stem: S,
    abs_marker: PersonMarker,
    erg_marker: Option<PersonMarker>,
)
    ensures
        in_slot_order(masdar(polarity, preverb, stem), false),
        in_slot_order(masdar_personal(polarity, preverb, stem, abs_marker, erg_marker), false),
{
    let pp = preverb_part::<S>(preverb);
    let neg = negation_part::<S>(polarity);
    let st = stem_part(stem);
    let erg = ergative_part::<S>(erg_marker);
    let abs = absolutive_part::<S>(abs_marker);
    let gn = seq![SpecMorpheme::<S>::Generic("н"@)];
    lemma_short_part(pp, false, 1);
    lemma_short_part(neg, false, 3);
    lemma_short_part(st, false, 4);
    lemma_short_part(erg, false, 2);
    lemma_short_part(abs, false, 0);
    lemma_short_part(gn, false, 4);
    lemma_slot_order_concat(pp, neg, false, 1, 1, 3);
    lemma_slot_order_concat(pp + neg, st, false, 1, 3, 4);
    lemma_slot_order_concat(pp + neg + st, gn, false, 1, 4, 4);
    lemma_slot_order_concat(abs, pp, false, 0, 0, 1);
    lemma_slot_order_concat(abs + pp, erg, false, 0, 1, 2);
    lemma_slot_order_concat(abs + pp + erg, neg, false, 0, 2, 3);
    lemma_slot_order_concat(abs + pp + erg + neg, st, false, 0, 3, 4);
    lemma_slot_order_concat(abs + pp + erg + neg + st, gn, false, 0, 4, 4);
}

proof fn lemma_imperatives_keep_slot_order<S>(
    polarity: Polarity,
    preverb: Option<Seq<char>>,
    stem: S,
    person: Person,
    number: Number,
    abs_marker: PersonMarker,
    erg_marker: Option<PersonMarker>,
)
    ensures
        in_slot_order(imperative_raj(polarity, preverb, stem, person, number), true),
        in_slot_order(imperative(polarity, preverb, stem, abs_marker, erg_marker), false),
{
    let pp = preverb_part::<S>(preverb);
    let neg = negation_part::<S>(polarity);
    let st = stem_part(stem);
    let a2 = optional::<S>(
        abs_marker.person != Person::Third,
        marker_of(Person::Second, abs_marker.number, Case::Absolutive),
    );
    let e2 = imperative_ergative_part::<S>(polarity, erg_marker);
    lemma_short_part(pp, false, 1);
    lemma_short_part(neg, false, 3);
    lemma_short_part(st, false, 4);
    lemma_short_part(a2, false, 0);
    lemma_short_part(e2, false, 2);
    lemma_slot_order_concat(a2, pp, false, 0, 0, 1);
    lemma_slot_order_concat(a2 + pp, e2, false, 0, 1, 2);
    lemma_slot_order_concat(a2 + pp + e2, neg, false, 0, 2, 3);
    lemma_slot_order_concat(a2 + pp + e2 + neg, st, false, 0, 3, 4);
    let mk = optional::<S>(
        !(preverb is Some && person == Person::Third),
        marker_of(person, raj_marker_number(person, number), Case::Ergative),
    );
    let raj = seq![SpecMorpheme::<S>::RajImperative];
    lemma_short_part(mk, true, 0);
    lemma_short_part(pp, true, 1);
    lemma_short_part(raj, true, 2);
    lemma_short_part(neg, true, 3);
    lemma_short_part(st, true, 4);
    lemma_slot_order_concat(mk, pp, true, 0, 1, 1);
    lemma_slot_order_concat(mk + pp, raj, true, 0, 1, 2);
    lemma_slot_order_concat(mk + pp + raj, neg, true, 0, 2, 3);
    lemma_slot_order_concat(mk + pp + raj + neg, st, true, 0, 3, 4);
}

proof fn lemma_moods_keep_slot_order<S>(
    polarity: Polarity,
    tense: Tense,
    preverb: Option<Seq<char>>,
    stem: S,
    abs_marker: PersonMarker,
    erg_marker: Option<PersonMarker>,
)
    ensures
        in_slot_order(indicative(polarity, tense, preverb, stem, abs_marker, erg_marker), false),
        in_slot_order(interrogative(polarity, tense, preverb, stem, abs_marker, erg_marker), false),
{
    let pp = preverb_part::<S>(preverb);
    let st = stem_part(stem);
    let erg = ergative_part::<S>(erg_marker);
    let abs = absolutive_part::<S>(abs_marker);
    lemma_short_part(pp, false, 1);
    lemma_short_part(st, false, 4);
    lemma_short_part(erg, false, 2);
    lemma_short_part(abs, false, 0);
    lemma_slot_order_concat(abs, pp, false, 0, 0, 1);
    lemma_slot_order_concat(abs + pp, erg, false, 0, 1, 2);
    let o = optional::<S>(
        polarity == Polarity::Positive && tense == Tense::Present,
        SpecMorpheme::Generic("о"@),
    );
    let sfx = seq![SpecMorpheme::<S>::Generic(indicative_suffix(polarity, tense))];
    lemma_short_part(o, false, 2);
    lemma_short_part(sfx, false, 4);
    lemma_slot_order_concat(abs + pp + erg, o, false, 0, 2, 2);
    lemma_slot_order_concat(abs + pp + erg + o, st, false, 0, 2, 4);
    lemma_slot_order_concat(abs + pp + erg + o + st, sfx, false, 0, 4, 4);
    let isfx = optional::<S>(
        interrogative_suffixes(tense).0.len() != 0 && polarity == Polarity::Positive,
        SpecMorpheme::Generic(interrogative_suffixes(tense).0),
    );
    lemma_short_part(isfx, false, 4);
    lemma_slot_order_concat(abs + pp + erg, st, false, 0, 2, 4);
    lemma_slot_order_concat(abs + pp + erg + st, isfx, false, 0, 4, 4);
}

/// Every verb form lays out its morphemes in slot order: the absolutive
/// marker, the preverb, the ergative marker, the negation prefix and the stem
/// follow one another in that order; in the imperative with "ре" the ergative
/// marker, the preverb, "ре", the negation prefix and the stem do.
pub proof fn lemma_templates_keep_slot_order<S>(
    polarity: Polarity,
    tense: Tense,
    preverb: Option<Seq<char>>,
    stem: S,
    person: Person,
    number: Number,
    abs_marker: PersonMarker,
    erg_marker: Option<PersonMarker>,
)
    ensures
        in_slot_order(masdar(polarity, preverb, stem), false),
        in_slot_order(imperative_raj(polarity, preverb, stem, person, number), true),
        in_slot_order(masdar_personal(polarity, preverb, stem, abs_marker, erg_marker), false),
        in_slot_order(imperative(polarity, preverb, stem, abs_marker, erg_marker), false),
        in_slot_order(indicative(polarity, tense, preverb, stem, abs_marker, erg_marker), false),
        in_slot_order(interrogative(polarity, tense, preverb, stem, abs_marker, erg_marker), false),
{
    lemma_masdars_keep_slot_order(polarity, preverb, stem, abs_marker, erg_marker);
    lemma_imperatives_keep_slot_order(
        polarity,
        preverb,
        stem,
        person,
        number,
        abs_marker,
        erg_marker,
    );
    lemma_moods_keep_slot_order(polarity, tense, preverb, stem, abs_marker, erg_marker);
}

/// In every verb form with a preverb and an ergative marker, the preverb
/// comes first, except in the imperative with "ре", where the marker does.
pub proof fn lemma_preverb_precedes_ergative_marker<S>(
    polarity: Polarity,
    tense: Tense,
    preverb: Option<Seq<char>>,
    stem: S,
    person: Person,
    number: Number,
    abs_marker: PersonMarker,
    erg_marker: Option<PersonMarker>,
    i: int,
    j: int,
)
    ensures
        ({
            let forms = seq![
                masdar_personal(polarity, preverb, stem, abs_marker, erg_marker),
                imperative(polarity, preverb, stem, abs_marker, erg_marker),
                indicative(polarity, tense, preverb, stem, abs_marker, erg_marker),
                interrogative(polarity, tense, preverb, stem, abs_marker, erg_marker),
            ];
            forall|k: int|
                0 <= k < 4 && 0 <= i < forms[k].len() && 0 <= j < forms[k].len()
                    && #[trigger] forms[k][i] is Preverb && slot(forms[k][j])
                    == Slot::ErgativeMarker ==> i < j
        }),
        ({
            let ms = imperative_raj(polarity, preverb, stem, person, number);
            0 <= i < ms.len() && 0 <= j < ms.len() && ms[i] is Preverb && ms[j] is PersonMarker
                ==> j < i
        }),
{
    lemma_templates_keep_slot_order(
        polarity,
        tense,
        preverb,
        stem,
        person,
        number,
        abs_marker,
        erg_marker,
    );
    let forms = seq![
        masdar_personal(polarity, preverb, stem, abs_marker, erg_marker),
        imperative(polarity, preverb, stem, abs_marker, erg_marker),
        indicative(polarity, tense, preverb, stem, abs_marker, erg_marker),
        interrogative(polarity, tense, preverb, stem, abs_marker, erg_marker),
    ];
    assert forall|k: int|
        0 <= k < 4 && 0 <= i < forms[k].len() && 0 <= j < forms[k].len()
            && #[trigger] forms[k][i] is Preverb && slot(forms[k][j]) == Slot::ErgativeMarker implies i
        < j by {
        let ms = forms[k];
        if j <= i {
            if j < i {
                assert(slot_rank(slot(ms[j]), false) <= slot_rank(slot(ms[i]), false));
            }
        }
    }
    let ms = imperative_raj(polarity, preverb, stem, person, number);
    if 0 <= i < ms.len() && 0 <= j < ms.len() && ms[i] is Preverb && ms[j] is PersonMarker {
        if i < j {
            assert(slot_rank(slot(ms[i]), true) <= slot_rank(slot(ms[j]), true));
        }
    }
}


/// Every person marker among `ms` stands for one of the given arguments: an
/// absolutive marker for the absolutive argument, which is then not third
/// person, and an ergative marker for the ergative argument, each with that
/// argument's person and number.
pub open spec fn markers_follow<S>(
    ms: Seq<SpecMorpheme<S>>,
    abs_marker: PersonMarker,
    erg_marker: Option<PersonMarker>,
) -> bool {
    forall|i: int|
        0 <= i < ms.len() && #[trigger] ms[i] is PersonMarker ==> {
            let k = ms[i]->PersonMarker_0;
            &&& k.case == Case::Absolutive ==> k.person == abs_marker.person && k.number
                == abs_marker.number && abs_marker.person != Person::Third
            &&& k.case == Case::Ergative ==> erg_marker is Some && k.person == erg_marker->0.person
                && k.number == erg_marker->0.number
        }
}

/// Every person marker among `ms` is second person, an absolutive one with the
/// absolutive argument's number, which is then not third person, and an
/// ergative one with the ergative argument's number.
pub open spec fn imperative_markers_follow<S>(
    ms: Seq<SpecMorpheme<S>>,
    abs_marker: PersonMarker,
    erg_marker: Option<PersonMarker>,
) -> bool {
    forall|i: int|
        0 <= i < ms.len() && #[trigger] ms[i] is PersonMarker ==> {
            let k = ms[i]->PersonMarker_0;
            &&& k.person == Person::Second
            &&& k.case == Case::Absolutive ==> k.number == abs_marker.number && abs_marker.person
                != Person::Third
            &&& k.case == Case::Ergative ==> erg_marker is Some && k.number == erg_marker->0.number
        }
}

broadcast proof fn lemma_concat_markers_follow<S>(
    a: Seq<SpecMorpheme<S>>,
    b: Seq<SpecMorpheme<S>>,
    abs_marker: PersonMarker,
    erg_marker: Option<PersonMarker>,
)
    requires
        markers_follow(a, abs_marker, erg_marker),
        markers_follow(b, abs_marker, erg_marker),
    ensures
        #[trigger] markers_follow(a + b, abs_marker, erg_marker),
{
    lemma_index_concat(a, b);
}

broadcast proof fn lemma_concat_imperative_markers_follow<S>(
    a: Seq<SpecMorpheme<S>>,
    b: Seq<SpecMorpheme<S>>,
    abs_marker: PersonMarker,
    erg_marker: Option<PersonMarker>,
)
    requires
        imperative_markers_follow(a, abs_marker, erg_marker),
        imperative_markers_follow(b, abs_marker, erg_marker),
    ensures
        #[trigger] imperative_markers_follow(a + b, abs_marker, erg_marker),
{
    lemma_index_concat(a, b);
}

/// The personal masdar, the indicative and the interrogative mark exactly
/// their arguments: the absolutive argument by an absolutive marker of its
/// person and number in first place, unless it is third person, and the
/// ergative argument, where there is one, by an ergative marker of its person
/// and number; no other person marker appears.
pub proof fn lemma_moods_mark_their_arguments<S>(
    polarity: Polarity,
    tense: Tense,
    preverb: Option<Seq<char>>,
    stem: S,
    abs_marker: PersonMarker,
    erg_marker: Option<PersonMarker>,
)
    ensures
        ({
            let forms = seq![
                masdar_personal(polarity, preverb, stem, abs_marker, erg_marker),
                indicative(polarity, tense, preverb, stem, abs_marker, erg_marker),
                interrogative(polarity, tense, preverb, stem, abs_marker, erg_marker),
            ];
            forall|k: int|
                0 <= k < 3 ==> {
                    &&& markers_follow(#[trigger] forms[k], abs_marker, erg_marker)
                    &&& abs_marker.person != Person::Third ==> forms[k][0]
                        == SpecMorpheme::<S>::PersonMarker(
                        PersonMarker {
                            person: abs_marker.person,
                            number: abs_marker.number,
                            case: Case::Absolutive,
                        },
                    )
                    &&& erg_marker is Some ==> forms[k].contains(
                        SpecMorpheme::<S>::PersonMarker(
                            PersonMarker {
                                person: erg_marker->0.person,
                                number: erg_marker->0.number,
                                case: Case::Ergative,
                            },
                        ),
                    )
                }
        }),
{
    broadcast use lemma_concat_markers_follow;

    let pp = preverb_part::<S>(preverb);
    let erg = ergative_part::<S>(erg_marker);
    let abs = absolutive_part::<S>(abs_marker);
    let neg = negation_part::<S>(polarity);
    let st = stem_part(stem);
    assert(markers_follow(pp, abs_marker, erg_marker));
    assert(markers_follow(erg, abs_marker, erg_marker));
    assert(markers_follow(abs, abs_marker, erg_marker));
    assert(markers_follow(neg, abs_marker, erg_marker));
    assert(markers_follow(st, abs_marker, erg_marker));
    assert(markers_follow(seq![SpecMorpheme::<S>::Generic("н"@)], abs_marker, erg_marker));
    assert(markers_follow(
        optional::<S>(
            polarity == Polarity::Positive && tense == Tense::Present,
            SpecMorpheme::Generic("о"@),
        ),
        abs_marker,
        erg_marker,
    ));
    assert(markers_follow(
        seq![SpecMorpheme::<S>::Generic(indicative_suffix(polarity, tense))],
        abs_marker,
        erg_marker,
    ));
    assert(markers_follow(
        optional::<S>(
            interrogative_suffixes(tense).0.len() != 0 && polarity == Polarity::Positive,
            SpecMorpheme::Generic(interrogative_suffixes(tense).0),
        ),
        abs_marker,
        erg_marker,
    ));
    let forms = seq![
        masdar_personal(polarity, preverb, stem, abs_marker, erg_marker),
        indicative(polarity, tense, preverb, stem, abs_marker, erg_marker),
        interrogative(polarity, tense, preverb, stem, abs_marker, erg_marker),
    ];
    let idx = abs.len() + pp.len();
    if erg_marker is Some {
        assert(forms[0][idx as int] == erg[0]);
        assert(forms[1][idx as int] == erg[0]);
        assert(forms[2][idx as int] == erg[0]);
    }
}

/// The imperative marks its arguments in the second person: the absolutive
/// argument, unless it is third person, by a second person absolutive marker of
/// its number in first place, and the ergative argument by a second person
/// ergative marker of its number, left out in the negative second person
/// singular; no other person marker appears.
pub proof fn lemma_imperative_marks_second_person<S>(
    polarity: Polarity,
    preverb: Option<Seq<char>>,
    stem: S,
    abs_marker: PersonMarker,
    erg_marker: Option<PersonMarker>,
)
    ensures
        imperative_markers_follow(
            imperative(polarity, preverb, stem, abs_marker, erg_marker),
            abs_marker,
            erg_marker,
        ),
        abs_marker.person != Person::Third ==> imperative(
            polarity,
            preverb,
            stem,
            abs_marker,
            erg_marker,
        )[0] == SpecMorpheme::<S>::PersonMarker(
            PersonMarker {
                person: Person::Second,
                number: abs_marker.number,
                case: Case::Absolutive,
            },
        ),
        erg_marker is Some ==> (imperative(
            polarity,
            preverb,
            stem,
            abs_marker,
            erg_marker,
        ).contains(
            SpecMorpheme::<S>::PersonMarker(
                PersonMarker {
                    person: Person::Second,
                    number: erg_marker->0.number,
                    case: Case::Ergative,
                },
            ),
        ) <==> !(polarity == Polarity::Negative && erg_marker->0.person == Person::Second
            && erg_marker->0.number == Number::Singular)),
{
    broadcast use lemma_concat_imperative_markers_follow;

    let pp = preverb_part::<S>(preverb);
    let neg = negation_part::<S>(polarity);
    let st = stem_part(stem);
    let a2 = optional::<S>(
        abs_marker.person != Person::Third,
        marker_of(Person::Second, abs_marker.number, Case::Absolutive),
    );
    let e2 = imperative_ergative_part::<S>(polarity, erg_marker);
    assert(imperative_markers_follow(pp, abs_marker, erg_marker));
    assert(imperative_markers_follow(neg, abs_marker, erg_marker));
    assert(imperative_markers_follow(st, abs_marker, erg_marker));
    assert(imperative_markers_follow(a2, abs_marker, erg_marker));
    assert(imperative_markers_follow(e2, abs_marker, erg_marker));
    let ms = imperative(polarity, preverb, stem, abs_marker, erg_marker);
    if let Some(e) = erg_marker {
        let target = SpecMorpheme::<S>::PersonMarker(
            PersonMarker { person: Person::Second, number: e.number, case: Case::Ergative },
        );
        if !(polarity == Polarity::Negative && e.person == Person::Second && e.number
            == Number::Singular) {
            assert(ms[(a2.len() + pp.len()) as int] == target);
        } else {
            lemma_index_concat(a2 + pp + e2 + neg, st);
            lemma_index_concat(a2 + pp + e2, neg);
            lemma_index_concat(a2 + pp, e2);
            lemma_index_concat(a2, pp);
            assert forall|i: int| 0 <= i < ms.len() implies ms[i] != target by {
                if ms[i] == target {
                    assert(ms[i] is PersonMarker);
                }
            }
        }
    }
}

/// The indicative holds the vowel "о" before the stem exactly in the positive
/// present; its tense suffix is never "о".
pub proof fn lemma_indicative_o_marks_positive_present<S>(
    polarity: Polarity,
    tense: Tense,
    preverb: Option<Seq<char>>,
    stem: S,
    abs_marker: PersonMarker,
    erg_marker: Option<PersonMarker>,
)
    ensures
        indicative(polarity, tense, preverb, stem, abs_marker, erg_marker).contains(
            SpecMorpheme::<S>::Generic("о"@),
        ) <==> (polarity == Polarity::Positive && tense == Tense::Present),
{
    reveal_strlit("о");
    reveal_strlit("р");
    reveal_strlit("рт");
    reveal_strlit("ащ");
    reveal_strlit("ат");
    reveal_strlit("гъащ");
    reveal_strlit("гъат");
    reveal_strlit("щ");
    reveal_strlit("т");
    reveal_strlit("нщ");
    reveal_strlit("ну");
    reveal_strlit("ркъым");
    reveal_strlit("ртэкъым");
    reveal_strlit("акъым");
    reveal_strlit("атэкъым");
    reveal_strlit("гъакъым");
    reveal_strlit("гъатэкъым");
    reveal_strlit("къым");
    reveal_strlit("тэкъым");
    reveal_strlit("нкъым");
    reveal_strlit("нукъым");
    let pp = preverb_part::<S>(preverb);
    let erg = ergative_part::<S>(erg_marker);
    let abs = absolutive_part::<S>(abs_marker);
    let o = optional::<S>(
        polarity == Polarity::Positive && tense == Tense::Present,
        SpecMorpheme::Generic("о"@),
    );
    let st = stem_part(stem);
    let sfx = seq![SpecMorpheme::<S>::Generic(indicative_suffix(polarity, tense))];
    let ms = indicative(polarity, tense, preverb, stem, abs_marker, erg_marker);
    let target = SpecMorpheme::<S>::Generic("о"@);
    assert(indicative_suffix(polarity, tense) != "о"@) by {
        let sx = indicative_suffix(polarity, tense);
        assert(sx.len() > 0 && sx[0] != 'о');
        assert("о"@[0] == 'о');
    }
    if polarity == Polarity::Positive && tense == Tense::Present {
        assert(ms[(abs.len() + pp.len() + erg.len()) as int] == target);
    } else {
        lemma_index_concat(abs + pp + erg + o + st, sfx);
        lemma_index_concat(abs + pp + erg + o, st);
        lemma_index_concat(abs + pp + erg, o);
        lemma_index_concat(abs + pp, erg);
        lemma_index_concat(abs, pp);
        assert forall|i: int| 0 <= i < ms.len() implies ms[i] != target by {
            if ms[i] == target {
                assert(ms[i] is Generic);
            }
        }
    }
}


/// The person markers are written "сы", "у", "ды", "фы" (absolutive first and
/// second person, singular then plural) and "с", "б", "и", "д", "ф", "я"
/// (ergative first, second and third person, singular then plural); the third
/// person absolutive is written as nothing.
pub proof fn lemma_marker_forms()
    ensures
        marker_base(Person::First, Number::Singular, Case::Absolutive) == "сы"@,
        marker_base(Person::Second, Number::Singular, Case::Absolutive) == "у"@,
        marker_base(Person::Third, Number::Singular, Case::Absolutive).len() == 0,
        marker_base(Person::First, Number::Plural, Case::Absolutive) == "ды"@,
        marker_base(Person::Second, Number::Plural, Case::Absolutive) == "фы"@,
        marker_base(Person::Third, Number::Plural, Case::Absolutive).len() == 0,
        marker_base(Person::First, Number::Singular, Case::Ergative) == "с"@,
        marker_base(Person::Second, Number::Singular, Case::Ergative) == "б"@,
        marker_base(Person::Third, Number::Singular, Case::Ergative) == "и"@,
        marker_base(Person::First, Number::Plural, Case::Ergative) == "д"@,
        marker_base(Person::Second, Number::Plural, Case::Ergative) == "ф"@,
        marker_base(Person::Third, Number::Plural, Case::Ergative) == "я"@,
{
    reveal_strlit("");
}

/// The fixed morphemes are written: negation "мы", the imperative "ре", the
/// stem placeholder "{{{псалъэпкъ}}}"; both masdars end in "н".
pub proof fn lemma_fixed_morphemes<S>(
    polarity: Polarity,
    preverb: Option<Seq<char>>,
    stem: S,
    abs_marker: PersonMarker,
    erg_marker: Option<PersonMarker>,
)
    ensures
        morpheme_text(SpecMorpheme::<S>::NegationPrefix) == "мы"@,
        morpheme_text(SpecMorpheme::<S>::RajImperative) == "ре"@,
        stem_root() == "{{{псалъэпкъ}}}"@,
        masdar(polarity, preverb, stem).last() == SpecMorpheme::<S>::Generic("н"@),
        masdar_personal(polarity, preverb, stem, abs_marker, erg_marker).last()
            == SpecMorpheme::<S>::Generic("н"@),
{
}

/// The pronouns are "сэ", "уэ", "дэ", "фэ" for the first and second person,
/// and "ар", "ахэр" or "абы", "абыхэм" for the third person of an
/// intransitive or a transitive verb.
pub proof fn lemma_pronoun_forms()
    ensures
        pronoun_forms(Transitivity::Intransitive) == seq![
            "сэ"@,
            "уэ"@,
            "ар"@,
            "дэ"@,
            "фэ"@,
            "ахэр"@,
        ],
        pronoun_forms(Transitivity::Transitive) == seq![
            "сэ"@,
            "уэ"@,
            "абы"@,
            "дэ"@,
            "фэ"@,
            "абыхэм"@,
        ],
{
}

} // verus!
