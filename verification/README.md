# wikipsalhalhe_templates

The morphology behind the verb templates: Kabardian grammatical categories,
person markers and preverbs with their sound variants, and the templates that
lay out the morphemes of the masdar, the imperatives, the indicative and the
interrogative, with every function's result stated in its contract and checked
by Verus.

- `src/grammar.rs`: tenses, polarity, case, number, person, transitivity, pronouns.
- `src/person_marker.rs`: person markers, their written forms and sound variants.
- `src/preverb.rs`: preverbs and their full, reduced and pre-vowel forms.
- `src/morpheme.rs`: morphemes and their written forms.
- `src/templates.rs`: the templates, each stated as the exact sequence of morphemes.
- `src/laws.rs`: what holds across the library (each value listed once, one stem
  per form, negation exactly in negative forms, no empty person marker, ...).

The verb stem that a template carries is a type parameter `S`: the templates only
clone it into the stem morpheme.

The functions that split a written form into letters are left out, because the
orthography module they rely on (`parse`, `Letter`, `Consonant`, `LetterKind`)
is not part of this crate: `Preverb::first_letter`, `Preverb::last_consonant`,
`MorphemeKind::first_letter`, `MorphemeKind::to_letters`,
`Morpheme::first_letter`, `Morpheme::to_letters` and `PersonMarker::to_letters`.
