//! Morphology of Kabardian verb forms: the grammatical categories, the
//! person markers and preverbs with their sound variants, and the templates
//! that lay out the morphemes of a verb form in order.
//!
//! The functions that split a written form into letters are not part of this
//! crate, because the orthography module they rely on (its `parse` and its
//! `Letter`, `Consonant` and `LetterKind` types) is not part of it:
//! `Preverb::first_letter`, `Preverb::last_consonant`,
//! `MorphemeKind::first_letter`, `MorphemeKind::to_letters`,
//! `Morpheme::first_letter`, `Morpheme::to_letters` and
//! `PersonMarker::to_letters`. The written forms they would split are given by
//! `Preverb::get_form`, `MorphemeKind::to_string`, `Morpheme::to_string` and
//! `PersonMarker::base_string`.

pub mod grammar;
pub mod person_marker;
pub mod preverb;
pub mod morpheme;
pub mod templates;
pub mod laws;
