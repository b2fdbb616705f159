use std::collections::VecDeque;

use wikipsalhalhe_templates::grammar::{
    Case, Number, Person, Polarity, Pronoun, PreverbSoundForm, Tense, Transitivity,
};
use wikipsalhalhe_templates::morpheme::{Morpheme, MorphemeKind};
use wikipsalhalhe_templates::person_marker::PersonMarker;
use wikipsalhalhe_templates::preverb::Preverb;
use wikipsalhalhe_templates::templates::{
    new_imperative, new_imperative_raj, new_indicative, new_interrogative, new_masdar,
    new_masdar_personal,
};

const ROOT: &str = "{{{псалъэпкъ}}}";

fn texts(ms: &VecDeque<Morpheme<String>>) -> Vec<String> {
    ms.iter().map(|m| m.to_string()).collect()
}

fn stem() -> String {
    "тх".to_string()
}

fn marker(person: Person, number: Number, case: Case) -> PersonMarker {
    PersonMarker::new(person, number, case)
}

fn preverb(base: &str) -> Preverb {
    Preverb::new(&base.to_string())
}

fn stem_count(ms: &VecDeque<Morpheme<String>>) -> usize {
    ms.iter()
        .filter(|m| matches!(&m.kind, MorphemeKind::Stem(s, r) if s == "тх" && r == ROOT))
        .count()
}

fn has_negation(ms: &VecDeque<Morpheme<String>>) -> bool {
    ms.iter().any(|m| matches!(m.kind, MorphemeKind::NegationPrefix))
}

#[test]
fn tense_variants_in_order() {
    let v = Tense::variants();
    assert_eq!(
        v,
        vec![
            Tense::Present,
            Tense::Imperfect,
            Tense::Perfect,
            Tense::PlusQuamPerfect,
            Tense::FarPast1,
            Tense::FastPast2,
            Tense::Aorist1,
            Tense::Aorist2,
            Tense::Future1,
            Tense::Future2,
        ]
    );
    assert_eq!(Tense::variants_iter().collect::<Vec<_>>(), v);
}

#[test]
fn other_variants_in_order() {
    assert_eq!(Polarity::variants(), vec![Polarity::Positive, Polarity::Negative]);
    assert_eq!(Polarity::variants_iter().collect::<Vec<_>>(), Polarity::variants());
    assert_eq!(Number::variants(), vec![Number::Singular, Number::Plural]);
    assert_eq!(Number::variants_iter().collect::<Vec<_>>(), Number::variants());
    assert_eq!(Person::variants(), vec![Person::First, Person::Second, Person::Third]);
    assert_eq!(Person::variants_iter().collect::<Vec<_>>(), Person::variants());
}

#[test]
fn variants_list_each_value_once() {
    let tenses = Tense::variants();
    for (i, t) in tenses.iter().enumerate() {
        assert_eq!(tenses.iter().filter(|u| *u == t).count(), 1, "tense {}", i);
    }
    let persons = Person::variants();
    for p in [Person::First, Person::Second, Person::Third] {
        assert_eq!(persons.iter().filter(|q| **q == p).count(), 1);
    }
}

#[test]
fn subject_case_follows_transitivity() {
    assert_eq!(Transitivity::Transitive.subject_case(), Case::Ergative);
    assert_eq!(Transitivity::Intransitive.subject_case(), Case::Absolutive);
}

#[test]
fn pronoun_forms() {
    assert_eq!(
        Pronoun::variants_str(&Transitivity::Intransitive),
        ["сэ", "уэ", "ар", "дэ", "фэ", "ахэр"]
    );
    assert_eq!(
        Pronoun::variants_str(&Transitivity::Transitive),
        ["сэ", "уэ", "абы", "дэ", "фэ", "абыхэм"]
    );
}

#[test]
fn pronouns_differ_only_in_third_person() {
    let t = Pronoun::variants_str(&Transitivity::Transitive);
    let i = Pronoun::variants_str(&Transitivity::Intransitive);
    for k in [0, 1, 3, 4] {
        assert_eq!(t[k], i[k]);
    }
    assert_ne!(t[2], i[2]);
    assert_ne!(t[5], i[5]);
}

#[test]
fn polarity_affixes() {
    assert_eq!(Polarity::Positive.to_string_prefix(), "");
    assert_eq!(Polarity::Negative.to_string_prefix(), "мы");
    assert_eq!(Polarity::Positive.to_string_suffix(), "");
    assert_eq!(Polarity::Negative.to_string_suffix(), "къым");
    let neg: Morpheme<String> = Morpheme::new_negative_prefix();
    assert_eq!(neg.to_string(), Polarity::Negative.to_string_prefix());
}

#[test]
fn marker_base_strings() {
    let table = [
        (Person::First, Number::Singular, Case::Absolutive, "сы"),
        (Person::Second, Number::Singular, Case::Absolutive, "у"),
        (Person::Third, Number::Singular, Case::Absolutive, ""),
        (Person::First, Number::Plural, Case::Absolutive, "ды"),
        (Person::Second, Number::Plural, Case::Absolutive, "фы"),
        (Person::Third, Number::Plural, Case::Absolutive, ""),
        (Person::First, Number::Singular, Case::Ergative, "с"),
        (Person::Second, Number::Singular, Case::Ergative, "б"),
        (Person::Third, Number::Singular, Case::Ergative, "и"),
        (Person::First, Number::Plural, Case::Ergative, "д"),
        (Person::Second, Number::Plural, Case::Ergative, "ф"),
        (Person::Third, Number::Plural, Case::Ergative, "я"),
    ];
    for (p, n, c, s) in table {
        let m = marker(p, n, c);
        assert_eq!(m.base_string(), s);
        // Empty exactly for the third person absolutive.
        assert_eq!(m.base_string().is_empty(), p == Person::Third && c == Case::Absolutive);
    }
}

#[test]
fn marker_predicates() {
    let m = marker(Person::Third, Number::Singular, Case::Ergative);
    assert!(m.is_third());
    assert!(!m.is_second_singular());
    assert!(m.is_third_ergative());
    assert!(m.is_third_singular_ergative());
    assert!(!m.is_third_plural_ergative());
    assert!(m.is_ergative());
    assert!(!m.is_absolutive());
    let m = marker(Person::Second, Number::Singular, Case::Absolutive);
    assert!(!m.is_third());
    assert!(m.is_second_singular());
    assert!(!m.is_third_ergative());
    assert!(!m.is_ergative());
    assert!(m.is_absolutive());
    let m = marker(Person::Third, Number::Plural, Case::Ergative);
    assert!(m.is_third_plural_ergative());
    assert!(!m.is_third_singular_ergative());
}

#[test]
fn voiced_forms() {
    assert_eq!(marker(Person::First, Number::Singular, Case::Absolutive).base_string_as_voiced(), "зы");
    assert_eq!(marker(Person::Second, Number::Plural, Case::Absolutive).base_string_as_voiced(), "вы");
    assert_eq!(marker(Person::Second, Number::Plural, Case::Ergative).base_string_as_voiced(), "в");
    assert_eq!(marker(Person::First, Number::Plural, Case::Ergative).base_string_as_voiced(), "д");
    assert_eq!(marker(Person::Third, Number::Singular, Case::Ergative).base_string_as_voiced(), "и");
}

#[test]
fn voiceless_forms() {
    assert_eq!(marker(Person::Second, Number::Singular, Case::Ergative).base_string_as_voiceless(), "п");
    assert_eq!(marker(Person::First, Number::Plural, Case::Absolutive).base_string_as_voiceless(), "ты");
    assert_eq!(marker(Person::First, Number::Singular, Case::Absolutive).base_string_as_voiceless(), "сы");
}

#[test]
fn after_consonant_forms() {
    assert_eq!(marker(Person::Third, Number::Plural, Case::Ergative).base_string_as_after_consonant(), "а");
    assert_eq!(marker(Person::Second, Number::Plural, Case::Absolutive).base_string_as_after_consonant(), "фы");
}

#[test]
fn sound_forms_keep_length() {
    for p in Person::variants() {
        for n in Number::variants() {
            let m = marker(p, n, Case::Ergative);
            if !(p == Person::Third && n == Number::Plural) {
                assert_eq!(m.base_string_as_voiced().chars().count(), m.base_string().chars().count());
                assert_eq!(m.base_string_as_voiceless().chars().count(), m.base_string().chars().count());
            }
        }
    }
}

#[test]
fn before_o_forms() {
    assert_eq!(marker(Person::First, Number::Singular, Case::Absolutive).base_string_as_before_o(), "с");
    assert_eq!(marker(Person::Second, Number::Singular, Case::Absolutive).base_string_as_before_o(), "у");
    assert_eq!(marker(Person::Third, Number::Plural, Case::Absolutive).base_string_as_before_o(), "");
    assert_eq!(marker(Person::Third, Number::Plural, Case::Ergative).base_string_as_before_o(), "я");
}

#[test]
fn before_o_is_ergative_form() {
    for (p, n) in [
        (Person::First, Number::Singular),
        (Person::First, Number::Plural),
        (Person::Second, Number::Plural),
    ] {
        assert_eq!(
            marker(p, n, Case::Absolutive).base_string_as_before_o(),
            marker(p, n, Case::Ergative).base_string()
        );
    }
}

#[test]
fn preverb_forms() {
    let p = preverb("къэ");
    assert_eq!(p.get_form(&PreverbSoundForm::Full), "къэ");
    assert_eq!(p.get_form(&PreverbSoundForm::Reduced), "къы");
    assert_eq!(p.get_form(&PreverbSoundForm::BeforeVowel), "къ");
    let p = preverb("хы");
    assert_eq!(p.get_form(&PreverbSoundForm::Full), "хы");
    assert_eq!(p.get_form(&PreverbSoundForm::Reduced), "хы");
    assert_eq!(p.get_form(&PreverbSoundForm::BeforeVowel), "х");
    // Only the full form is owed for a preverb without a final vowel.
    assert_eq!(preverb("щ").get_form(&PreverbSoundForm::Full), "щ");
}

#[test]
fn preverb_forms_share_all_but_final_vowel() {
    for base in ["къэ", "дэ", "хы", "щы"] {
        let p = preverb(base);
        let before_vowel = p.get_form(&PreverbSoundForm::BeforeVowel);
        assert_eq!(p.get_form(&PreverbSoundForm::Reduced), before_vowel.clone() + "ы");
        let last = base.chars().last().unwrap();
        assert_eq!(p.get_form(&PreverbSoundForm::Full), format!("{}{}", before_vowel, last));
    }
}

#[test]
fn morpheme_texts() {
    let m: Morpheme<String> = Morpheme::new_generic("н");
    assert_eq!(m.to_string(), "н");
    assert_eq!(m.kind, MorphemeKind::Generic("н".to_string()));
    let m: Morpheme<String> = Morpheme::new_imperative_raj();
    assert_eq!(m.to_string(), "ре");
    let m: Morpheme<String> = Morpheme::new_negative_prefix();
    assert_eq!(m.kind.to_string(), "мы");
    let m: Morpheme<String> = Morpheme::new_preverb(&preverb("къэ"));
    assert_eq!(m.to_string(), "къэ");
    assert_eq!(m.kind, MorphemeKind::Preverb(preverb("къэ")));
    let mk = marker(Person::Second, Number::Plural, Case::Absolutive);
    let m: Morpheme<String> = Morpheme::new_person_marker(&mk);
    assert_eq!(m.to_string(), "фы");
    assert_eq!(m.kind, MorphemeKind::PersonMarker(mk));
    let m: Morpheme<String> = Morpheme {
        kind: MorphemeKind::Stem(stem(), ROOT.to_string()),
    };
    assert_eq!(m.to_string(), ROOT);
}

#[test]
fn masdar_layouts() {
    let r = new_masdar(&Polarity::Positive, &None, &stem());
    assert_eq!(texts(&r), vec![ROOT, "н"]);
    let r = new_masdar(&Polarity::Negative, &Some(preverb("къэ")), &stem());
    assert_eq!(texts(&r), vec!["къэ", "мы", ROOT, "н"]);
    assert!(matches!(&r[2].kind, MorphemeKind::Stem(s, _) if s == "тх"));
}

#[test]
fn imperative_raj_layouts() {
    let r = new_imperative_raj(&Polarity::Positive, &None, &stem(), &Person::First, &Number::Plural);
    assert_eq!(texts(&r), vec!["д", "ре", ROOT]);
    let r = new_imperative_raj(&Polarity::Negative, &None, &stem(), &Person::Third, &Number::Plural);
    assert_eq!(texts(&r), vec!["и", "ре", "мы", ROOT]);
    assert_eq!(
        r[0].kind,
        MorphemeKind::PersonMarker(marker(Person::Third, Number::Singular, Case::Ergative))
    );
}

#[test]
fn raj_imperative_third_person_with_preverb_has_no_marker() {
    let r = new_imperative_raj(
        &Polarity::Positive,
        &Some(preverb("къэ")),
        &stem(),
        &Person::Third,
        &Number::Singular,
    );
    assert_eq!(texts(&r), vec!["къэ", "ре", ROOT]);
    assert!(!r.iter().any(|m| matches!(m.kind, MorphemeKind::PersonMarker(_))));
    let r = new_imperative_raj(
        &Polarity::Positive,
        &Some(preverb("къэ")),
        &stem(),
        &Person::Second,
        &Number::Singular,
    );
    assert_eq!(texts(&r), vec!["б", "къэ", "ре", ROOT]);
}

#[test]
fn masdar_personal_layouts() {
    let abs = marker(Person::First, Number::Singular, Case::Absolutive);
    let erg = Some(marker(Person::Second, Number::Plural, Case::Absolutive));
    let r = new_masdar_personal(&Polarity::Negative, &Some(preverb("къэ")), &stem(), &abs, &erg);
    assert_eq!(texts(&r), vec!["сы", "къэ", "ф", "мы", ROOT, "н"]);
    let abs = marker(Person::Third, Number::Plural, Case::Absolutive);
    let r = new_masdar_personal(&Polarity::Positive, &None, &stem(), &abs, &None);
    assert_eq!(texts(&r), vec![ROOT, "н"]);
}

#[test]
fn imperative_layouts() {
    let abs = marker(Person::First, Number::Plural, Case::Absolutive);
    let erg = Some(marker(Person::First, Number::Singular, Case::Ergative));
    let r = new_imperative(&Polarity::Positive, &None, &stem(), &abs, &erg);
    assert_eq!(texts(&r), vec!["фы", "б", ROOT]);
    let abs = marker(Person::Third, Number::Singular, Case::Absolutive);
    let erg = Some(marker(Person::Second, Number::Singular, Case::Ergative));
    let r = new_imperative(&Polarity::Negative, &Some(preverb("къэ")), &stem(), &abs, &erg);
    assert_eq!(texts(&r), vec!["къэ", "мы", ROOT]);
    let erg = Some(marker(Person::Second, Number::Plural, Case::Ergative));
    let r = new_imperative(&Polarity::Negative, &None, &stem(), &abs, &erg);
    assert_eq!(texts(&r), vec!["ф", "мы", ROOT]);
}

#[test]
fn indicative_layouts() {
    let abs = marker(Person::First, Number::Singular, Case::Absolutive);
    let erg = Some(marker(Person::Third, Number::Singular, Case::Absolutive));
    let r = new_indicative(&Polarity::Positive, &Tense::Present, &None, &stem(), &abs, &erg);
    assert_eq!(texts(&r), vec!["сы", "и", "о", ROOT, "р"]);
    let abs = marker(Person::Third, Number::Singular, Case::Absolutive);
    let r = new_indicative(
        &Polarity::Negative,
        &Tense::Present,
        &Some(preverb("къэ")),
        &stem(),
        &abs,
        &None,
    );
    assert_eq!(texts(&r), vec!["къэ", ROOT, "ркъым"]);
    let r = new_indicative(&Polarity::Positive, &Tense::FastPast2, &None, &stem(), &abs, &None);
    assert_eq!(texts(&r), vec![ROOT, "гъат"]);
}

#[test]
fn negative_indicative_suffixes_end_in_negation() {
    let abs = marker(Person::Third, Number::Singular, Case::Absolutive);
    let negation = Polarity::Negative.to_string_suffix();
    for t in Tense::variants() {
        let r = new_indicative(&Polarity::Negative, &t, &None, &stem(), &abs, &None);
        let suffix = r[r.len() - 1].to_string();
        assert!(suffix.ends_with(&negation), "{}", suffix);
    }
}

#[test]
fn interrogative_layouts() {
    let abs = marker(Person::Second, Number::Singular, Case::Absolutive);
    let erg = Some(marker(Person::First, Number::Plural, Case::Absolutive));
    let r = new_interrogative(&Polarity::Positive, &Tense::Present, &None, &stem(), &abs, &erg);
    assert_eq!(texts(&r), vec!["у", "д", ROOT, "рэ"]);
    let r = new_interrogative(&Polarity::Positive, &Tense::Aorist1, &None, &stem(), &abs, &None);
    assert_eq!(texts(&r), vec!["у", ROOT]);
    let r = new_interrogative(&Polarity::Negative, &Tense::Perfect, &None, &stem(), &abs, &None);
    assert_eq!(texts(&r), vec!["у", ROOT]);
}

fn all_forms(polarity: Polarity) -> Vec<VecDeque<Morpheme<String>>> {
    let abs3 = marker(Person::Third, Number::Plural, Case::Absolutive);
    let abs1 = marker(Person::First, Number::Singular, Case::Absolutive);
    let erg = Some(marker(Person::Third, Number::Plural, Case::Ergative));
    let pv = Some(preverb("къэ"));
    let mut forms = vec![
        new_masdar(&polarity, &pv, &stem()),
        new_imperative_raj(&polarity, &None, &stem(), &Person::Third, &Number::Plural),
        new_masdar_personal(&polarity, &pv, &stem(), &abs3, &erg),
        new_masdar_personal(&polarity, &None, &stem(), &abs1, &None),
        new_imperative(&polarity, &pv, &stem(), &abs3, &erg),
    ];
    for t in Tense::variants() {
        forms.push(new_indicative(&polarity, &t, &pv, &stem(), &abs3, &erg));
        forms.push(new_interrogative(&polarity, &t, &None, &stem(), &abs1, &None));
    }
    forms
}

#[test]
fn templates_carry_single_stem() {
    for polarity in Polarity::variants() {
        for form in all_forms(polarity) {
            assert_eq!(stem_count(&form), 1);
        }
    }
}

#[test]
fn templates_leave_out_empty_markers() {
    for polarity in Polarity::variants() {
        for form in all_forms(polarity) {
            for m in form.iter() {
                if let MorphemeKind::PersonMarker(pm) = &m.kind {
                    assert!(!pm.base_string().is_empty());
                }
            }
        }
    }
}

#[test]
fn negation_prefix_marks_negative() {
    for polarity in Polarity::variants() {
        let forms = all_forms(polarity);
        for (i, form) in forms.iter().enumerate() {
            if i < 5 {
                assert_eq!(has_negation(form), polarity == Polarity::Negative);
            } else {
                assert!(!has_negation(form));
            }
        }
    }
}

#[test]
fn moods_ignore_given_marker_cases() {
    for t in Tense::variants() {
        for polarity in Polarity::variants() {
            let a1 = marker(Person::First, Number::Plural, Case::Absolutive);
            let a2 = marker(Person::First, Number::Plural, Case::Ergative);
            let e1 = Some(marker(Person::Second, Number::Singular, Case::Ergative));
            let e2 = Some(marker(Person::Second, Number::Singular, Case::Absolutive));
            let x = new_indicative(&polarity, &t, &None, &stem(), &a1, &e1);
            let y = new_indicative(&polarity, &t, &None, &stem(), &a2, &e2);
            assert_eq!(texts(&x), texts(&y));
            let x = new_interrogative(&polarity, &t, &None, &stem(), &a1, &e1);
            let y = new_interrogative(&polarity, &t, &None, &stem(), &a2, &e2);
            assert_eq!(texts(&x), texts(&y));
        }
    }
}

#[test]
fn impersonal_masdar_personal_is_masdar() {
    let abs = marker(Person::Third, Number::Singular, Case::Absolutive);
    for polarity in Polarity::variants() {
        for pv in [None, Some(preverb("къэ"))] {
            let x = new_masdar_personal(&polarity, &pv, &stem(), &abs, &None);
            let y = new_masdar(&polarity, &pv, &stem());
            assert_eq!(texts(&x), texts(&y));
        }
    }
}

#[test]
fn raj_imperative_third_plural_is_singular() {
    for polarity in Polarity::variants() {
        for pv in [None, Some(preverb("къэ"))] {
            let x = new_imperative_raj(&polarity, &pv, &stem(), &Person::Third, &Number::Plural);
            let y = new_imperative_raj(&polarity, &pv, &stem(), &Person::Third, &Number::Singular);
            assert_eq!(texts(&x), texts(&y));
            for m in x.iter() {
                if let MorphemeKind::PersonMarker(pm) = &m.kind {
                    assert_eq!(pm.case, Case::Ergative);
                    assert!(!(pm.person == Person::Third && pm.number == Number::Plural));
                }
            }
        }
    }
}

#[test]
fn reduced_preverb_ends_in_y() {
    for base in ["къэ", "хы"] {
        let p = preverb(base);
        let r = p.get_form(&PreverbSoundForm::Reduced);
        assert!(r.ends_with('ы'));
        assert_eq!(r.chars().count(), base.chars().count());
    }
    assert_eq!(preverb("хы").get_form(&PreverbSoundForm::Reduced), "хы");
}
