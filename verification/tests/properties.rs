use sumerian_verb::{
    available_verb_stems, build_verb, ends_with_vowel, find_verb, new_slots,
    starts_with_consonant, AdverbialPrefix, Coordinator, DimensionalPrefixes, FinalPersonPrefix,
    FinalVerbImpl, FiniteVerbalForm, LocativePrefix, MarkerName, MiddlePrefix, Person,
    Preformative, VerbError,
};

// Synthesis is deterministic: the same descriptor, synthesized twice,
// produces identical output.
#[test]
fn determinism() {
    let mut verb = FiniteVerbalForm::from_stem(String::from("kar"));
    verb.is_perfective();
    verb.is_transitive();
    verb.set_subject(Person::ThirdSingHuman).unwrap();
    verb.set_object(Person::ThirdSingNonHuman).unwrap();
    verb.set_ventive();
    let first = verb.print();
    let second = verb.print();
    assert_eq!(first, second);
    assert_eq!(Ok(String::from("munkar")), first);
}

// Transitive + perfective: the subject's marker (n) stands strictly before
// the stem, the object's marker is empty after it. Transitive +
// imperfective: the object's marker (b) stands before the stem, the
// subject's (n, from en) after.
#[test]
fn alignment_positions() {
    let mut verb = FiniteVerbalForm::from_stem(String::from("ak"));
    verb.is_perfective();
    verb.is_transitive();
    verb.set_subject(Person::ThirdSingHuman).unwrap();
    verb.set_object(Person::ThirdSingNonHuman).unwrap();
    assert_eq!(Ok(String::from("nak")), verb.print());

    let mut verb = FiniteVerbalForm::from_stem(String::from("bala"));
    verb.is_imperfective(None);
    verb.is_transitive();
    verb.set_subject(Person::FirstSing).unwrap();
    verb.set_object(Person::ThirdSingNonHuman).unwrap();
    assert_eq!(Ok(String::from("bbalan")), verb.print());
}

// An empty stem always fails with EmptyStem.
#[test]
fn empty_stem_fails() {
    let verb = FiniteVerbalForm::from_stem(String::new());
    assert_eq!(Err(VerbError::EmptyStem), verb.print());

    let mut verb = FiniteVerbalForm::new(String::new(), true, true);
    verb.set_subject(Person::ThirdSingHuman).unwrap();
    verb.set_ventive();
    assert_eq!(Err(VerbError::EmptyStem), verb.print());
}

// Setting an object on an intransitive descriptor fails with
// InvalidArgument and leaves the descriptor unchanged.
#[test]
fn object_on_intransitive_fails() {
    let mut verb = FiniteVerbalForm::from_stem(String::from("gub"));
    verb.is_perfective();
    verb.is_intransitive();
    verb.set_subject(Person::ThirdSingHuman).unwrap();
    let before = verb.clone();
    assert_eq!(Err(VerbError::InvalidArgument), verb.set_object(Person::ThirdSingNonHuman));
    assert_eq!(before, verb);
    assert_eq!(Ok(String::from("gub")), verb.print());
}

// Requesting both ablative and terminative in one bundle fails before
// anything is populated.
#[test]
fn ablative_terminative_exclusion() {
    let bundle = DimensionalPrefixes::new(None, false, None, true, true);
    assert_eq!(Err(VerbError::InvalidArgument), bundle);

    let bundle = DimensionalPrefixes::new(Some(Person::ThirdSingHuman), true, None, true, false)
        .unwrap();
    assert_eq!(Some(Person::ThirdSingHuman), bundle.indirect_object);
    assert!(bundle.comitative);
    assert!(bundle.ablative);
    assert!(!bundle.terminative);
    assert_eq!(None, bundle.locative);
}

// A plural person routed to the prefix slot is rejected as Unsupported and
// leaves the descriptor unchanged.
#[test]
fn plural_in_prefix_slot_unsupported() {
    let mut verb = FiniteVerbalForm::from_stem(String::from("ak"));
    verb.is_perfective();
    verb.is_transitive();
    let before = verb.clone();
    assert_eq!(Err(VerbError::Unsupported), verb.set_subject(Person::FirstPlur));
    assert_eq!(before, verb);

    let mut verb = FiniteVerbalForm::from_stem(String::from("ak"));
    verb.is_imperfective(None);
    verb.is_transitive();
    verb.set_subject(Person::ThirdSingHuman).unwrap();
    let before = verb.clone();
    assert_eq!(Err(VerbError::Unsupported), verb.set_object(Person::ThirdPlurHuman));
    assert_eq!(before, verb);
}

// The third-singular non-human initial person prefix next to the ventive
// with only a locative marker is the configuration the rule set leaves
// unresolved: synthesis reports Unsupported.
#[test]
fn unresolved_initial_person_config() {
    let mut verb = FiniteVerbalForm::from_stem(String::from("ak"));
    verb.is_perfective();
    verb.is_intransitive();
    verb.set_subject(Person::ThirdSingHuman).unwrap();
    verb.set_ventive();
    verb.set_initial_person_prefix(Some(Person::ThirdSingNonHuman));
    verb.set_locative_in(None);
    assert_eq!(Err(VerbError::Unsupported), verb.print());
}

// The coordinator and subordinator slots are carried by the descriptor but
// never surface in the concatenation.
#[test]
fn silent_slots() {
    let mut verb = FiniteVerbalForm::from_stem(String::from("zu"));
    verb.is_perfective();
    verb.is_transitive();
    verb.set_subject(Person::ThirdSingHuman).unwrap();
    verb.set_coordinator(Some(Coordinator));
    verb.set_subordinator(true);
    assert_eq!(Ok(String::from("nzu")), verb.print());
    assert_eq!(String::from("a"), verb.print_subordinator());
    verb.set_subordinator(false);
    assert_eq!(String::from(""), verb.print_subordinator());
}

// The aspect suffix marker reduces to its consonantal form after a
// vowel-final stem and stays full after a consonant-final one.
#[test]
fn ed_marker_allomorphs() {
    let mut verb = FiniteVerbalForm::from_stem(String::from("zu"));
    verb.is_perfective();
    verb.is_intransitive();
    verb.set_ed_marker(Some(String::from("ed")));
    assert_eq!(Ok(String::from("zud")), verb.print());

    let mut verb = FiniteVerbalForm::from_stem(String::from("gub"));
    verb.is_perfective();
    verb.is_intransitive();
    verb.set_ed_marker(Some(String::from("ed")));
    assert_eq!(Ok(String::from("gubed")), verb.print());
}

#[test]
fn lexicon_lookup() {
    let entry = find_verb("tuku").unwrap();
    assert_eq!(String::from("tuku"), entry.stem);
    assert_eq!(String::from("to have"), entry.meaning);
    assert!(entry.transitive);
    assert_eq!(String::from("tuku"), entry.sing.perf);
    assert_eq!(String::from("tuktuku"), entry.sing.imperf);

    let entry = find_verb("ĝen").unwrap();
    assert!(!entry.transitive);
    assert_eq!(String::from("du"), entry.sing.imperf);
    assert_eq!(String::from("er"), entry.plur.perf);

    assert_eq!(Err(VerbError::NotFound), find_verb("kar"));
}

#[test]
fn lexicon_stems() {
    let stems = available_verb_stems();
    assert_eq!(9, stems.len());
    assert_eq!(String::from("gub"), stems[0]);
    assert_eq!(String::from("zig"), stems[8]);
    assert!(stems.contains(&String::from("tuku")));
}

// The batch entry point resolves the lexicon and synthesizes in one call.
#[test]
fn batch_known_stem() {
    let out = build_verb(
        "tuku",
        false,
        true,
        Person::ThirdSingHuman,
        Some(Person::ThirdSingNonHuman),
        None,
        Some(Preformative::I),
        None,
        false,
        false,
        false,
        DimensionalPrefixes::all_false(),
    );
    assert_eq!(Ok(String::from("intuku")), out);
}

// An unknown citation form is used as the stem itself when a transitivity
// override is supplied, and is NotFound otherwise.
#[test]
fn batch_unknown_stem() {
    let out = build_verb(
        "kar",
        false,
        true,
        Person::ThirdSingHuman,
        Some(Person::ThirdSingNonHuman),
        Some(true),
        None,
        None,
        false,
        true,
        false,
        DimensionalPrefixes::all_false(),
    );
    assert_eq!(Ok(String::from("munkar")), out);

    let out = build_verb(
        "kar",
        false,
        true,
        Person::ThirdSingHuman,
        None,
        None,
        None,
        None,
        false,
        false,
        false,
        DimensionalPrefixes::all_false(),
    );
    assert_eq!(Err(VerbError::NotFound), out);
}

// The batch entry point applies a dimensional-prefix bundle and routes the
// subject by the alignment rule.
#[test]
fn batch_with_bundle() {
    let out = build_verb(
        "gub",
        false,
        true,
        Person::ThirdPlurNonHuman,
        None,
        None,
        None,
        None,
        false,
        false,
        true,
        DimensionalPrefixes::with_indirect_object(Person::ThirdPlurHuman),
    );
    assert_eq!(Ok(String::from("bannēgub")), out);
}

// Batch-level rejections: a plural subject in the prefix slot, and an
// object on an intransitive resolution.
#[test]
fn batch_rejections() {
    let out = build_verb(
        "tuku",
        false,
        true,
        Person::FirstPlur,
        None,
        None,
        None,
        None,
        false,
        false,
        false,
        DimensionalPrefixes::all_false(),
    );
    assert_eq!(Err(VerbError::Unsupported), out);

    let out = build_verb(
        "gub",
        false,
        true,
        Person::ThirdSingHuman,
        Some(Person::ThirdSingNonHuman),
        None,
        None,
        None,
        false,
        false,
        false,
        DimensionalPrefixes::all_false(),
    );
    assert_eq!(Err(VerbError::InvalidArgument), out);
}

#[test]
fn character_classes() {
    assert!(ends_with_vowel("bala"));
    assert!(ends_with_vowel("ḫē"));
    assert!(!ends_with_vowel("šum"));
    assert!(!ends_with_vowel(""));
    assert!(starts_with_consonant("gub"));
    assert!(starts_with_consonant("šum"));
    assert!(!starts_with_consonant("ak"));
    assert!(!starts_with_consonant(""));
}

#[test]
fn marker_positions() {
    assert_eq!(0, MarkerName::FirstPrefix.position());
    assert_eq!(3, MarkerName::Ventive.position());
    assert_eq!(11, MarkerName::Stem.position());
    assert_eq!(14, MarkerName::Subordinator.position());
    assert_eq!(
        Ok(MarkerName::LocativePrefix),
        <Vec<String> as FinalVerbImpl>::name_by_position(9)
    );
    assert_eq!(Err(()), <Vec<String> as FinalVerbImpl>::name_by_position(15));
}

// The working slot array: writes land in their slots, the nearest-filled
// queries scan over empty slots, and printing concatenates in order.
#[test]
fn slot_array_operations() {
    let mut fv = new_slots();
    assert_eq!(None, fv.find_first_morpheme());
    fv.add_stem(String::from("kar"));
    fv.add_ventive(String::from("mu"));
    fv.add_final_ps_suffix(String::from("en"));
    assert_eq!(Some(String::from("mu")), fv.find_previous_morphem(11));
    assert_eq!(None, fv.find_previous_morphem(3));
    assert_eq!(
        Some((String::from("kar"), MarkerName::Stem)),
        fv.find_following_morphem(4)
    );
    assert_eq!(Some(String::from("mu")), fv.find_first_morpheme());
    assert_eq!(Some(String::from("en")), fv.find_final_ps_suffix());
    assert_eq!(String::from("mukaren"), fv.print());
}

#[test]
fn surface_tables() {
    assert_eq!(String::from("a"), Preformative::A.output());
    assert_eq!(String::from("i"), Preformative::I.output());
    assert_eq!(String::from("u"), Preformative::U.output());
    assert_eq!(String::from("ʔ"), FinalPersonPrefix::FirstSingHuman.output());
    assert_eq!(String::from("b"), FinalPersonPrefix::ThirdSingNonHuman.output());
}

// The four locative variants: with an initial person the provisional form
// stands, without one the finalization rewrites it by slot 11's occupancy.
#[test]
fn locative_variants() {
    // bi: on, with initial person, slot 11 filled
    let mut verb = FiniteVerbalForm::from_stem(String::from("řu"));
    verb.is_perfective();
    verb.is_transitive();
    verb.set_subject(Person::ThirdSingHuman).unwrap();
    verb.set_locative_on(Some(Person::ThirdSingNonHuman));
    assert_eq!(Ok(String::from("binřu")), verb.print());

    // on, without initial person, slot 11 filled: zero realization
    let mut verb = FiniteVerbalForm::from_stem(String::from("řu"));
    verb.is_perfective();
    verb.is_transitive();
    verb.set_subject(Person::ThirdSingHuman).unwrap();
    verb.set_locative_on(None);
    assert_eq!(Ok(String::from("nřu")), verb.print());

    // on, without initial person, slot 11 empty: e
    let mut verb = FiniteVerbalForm::from_stem(String::from("řu"));
    verb.is_perfective();
    verb.is_intransitive();
    verb.set_subject(Person::ThirdSingHuman).unwrap();
    verb.set_locative_on(None);
    assert_eq!(Ok(String::from("eřu")), verb.print());

    // in, without initial person, slot 11 empty: n
    let mut verb = FiniteVerbalForm::from_stem(String::from("řu"));
    verb.is_perfective();
    verb.is_intransitive();
    verb.set_subject(Person::ThirdSingHuman).unwrap();
    verb.set_locative_in(None);
    assert_eq!(Ok(String::from("nřu")), verb.print());

    // in, with initial person: empty realization
    let mut verb = FiniteVerbalForm::from_stem(String::from("řu"));
    verb.is_perfective();
    verb.is_intransitive();
    verb.set_subject(Person::ThirdSingHuman).unwrap();
    verb.set_locative_in(Some(Person::ThirdSingNonHuman));
    assert_eq!(Ok(String::from("řu")), verb.print());
}

// The locative variant of a bundle is carried into slot 10 unchanged.
#[test]
fn bundle_locative() {
    let bundle = DimensionalPrefixes::with_locative(LocativePrefix::InWithoutInitialPerson);
    let out = build_verb(
        "řu",
        false,
        true,
        Person::ThirdSingHuman,
        Some(Person::ThirdSingNonHuman),
        Some(true),
        None,
        None,
        false,
        true,
        false,
        bundle,
    );
    assert_eq!(Ok(String::from("mininřu")), out);
}

// The direct slot setters: adverbial prefix, final person prefix and final
// person suffix. In slot 11 the plural categories collapse onto their
// singular counterparts' surface forms; the suffix keeps them distinct.
#[test]
fn direct_slot_setters() {
    let mut verb = FiniteVerbalForm::new(String::from("kar"), true, false);
    verb.set_final_person_suffix(Some(Person::FirstPlur));
    verb.set_adverbial_prefix(Some(AdverbialPrefix::Terminative));
    verb.set_final_person_prefix(Some(Person::ThirdPlurHuman));
    assert_eq!(Ok(String::from("šinkarenden")), verb.print());
}

// The u-quality preformative surfaces as u.
#[test]
fn preformative_u() {
    let mut verb = FiniteVerbalForm::from_stem(String::from("zu"));
    verb.is_perfective();
    verb.is_intransitive();
    verb.set_subject(Person::ThirdSingHuman).unwrap();
    verb.set_preformative(Some(Preformative::U));
    assert_eq!(Ok(String::from("uzu")), verb.print());
}

// Each error kind carries its description.
#[test]
fn error_messages() {
    assert_eq!(String::from("Stem cannot be empty"), VerbError::EmptyStem.message());
    assert_eq!(
        String::from("Cannot set object for intransitive verb"),
        VerbError::InvalidArgument.message()
    );
    assert_eq!(
        String::from("Not implemented for plural person values"),
        VerbError::Unsupported.message()
    );
    assert_eq!(String::from("Verb not found in lexicon"), VerbError::NotFound.message());
}

// The middle prefix assimilates after the ventive.
#[test]
fn ventive_middle_assimilation() {
    let mut verb = FiniteVerbalForm::from_stem(String::from("kar"));
    verb.is_perfective();
    verb.is_transitive();
    verb.set_subject(Person::ThirdSingNonHuman).unwrap();
    verb.set_middle_prefix(Some(MiddlePrefix));
    verb.set_ventive();
    assert_eq!(Ok(String::from("mmabkar")), verb.print());
}
