use sumerian_verb::{FiniteVerbalForm, IpfvStem, MiddlePrefix, Person, Preformative};

#[test]
fn ak() {
    let stem = String::from("ak");

    let mut verb = FiniteVerbalForm::from_stem(stem.clone());
    verb.is_perfective();
    verb.is_transitive();
    verb.set_subject(Person::ThirdSingHuman).unwrap();
    verb.set_object(Person::ThirdSingNonHuman).unwrap();
    verb.set_ventive();
    assert_eq!(Ok(String::from("munak")), verb.print());

    // It was made with it
    let mut verb = FiniteVerbalForm::from_stem(stem.clone());
    verb.is_perfective();
    verb.is_intransitive();
    verb.set_subject(Person::ThirdSingHuman).unwrap();
    verb.set_comitative(Some(Person::ThirdSingNonHuman));
    verb.set_preformative(Some(Preformative::A));
    assert_eq!(Ok(String::from("abdaak")), verb.print());

    // He made it into it
    let mut verb = FiniteVerbalForm::from_stem(stem.clone());
    verb.is_perfective();
    verb.is_transitive();
    verb.set_subject(Person::ThirdSingHuman).unwrap();
    verb.set_object(Person::ThirdSingNonHuman).unwrap();
    verb.set_preformative(Some(Preformative::I));
    verb.set_terminative(Some(Person::ThirdSingNonHuman));
    assert_eq!(Ok(String::from("ibšinak")), verb.print());
}

#[test]
fn bala() {
    // I cross it
    let stem = String::from("bala");
    let mut verb = FiniteVerbalForm::from_stem(stem.clone());
    verb.is_imperfective(None);
    verb.is_transitive();
    verb.set_subject(Person::FirstSing).unwrap();
    verb.set_object(Person::ThirdSingNonHuman).unwrap();
    verb.set_preformative(Some(Preformative::I));
    assert_eq!(Ok(String::from("ibbalan")), verb.print());
}

#[test]
fn dah() {
    let stem = String::from("daḫ");
    // I shall add for you
    let mut verb = FiniteVerbalForm::from_stem(stem.clone());
    verb.is_imperfective(None);
    verb.is_transitive();
    verb.set_subject(Person::FirstSing).unwrap();
    verb.set_indirect_object(Person::SecondSing);
    verb.set_preformative(Some(Preformative::A));
    assert_eq!(Ok(String::from("aradaḫen")), verb.print());
}

#[test]
fn e() {
    // May he say it to him!
    let stem = String::from("ʔe");
    let mut verb = FiniteVerbalForm::from_stem(stem.clone());
    verb.is_imperfective(None);
    verb.is_transitive();
    verb.set_subject(Person::ThirdSingHuman).unwrap();
    verb.set_object(Person::ThirdSingNonHuman).unwrap();
    verb.set_indirect_object(Person::ThirdSingHuman);
    verb.set_preformative(Some(Preformative::I));
    verb.set_modal();
    assert_eq!(Ok(String::from("ḫēnnabʔee")), verb.print());
}

#[test]
fn e_grave() {
    // He must let it come out of him
    let stem = String::from("ʔè");
    let mut verb = FiniteVerbalForm::from_stem(stem.clone());
    verb.is_imperfective(Some(IpfvStem::EdMarker));
    verb.is_transitive();
    verb.set_subject(Person::ThirdSingHuman).unwrap();
    verb.set_ablative(Some(Person::ThirdSingHuman));
    verb.set_ventive();
    verb.set_modal();
    assert_eq!(Ok(String::from("ḫamuntaʔède")), verb.print());
}

#[test]
fn gal() {
    let stem = String::from("ĝal");
    // This is with him
    let mut verb = FiniteVerbalForm::from_stem(stem.clone());
    verb.is_perfective();
    verb.is_intransitive();
    verb.set_subject(Person::ThirdSingHuman).unwrap();
    verb.set_comitative(Some(Person::ThirdSingHuman));
    verb.set_preformative(Some(Preformative::I));
    assert_eq!(Ok(String::from("indaĝal")), verb.print());
}

#[test]
fn gar() {
    // He placed it from it
    let stem = String::from("ĝar");
    let mut verb = FiniteVerbalForm::from_stem(stem.clone());
    verb.is_perfective();
    verb.is_transitive();
    verb.set_subject(Person::ThirdSingHuman).unwrap();
    verb.set_object(Person::ThirdSingNonHuman).unwrap();
    verb.set_ablative(Some(Person::ThirdSingNonHuman));
    verb.set_preformative(Some(Preformative::I));
    assert_eq!(Ok(String::from("ibtanĝar")), verb.print());
}

#[test]
fn gen() {
    let stem = String::from("ĝen");
    // He came for him
    let mut verb = FiniteVerbalForm::from_stem(stem.clone());
    verb.is_perfective();
    verb.is_intransitive();
    verb.set_subject(Person::ThirdSingHuman).unwrap();
    verb.set_terminative(Some(Person::ThirdSingHuman));
    verb.set_ventive();
    assert_eq!(Ok(String::from("munšiĝen")), verb.print());

    // He came for it
    let mut verb = FiniteVerbalForm::from_stem(stem.clone());
    verb.is_perfective();
    verb.is_intransitive();
    verb.set_subject(Person::ThirdSingHuman).unwrap();
    verb.set_terminative(Some(Person::ThirdSingNonHuman));
    verb.set_ventive();
    verb.set_preformative(Some(Preformative::I));
    assert_eq!(Ok(String::from("imšiĝen")), verb.print());

    // He came to it
    let mut verb = FiniteVerbalForm::from_stem(stem.clone());
    verb.is_perfective();
    verb.is_intransitive();
    verb.set_subject(Person::ThirdSingHuman).unwrap();
    verb.set_indirect_object(Person::ThirdSingNonHuman);
    verb.set_preformative(Some(Preformative::I));
    verb.set_ventive();
    assert_eq!(Ok(String::from("immaĝen")), verb.print());
}

#[test]
fn gi() {
    let stem = String::from("gi");
    // He should send him to me
    let mut verb = FiniteVerbalForm::from_stem(stem.clone());
    verb.is_imperfective(Some(IpfvStem::Reduplicate));
    verb.is_transitive();
    verb.set_subject(Person::ThirdSingHuman).unwrap();
    verb.set_object(Person::ThirdSingHuman).unwrap();
    verb.set_terminative(Some(Person::FirstSing));
    verb.set_modal();
    assert_eq!(Ok(String::from("ḫamuʔšingi-gie")), verb.print());
}

#[test]
fn gub() {
    // They were caused to stand
    let stem = String::from("gub");
    let mut verb = FiniteVerbalForm::from_stem(stem.clone());
    verb.is_perfective();
    verb.is_intransitive();
    verb.set_subject(Person::ThirdPlurNonHuman).unwrap();
    verb.set_indirect_object(Person::ThirdPlurHuman);
    verb.set_middle_prefix(Some(MiddlePrefix));
    assert_eq!(Ok(String::from("bannēgub")), verb.print());
}

#[test]
fn hul() {
    let stem = String::from("hul");
    // He was happy about it
    let mut verb = FiniteVerbalForm::from_stem(stem.clone());
    verb.is_perfective();
    verb.is_intransitive();
    verb.set_subject(Person::ThirdSingHuman).unwrap();
    verb.set_comitative(Some(Person::ThirdSingNonHuman));
    verb.set_preformative(Some(Preformative::I));
    verb.set_ventive();
    assert_eq!(Ok(String::from("imdahul")), verb.print());
}

#[test]
fn kar() {
    // He took it away from me
    let stem = String::from("kar");
    let mut verb = FiniteVerbalForm::from_stem(stem.clone());
    verb.is_perfective();
    verb.is_transitive();
    verb.set_subject(Person::ThirdSingHuman).unwrap();
    verb.set_object(Person::ThirdSingNonHuman).unwrap();
    verb.set_comitative(Some(Person::FirstSing));
    verb.set_ventive();
    assert_eq!(Ok(String::from("muʔdankar")), verb.print());

    // He took her away from him
    let mut verb = FiniteVerbalForm::from_stem(stem.clone());
    verb.is_perfective();
    verb.is_transitive();
    verb.set_subject(Person::ThirdSingHuman).unwrap();
    verb.set_object(Person::ThirdSingHuman).unwrap();
    verb.set_middle_prefix(Some(MiddlePrefix));
    verb.set_comitative(Some(Person::ThirdSingHuman));
    assert_eq!(Ok(String::from("bandankar")), verb.print());
}

#[test]
fn kur() {
    let stem = String::from("kuř");
    let mut verb = FiniteVerbalForm::from_stem(stem.clone());
    verb.is_perfective();
    verb.is_intransitive();
    verb.set_subject(Person::ThirdSingNonHuman).unwrap();
    verb.set_middle_prefix(Some(MiddlePrefix));
    verb.set_comitative(Some(Person::SecondSing));
    assert_eq!(Ok(String::from("baadakuř")), verb.print());

    // He let her enter it for him
    let mut verb = FiniteVerbalForm::from_stem(stem.clone());
    verb.is_perfective();
    verb.is_transitive();
    verb.set_subject(Person::ThirdSingHuman).unwrap();
    verb.set_object(Person::ThirdSingNonHuman).unwrap();
    verb.set_indirect_object(Person::ThirdSingHuman);
    verb.set_ventive();
    verb.set_locative_in(None);
    assert_eq!(Ok(String::from("munnaninkuř")), verb.print());
}

#[test]
fn la() {
    let stem = String::from("lá");
    // It was weighed out for him
    let mut verb = FiniteVerbalForm::from_stem(stem.clone());
    verb.is_perfective();
    verb.is_intransitive();
    verb.set_subject(Person::ThirdSingNonHuman).unwrap();
    verb.set_indirect_object(Person::ThirdSingHuman);
    verb.set_preformative(Some(Preformative::A));
    assert_eq!(Ok(String::from("annalá")), verb.print());
}

#[test]
fn me() {
    let stem = String::from("me");
    // I am not
    let mut verb = FiniteVerbalForm::from_stem(stem.clone());
    verb.is_perfective();
    verb.is_intransitive();
    verb.set_subject(Person::FirstSing).unwrap();
    verb.set_negative();
    verb.set_preformative(Some(Preformative::I));
    assert_eq!(Ok(String::from("nuumen")), verb.print());
}

#[test]
fn rig() {
    // It was cleared
    let stem = String::from("rig");
    let mut verb = FiniteVerbalForm::from_stem(stem.clone());
    verb.is_perfective();
    verb.is_transitive();
    verb.set_subject(Person::ThirdSingNonHuman).unwrap();
    verb.set_middle_prefix(Some(MiddlePrefix));
    assert_eq!(Ok(String::from("babrig")), verb.print());

    // It was cleared away
    let mut verb = FiniteVerbalForm::from_stem(stem.clone());
    verb.is_perfective();
    verb.is_transitive();
    verb.set_subject(Person::ThirdSingNonHuman).unwrap();
    verb.set_middle_prefix(Some(MiddlePrefix));
    verb.set_ventive();
    verb.set_preformative(Some(Preformative::I));
    assert_eq!(Ok(String::from("immabrig")), verb.print());
}

#[test]
fn ru() {
    let stem = String::from("řu");
    // He erected them in it for him
    let mut verb = FiniteVerbalForm::from_stem(stem.clone());
    verb.is_perfective();
    verb.is_transitive();
    verb.set_subject(Person::ThirdSingHuman).unwrap();
    verb.set_object(Person::ThirdPlurNonHuman).unwrap();
    verb.set_indirect_object(Person::ThirdSingHuman);
    verb.set_locative_in(None);
    verb.set_ventive();
    assert_eq!(Ok(String::from("munnaninřu")), verb.print());

    // He erected it on it
    let mut verb = FiniteVerbalForm::from_stem(stem.clone());
    verb.is_perfective();
    verb.is_transitive();
    verb.set_subject(Person::ThirdSingHuman).unwrap();
    verb.set_object(Person::ThirdSingNonHuman).unwrap();
    verb.set_locative_on(Some(Person::ThirdSingNonHuman));
    assert_eq!(Ok(String::from("binřu")), verb.print());
}

#[test]
fn sa() {
    // He bought her from them
    let stem = String::from("sa");
    let mut verb = FiniteVerbalForm::from_stem(stem.clone());
    verb.is_perfective();
    verb.is_transitive();
    verb.set_subject(Person::ThirdSingHuman).unwrap();
    verb.set_object(Person::ThirdSingHuman).unwrap();
    verb.set_preformative(Some(Preformative::I));
    verb.set_terminative(Some(Person::ThirdPlurHuman));
    assert_eq!(Ok(String::from("innēšinsa")), verb.print());
}

#[test]
fn sig_sig() {
    let stem = String::from("sig-sig");
    // He put them in it
    let mut verb = FiniteVerbalForm::from_stem(stem.clone());
    verb.is_perfective();
    verb.is_transitive();
    verb.set_subject(Person::ThirdSingHuman).unwrap();
    verb.set_object(Person::ThirdSingNonHuman).unwrap();
    verb.set_ventive();
    verb.set_locative_in(None);
    assert_eq!(Ok(String::from("mininsig-sig")), verb.print());
}

#[test]
fn sug() {
    let stem = String::from("sug");
    // They stood for it
    let mut verb = FiniteVerbalForm::from_stem(stem.clone());
    verb.is_perfective();
    verb.is_intransitive();
    verb.set_subject(Person::ThirdPlurHuman).unwrap();
    verb.set_indirect_object(Person::ThirdSingNonHuman);
    assert_eq!(Ok(String::from("basugeš")), verb.print());
}

#[test]
fn shum() {
    // He gave to it
    let stem = String::from("šum");
    let mut verb = FiniteVerbalForm::from_stem(stem.clone());
    verb.is_perfective();
    verb.is_transitive();
    verb.set_subject(Person::ThirdSingHuman).unwrap();
    verb.set_indirect_object(Person::ThirdSingNonHuman);
    assert_eq!(Ok(String::from("banšum")), verb.print());

    // He gave it to it
    let mut verb = FiniteVerbalForm::from_stem(stem.clone());
    verb.is_imperfective(None);
    verb.is_transitive();
    verb.set_subject(Person::ThirdSingHuman).unwrap();
    verb.set_indirect_object(Person::ThirdSingNonHuman);
    verb.set_preformative(Some(Preformative::I));
    verb.set_ventive();
    assert_eq!(Ok(String::from("immašume")), verb.print());

    // He gave this to him
    let mut verb = FiniteVerbalForm::from_stem(stem.clone());
    verb.is_perfective();
    verb.is_transitive();
    verb.set_subject(Person::ThirdSingHuman).unwrap();
    verb.set_object(Person::ThirdSingNonHuman).unwrap();
    verb.set_preformative(Some(Preformative::I));
    verb.set_indirect_object(Person::ThirdSingHuman);
    assert_eq!(Ok(String::from("innanšum")), verb.print());

    // She gave it to him
    let mut verb = FiniteVerbalForm::from_stem(stem.clone());
    verb.is_perfective();
    verb.is_transitive();
    verb.set_subject(Person::ThirdSingHuman).unwrap();
    verb.set_object(Person::ThirdSingNonHuman).unwrap();
    verb.set_indirect_object(Person::ThirdSingHuman);
    verb.set_ventive();
    assert_eq!(Ok(String::from("munnanšum")), verb.print());

    // He will give it to you
    let mut verb = FiniteVerbalForm::from_stem(stem.clone());
    verb.is_imperfective(None);
    verb.is_transitive();
    verb.set_subject(Person::ThirdSingHuman).unwrap();
    verb.set_object(Person::ThirdSingNonHuman).unwrap();
    verb.set_indirect_object(Person::SecondSing);
    assert_eq!(Ok(String::from("rabšume")), verb.print());

    // Let him give it to you
    let mut verb = FiniteVerbalForm::from_stem(stem.clone());
    verb.is_imperfective(None);
    verb.is_transitive();
    verb.set_subject(Person::ThirdSingHuman).unwrap();
    verb.set_object(Person::ThirdSingNonHuman).unwrap();
    verb.set_indirect_object(Person::SecondSing);
    verb.set_modal();
    assert_eq!(Ok(String::from("ḫarabšume")), verb.print());

    // I did not give her to you
    let mut verb = FiniteVerbalForm::from_stem(stem.clone());
    verb.is_perfective();
    verb.is_transitive();
    verb.set_subject(Person::FirstSing).unwrap();
    verb.set_object(Person::ThirdSingHuman).unwrap();
    verb.set_indirect_object(Person::SecondSing);
    verb.set_negative();
    assert_eq!(Ok(String::from("nuraʔšum")), verb.print());
}

#[test]
fn ti() {
    let stem = String::from("ti");
    // He will let it approach towards you
    let mut verb = FiniteVerbalForm::from_stem(stem.clone());
    verb.is_imperfective(None);
    verb.is_transitive();
    verb.set_subject(Person::ThirdSingHuman).unwrap();
    verb.set_object(Person::ThirdSingNonHuman).unwrap();
    verb.set_terminative(Some(Person::SecondSing));
    verb.set_middle_prefix(Some(MiddlePrefix));
    assert_eq!(Ok(String::from("baašibtie")), verb.print());
}

#[test]
fn tuku() {
    let stem = String::from("tuku");
    // I had it
    let mut verb = FiniteVerbalForm::from_stem(stem.clone());
    verb.is_perfective();
    verb.is_transitive();
    verb.set_subject(Person::FirstSing).unwrap();
    verb.set_object(Person::ThirdSingNonHuman).unwrap();
    verb.set_preformative(Some(Preformative::I));
    assert_eq!(Ok(String::from("iʔtuku")), verb.print());

    // I have it
    let mut verb = FiniteVerbalForm::from_stem(stem.clone());
    verb.is_imperfective(Some(IpfvStem::Other(String::from("tuktuku"))));
    verb.is_transitive();
    verb.set_subject(Person::FirstSing).unwrap();
    verb.set_object(Person::ThirdSingNonHuman).unwrap();
    verb.set_preformative(Some(Preformative::I));
    assert_eq!(Ok(String::from("ibtuktukun")), verb.print());

    // You had me
    let mut verb = FiniteVerbalForm::from_stem(stem.clone());
    verb.is_perfective();
    verb.is_transitive();
    verb.set_subject(Person::SecondSing).unwrap();
    verb.set_object(Person::FirstSing).unwrap();
    verb.set_preformative(Some(Preformative::I));
    assert_eq!(Ok(String::from("iitukun")), verb.print());

    // They have it
    let mut verb = FiniteVerbalForm::from_stem(stem.clone());
    verb.is_imperfective(Some(IpfvStem::Other(String::from("tuktuku"))));
    verb.is_transitive();
    verb.set_subject(Person::ThirdPlurHuman).unwrap();
    verb.set_object(Person::ThirdSingNonHuman).unwrap();
    verb.set_preformative(Some(Preformative::I));
    assert_eq!(Ok(String::from("ibtuktukuš")), verb.print());

    // You do not have it with me
    let mut verb = FiniteVerbalForm::from_stem(stem.clone());
    verb.is_perfective();
    verb.is_transitive();
    verb.set_subject(Person::SecondSing).unwrap();
    verb.set_object(Person::ThirdSingNonHuman).unwrap();
    verb.set_comitative(Some(Person::FirstSing));
    verb.set_negative();
    assert_eq!(Ok(String::from("numuʔdaatuku")), verb.print());

    // He has it with us
    let mut verb = FiniteVerbalForm::from_stem(stem.clone());
    verb.is_perfective();
    verb.is_transitive();
    verb.set_subject(Person::ThirdSingHuman).unwrap();
    verb.set_object(Person::ThirdSingNonHuman).unwrap();
    verb.set_comitative(Some(Person::FirstPlur));
    assert_eq!(Ok(String::from("mēdantuku")), verb.print());
}

#[test]
fn ug() {
    // He is dying
    let stem = String::from("ug");
    let mut verb = FiniteVerbalForm::from_stem(stem.clone());
    verb.is_imperfective(Some(IpfvStem::EdMarker));
    verb.is_intransitive();
    verb.set_subject(Person::ThirdSingHuman).unwrap();
    verb.set_preformative(Some(Preformative::I));
    assert_eq!(Ok(String::from("uuged")), verb.print());
}

#[test]
fn zig() {
    let stem = String::from("zig");
    // They were raised from these
    let mut verb = FiniteVerbalForm::from_stem(stem.clone());
    verb.is_perfective();
    verb.is_intransitive();
    verb.set_subject(Person::ThirdPlurNonHuman).unwrap();
    verb.set_ablative(Some(Person::ThirdPlurNonHuman));
    verb.set_preformative(Some(Preformative::I));
    assert_eq!(Ok(String::from("ibtazig")), verb.print());
}

#[test]
fn zu() {
    // He truly knows
    let stem = String::from("zu");
    let mut verb = FiniteVerbalForm::from_stem(stem.clone());
    verb.is_perfective();
    verb.is_transitive();
    verb.set_subject(Person::ThirdSingHuman).unwrap();
    verb.set_object(Person::ThirdSingNonHuman).unwrap();
    verb.set_ventive();
    assert_eq!(Ok(String::from("munzu")), verb.print());

    let mut verb = FiniteVerbalForm::from_stem(stem.clone());
    verb.is_perfective();
    verb.is_transitive();
    verb.set_subject(Person::ThirdSingHuman).unwrap();
    verb.set_object(Person::ThirdSingNonHuman).unwrap();
    verb.set_ventive();
    assert_eq!(Ok(String::from("munzu")), verb.print());

    // I have not known it from you
    let mut verb = FiniteVerbalForm::from_stem(stem.clone());
    verb.is_perfective();
    verb.is_transitive();
    verb.set_subject(Person::FirstSing).unwrap();
    verb.set_object(Person::ThirdSingNonHuman).unwrap();
    verb.set_comitative(Some(Person::SecondSing));
    verb.set_negative();
    verb.set_ventive();
    assert_eq!(Ok(String::from("numuudaʔzu")), verb.print());
}
