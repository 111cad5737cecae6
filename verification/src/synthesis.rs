//! The executable synthesis pipeline: population of the slot array, the
//! seven phonological adjustment passes in their fixed order, and the final
//! concatenation. Each step is proved against its counterpart in
//! [`crate::model`].

use vstd::prelude::*;
use vstd::string::StrSliceExecFns;
use vstd::string::StringExecFns;

use crate::chars::{ends_with_vowel, str_begins_in, str_ends_in, str_eq};
use crate::lexicon::{find_verb, lex_lookup};
use crate::model;
use crate::slots::{new_slots, FinalVerbImpl, MarkerName};
use crate::verb::{
    final_prefix_of_person, indirect_object_of_person, initial_prefix_of_person, is_plural,
    object_suffix_of_person, suffix_of_person, AdverbialPrefix, ComitativePrefix,
    DimensionalPrefixes, FiniteVerbalForm, FinalPersonPrefix, FirstPrefix, IndirectObjectPrefix,
    InitialPersonPrefix, LocativePrefix, MiddlePrefix, Person, Preformative, VerbError, Ventive,
};

verus! {

/// The surface form of the initial person prefix (slot 6).
fn initial_person_output(p: &InitialPersonPrefix) -> (r: String)
    ensures
        r@ == model::initial_person_surface(*p),
{
    match p {
        InitialPersonPrefix::FirstSing => String::from_str("ʔ"),
        InitialPersonPrefix::SecondSing => String::from_str("e"),
        InitialPersonPrefix::ThirdSingHuman => String::from_str("n"),
        InitialPersonPrefix::ThirdSingNonHuman => String::from_str("b"),
        InitialPersonPrefix::FirstPlur => String::from_str("mē"),
        InitialPersonPrefix::SecondPlur => String::from_str("enē"),
        InitialPersonPrefix::ThirdPlurHuman => String::from_str("nnē"),
        InitialPersonPrefix::ThirdPlurNonHuman => String::from_str("b"),
    }
}

/// The surface form of the indirect-object prefix (slot 7).
fn indirect_object_output(p: &IndirectObjectPrefix) -> (r: String)
    ensures
        r@ == model::indirect_object_surface(*p),
{
    match p {
        IndirectObjectPrefix::FirstSing => String::from_str("ma"),
        IndirectObjectPrefix::SecondSing => String::from_str("ra"),
        IndirectObjectPrefix::ThirdSingHuman => String::from_str("nna"),
        IndirectObjectPrefix::ThirdSingNonHuman => String::from_str("ba"),
        IndirectObjectPrefix::FirstPlur => String::from_str("mē"),
        IndirectObjectPrefix::SecondPlur => String::from_str("ra"),
        IndirectObjectPrefix::ThirdPlurHuman => String::from_str("nnē"),
        IndirectObjectPrefix::ThirdPlurNonHuman => String::from_str("ba"),
    }
}

/// Writes the stem, the aspect suffix marker (reduced to `d` after a
/// vowel-final stem) and the final person suffix.
fn populate_stem_slots(v: &FiniteVerbalForm, fv: &mut Vec<String>)
    requires
        old(fv).wf(),
    ensures
        final(fv).wf(),
        final(fv).morphemes() == model::populate_stem_block(old(fv).morphemes(), *v),
{
    fv.add_stem(v.slot_12.clone());
    match &v.slot_13 {
        Some(marker) => {
            if ends_with_vowel(v.slot_12.as_str()) {
                fv.add_ed_marker(String::from_str("d"));
            } else {
                fv.add_ed_marker(marker.clone());
            }
        },
        None => (),
    }
    match &v.slot_14 {
        Some(suffix) => fv.add_final_ps_suffix(suffix.output(v)),
        None => (),
    }
}

/// Writes the negative or modal particle and the preformative.
fn populate_first_slots(v: &FiniteVerbalForm, fv: &mut Vec<String>)
    requires
        old(fv).wf(),
    ensures
        final(fv).wf(),
        final(fv).morphemes() == model::populate_first_block(old(fv).morphemes(), *v),
{
    match &v.slot_1 {
        Some(FirstPrefix::Negative) => fv.add_negative_prefix(),
        Some(FirstPrefix::Modal) => fv.add_modal_prefix(None),
        None => (),
    }
    match &v.slot_2 {
        Some(preformative) => fv.add_preformative_prefix(preformative.output()),
        None => (),
    }
}

/// Writes the ventive, the middle prefix, the initial person prefix and the
/// indirect-object prefix.
fn populate_person_slots(v: &FiniteVerbalForm, fv: &mut Vec<String>)
    requires
        old(fv).wf(),
    ensures
        final(fv).wf(),
        final(fv).morphemes() == model::populate_person_block(old(fv).morphemes(), *v),
{
    if v.slot_4.is_some() {
        fv.add_ventive(String::from_str("mu"));
    }
    if v.slot_5.is_some() {
        fv.add_middle_prefix(String::from_str("ba"));
    }
    match &v.slot_6 {
        Some(prefix) => fv.add_initial_person_prefix(initial_person_output(prefix)),
        None => (),
    }
    match &v.slot_7 {
        Some(prefix) => fv.add_indirect_object(indirect_object_output(prefix)),
        None => (),
    }
}

/// Writes the comitative, the ablative/terminative, and the provisional
/// locative.
fn populate_dimensional_slots(v: &FiniteVerbalForm, fv: &mut Vec<String>)
    requires
        old(fv).wf(),
    ensures
        final(fv).wf(),
        final(fv).morphemes() == model::populate_dimensional_block(old(fv).morphemes(), *v),
{
    if v.slot_8.is_some() {
        fv.add_comitative(String::from_str("da"));
    }
    match &v.slot_9 {
        Some(crate::verb::AdverbialPrefix::Ablative) => fv.add_ablative(),
        Some(crate::verb::AdverbialPrefix::Terminative) => fv.add_terminative(),
        None => (),
    }
    match &v.slot_10 {
        Some(prefix) => {
            let out = match prefix {
                LocativePrefix::InWithInitialPerson => String::new(),
                LocativePrefix::InWithoutInitialPerson => String::from_str("ni"),
                LocativePrefix::OnWithInitialPerson => String::from_str("bi"),
                LocativePrefix::OnWithoutInitialPerson => String::from_str("e"),
            };
            fv.add_locative_prefix(out);
        },
        None => (),
    }
}

/// Writes the straight-line slot values: one unadjusted surface string per
/// specified slot.
fn populate_core_slots(v: &FiniteVerbalForm, fv: &mut Vec<String>)
    requires
        old(fv).wf(),
        old(fv).morphemes() == model::empty_slots(),
    ensures
        final(fv).wf(),
        final(fv).morphemes() == model::populate_core(*v),
{
    populate_stem_slots(v, fv);
    populate_first_slots(v, fv);
    populate_person_slots(v, fv);
    populate_dimensional_slots(v, fv);
}

/// Writes the final person prefix (slot 11): the second-singular prefix
/// contracts with a preceding vowel-final morpheme, lengthening that vowel.
fn populate_final_prefix_slot(v: &FiniteVerbalForm, fv: &mut Vec<String>)
    requires
        old(fv).wf(),
    ensures
        final(fv).wf(),
        final(fv).morphemes() == model::populate_final_prefix(old(fv).morphemes(), *v),
{
    match &v.slot_11 {
        Some(prefix) => {
            let out = match prefix {
                FinalPersonPrefix::SecondSingHuman => {
                    match fv.find_previous_morphem(10) {
                        Some(morphem) => {
                            if str_ends_in(morphem.as_str(), 'a') {
                                String::from_str("a")
                            } else if str_ends_in(morphem.as_str(), 'i') {
                                String::from_str("i")
                            } else if str_ends_in(morphem.as_str(), 'u') {
                                String::from_str("u")
                            } else {
                                prefix.output()
                            }
                        },
                        None => prefix.output(),
                    }
                },
                _ => prefix.output(),
            };
            fv.add_final_ps_prefix(out);
        },
        None => (),
    }
}

/// The ventive prefix is always written before the first-singular initial
/// person prefix, in its default form.
fn apply_first_sing_ventive(v: &FiniteVerbalForm, fv: &mut Vec<String>)
    requires
        old(fv).wf(),
    ensures
        final(fv).wf(),
        final(fv).morphemes() == model::first_sing_ventive(old(fv).morphemes(), *v),
{
    if let Some(InitialPersonPrefix::FirstSing) = &v.slot_6 {
        fv.add_ventive(String::from_str("mu"));
    }
}

/// Pass 1 — ventive-triggered assimilation of the middle prefix and of the
/// non-human indirect-object prefixes.
fn apply_ventive_assimilation(v: &FiniteVerbalForm, fv: &mut Vec<String>)
    requires
        old(fv).wf(),
    ensures
        final(fv).wf(),
        final(fv).morphemes() == model::ventive_assimilation(old(fv).morphemes(), *v),
{
    if v.slot_4.is_some() {
        if v.slot_5.is_some() {
            fv.add_ventive(String::from_str("m"));
            fv.add_middle_prefix(String::from_str("ma"));
        }
        match &v.slot_7 {
            Some(IndirectObjectPrefix::ThirdSingNonHuman)
            | Some(IndirectObjectPrefix::ThirdPlurNonHuman) => {
                fv.add_ventive(String::from_str("m"));
                fv.add_indirect_object(String::from_str("ma"));
            },
            _ => (),
        }
    }
}

/// Pass 2 — preformative contraction with the modal particle, a preceding
/// u-final morpheme, or a directly following u-initial stem.
fn apply_preformative_contraction(v: &FiniteVerbalForm, fv: &mut Vec<String>)
    requires
        old(fv).wf(),
    ensures
        final(fv).wf(),
        final(fv).morphemes() == model::preformative_contraction(old(fv).morphemes(), *v),
{
    if v.slot_2.is_some() {
        let has_modal = match &v.slot_1 {
            Some(FirstPrefix::Modal) => true,
            _ => false,
        };
        if has_modal {
            if let Some(Preformative::I) = &v.slot_2 {
                fv.add_preformative_prefix(String::new());
                fv.add_modal_prefix(Some(String::from_str("ḫē")));
            }
        } else {
            match fv.find_previous_morphem(1) {
                Some(morphem) => {
                    if str_ends_in(morphem.as_str(), 'u') {
                        fv.add_preformative_prefix(String::from_str("u"));
                    }
                },
                None => {
                    match fv.find_following_morphem(2) {
                        Some((morphem, morphem_name)) => {
                            if str_begins_in(morphem.as_str(), 'u') && morphem_name
                                == MarkerName::Stem {
                                fv.add_preformative_prefix(String::from_str("u"));
                            }
                        },
                        None => (),
                    }
                },
            }
        }
    }
}

/// Pass 3 — final-person-suffix vowel reduction after a vowel-final
/// morpheme.
fn apply_suffix_reduction(v: &FiniteVerbalForm, fv: &mut Vec<String>)
    requires
        old(fv).wf(),
    ensures
        final(fv).wf(),
        final(fv).morphemes() == model::suffix_reduction(old(fv).morphemes(), *v),
{
    if v.slot_14.is_some() {
        match fv.find_previous_morphem(12) {
            Some(morphem) => {
                match fv.find_final_ps_suffix() {
                    None => (),
                    Some(suffix) => {
                        let n = suffix.as_str().unicode_len();
                        if n > 1 && (str_ends_in(morphem.as_str(), 'a') || str_ends_in(
                            morphem.as_str(),
                            'i',
                        ) || str_ends_in(morphem.as_str(), 'u') || str_ends_in(
                            morphem.as_str(),
                            'e',
                        )) {
                            let truncated = suffix.as_str().substring_char(1, n).to_owned();
                            fv.add_final_ps_suffix(truncated);
                        }
                    },
                }
            },
            None => (),
        }
    }
}

/// Pass 4 — initial-person-prefix suppression next to the ventive, and
/// second-singular vowel harmony with a preceding vowel-final morpheme.
fn apply_initial_prefix_adjustment(v: &FiniteVerbalForm, fv: &mut Vec<String>)
    requires
        old(fv).wf(),
        !model::unresolved_initial_person(*v),
    ensures
        final(fv).wf(),
        final(fv).morphemes() == model::initial_prefix_adjustment(old(fv).morphemes(), *v),
{
    match &v.slot_6 {
        Some(InitialPersonPrefix::ThirdSingNonHuman) => {
            if v.slot_4.is_some() && v.slot_7.is_none() {
                if v.slot_8.is_some() {
                    fv.add_initial_person_prefix(String::new());
                    fv.add_ventive(String::from_str("m"));
                } else if v.slot_9.is_some() {
                    fv.add_initial_person_prefix(String::new());
                    fv.add_ventive(String::from_str("m"));
                }
            }
        },
        Some(InitialPersonPrefix::SecondSing) => {
            match fv.find_previous_morphem(5) {
                Some(morphem) => {
                    if str_ends_in(morphem.as_str(), 'a') {
                        fv.add_initial_person_prefix(String::from_str("a"));
                    } else if str_ends_in(morphem.as_str(), 'i') {
                        fv.add_initial_person_prefix(String::from_str("i"));
                    } else if str_ends_in(morphem.as_str(), 'u') {
                        fv.add_initial_person_prefix(String::from_str("u"));
                    }
                },
                None => (),
            }
        },
        _ => (),
    }
}

/// Pass 5 — locative finalization, chosen jointly by the locative variant
/// and slot 11's occupancy.
fn apply_locative_finalization(v: &FiniteVerbalForm, fv: &mut Vec<String>)
    requires
        old(fv).wf(),
    ensures
        final(fv).wf(),
        final(fv).morphemes() == model::locative_finalization(old(fv).morphemes(), *v),
{
    match &v.slot_10 {
        Some(LocativePrefix::InWithoutInitialPerson) => {
            let out = if v.slot_11.is_some() {
                String::from_str("ni")
            } else {
                String::from_str("n")
            };
            fv.add_locative_prefix(out);
        },
        Some(LocativePrefix::OnWithoutInitialPerson) => {
            let out = if v.slot_11.is_some() {
                String::new()
            } else {
                String::from_str("e")
            };
            fv.add_locative_prefix(out);
        },
        _ => (),
    }
}

/// Pass 6 — ventive vowel alternation before a locative `ni` or an
/// indirect-object `ra`.
fn apply_ventive_alternation(v: &FiniteVerbalForm, fv: &mut Vec<String>)
    requires
        old(fv).wf(),
    ensures
        final(fv).wf(),
        final(fv).morphemes() == model::ventive_alternation(old(fv).morphemes(), *v),
{
    if v.slot_4.is_some() {
        let start = MarkerName::Ventive.position() + 1;
        match fv.find_following_morphem(start) {
            Some((morphem, marker_name)) => {
                if str_eq(morphem.as_str(), "ni") && marker_name == MarkerName::LocativePrefix {
                    fv.add_ventive(String::from_str("mi"));
                } else if str_eq(morphem.as_str(), "ra") && marker_name
                    == MarkerName::DativePrefix {
                    fv.add_ventive(String::from_str("ma"));
                }
            },
            None => (),
        }
    }
}

/// Whether `v` is the configuration whose initial-person adjustment the
/// rule set leaves unresolved.
fn unresolved_config(v: &FiniteVerbalForm) -> (r: bool)
    ensures
        r == model::unresolved_initial_person(*v),
{
    let third_non_human = match &v.slot_6 {
        Some(InitialPersonPrefix::ThirdSingNonHuman) => true,
        _ => false,
    };
    third_non_human && v.slot_4.is_some() && v.slot_7.is_none() && v.slot_8.is_none()
        && v.slot_9.is_none() && v.slot_10.is_some()
}

impl FiniteVerbalForm {
    /// Synthesizes the surface form of this descriptor: populates the
    /// fifteen slots, runs the adjustment passes in their fixed order, and
    /// concatenates the result. Fails with `EmptyStem` when the stem slot is
    /// empty, and with `Unsupported` for the unresolved initial-person
    /// configuration; otherwise the result is exactly
    /// [`model::synthesize`] of the descriptor.
    pub fn print(&self) -> (r: Result<String, VerbError>)
        ensures
            model::result_view(r) == model::synthesize(*self),
            self.slot_12@.len() == 0 ==> r == Err::<String, VerbError>(VerbError::EmptyStem),
    {
        if self.slot_12.as_str().is_empty() {
            return Err(VerbError::EmptyStem);
        }
        if unresolved_config(self) {
            return Err(VerbError::Unsupported);
        }
        let mut fv = new_slots();
        populate_core_slots(self, &mut fv);
        populate_final_prefix_slot(self, &mut fv);
        apply_first_sing_ventive(self, &mut fv);
        apply_ventive_assimilation(self, &mut fv);
        apply_preformative_contraction(self, &mut fv);
        apply_suffix_reduction(self, &mut fv);
        apply_initial_prefix_adjustment(self, &mut fv);
        apply_locative_finalization(self, &mut fv);
        apply_ventive_alternation(self, &mut fv);
        proof {
            assert(fv.morphemes() == model::adjusted_slots(*self));
        }
        Ok(fv.print())
    }
}

/// The stem allomorph and transitivity the batch entry point resolves its
/// arguments to: the lexicon entry's aspectual allomorph and transitivity
/// (the latter overridden when an override is given), or — for an unknown
/// citation form — the identifier itself as stem, but only when an override
/// supplies the transitivity.
pub open spec fn batch_resolution(
    stem_id: Seq<char>,
    is_perfective: bool,
    transitivity_override: Option<bool>,
) -> Option<(Seq<char>, bool)> {
    match lex_lookup(stem_id) {
        Some(e) => Some(
            (
                if is_perfective {
                    e.sing_perf
                } else {
                    e.sing_imperf
                },
                match transitivity_override {
                    Some(t) => t,
                    None => e.transitive,
                },
            ),
        ),
        None => match transitivity_override {
            Some(t) => Some((stem_id, t)),
            None => None,
        },
    }
}

/// Whether `v` is exactly the descriptor the batch entry point assembles
/// from the resolved stem and transitivity and the remaining arguments,
/// the subject and object routed by the split-alignment rule.
pub open spec fn batch_descriptor(
    v: FiniteVerbalForm,
    stem: Seq<char>,
    transitive: bool,
    subordinate: bool,
    is_perfective: bool,
    subject: Person,
    object: Option<Person>,
    preformative: Option<Preformative>,
    initial_person: Option<Person>,
    is_negative: bool,
    has_ventive: bool,
    has_middle_prefix: bool,
    prefixes: DimensionalPrefixes,
) -> bool {
    &&& v.perfective == is_perfective
    &&& v.transitive == transitive
    &&& v.slot_1 == (if is_negative {
        Some(FirstPrefix::Negative)
    } else {
        None::<FirstPrefix>
    })
    &&& v.slot_2 == preformative
    &&& v.slot_3 is None
    &&& v.slot_4 == (if has_ventive {
        Some(Ventive)
    } else {
        None::<Ventive>
    })
    &&& v.slot_5 == (if has_middle_prefix {
        Some(MiddlePrefix)
    } else {
        None::<MiddlePrefix>
    })
    &&& v.slot_6 == (match initial_person {
        Some(p) => Some(initial_prefix_of_person(p)),
        None => None,
    })
    &&& v.slot_7 == (match prefixes.indirect_object {
        Some(p) => Some(indirect_object_of_person(p)),
        None => None,
    })
    &&& v.slot_8 == (if prefixes.comitative {
        Some(ComitativePrefix)
    } else {
        None::<ComitativePrefix>
    })
    &&& v.slot_9 == (if prefixes.ablative {
        Some(AdverbialPrefix::Ablative)
    } else if prefixes.terminative {
        Some(AdverbialPrefix::Terminative)
    } else {
        None::<AdverbialPrefix>
    })
    &&& v.slot_10 == prefixes.locative
    &&& v.slot_11 == (if transitive && is_perfective {
        Some(final_prefix_of_person(subject))
    } else if transitive && !is_perfective {
        match object {
            Some(o) => Some(final_prefix_of_person(o)),
            None => None,
        }
    } else {
        None::<FinalPersonPrefix>
    })
    &&& v.slot_12@ == stem
    &&& v.slot_13 is None
    &&& v.slot_14 == (if transitive && is_perfective {
        match object {
            Some(o) => Some(object_suffix_of_person(o)),
            None => None,
        }
    } else {
        Some(suffix_of_person(subject))
    })
    &&& v.slot_15 == subordinate
}

/// The error with which the batch entry point rejects a feature set over a
/// resolved transitivity, if any: a plural subject or object routed to the
/// prefix slot by the split-alignment rule is unsupported, and an object on
/// an intransitive verb is invalid.
pub open spec fn batch_rejection(
    transitive: bool,
    is_perfective: bool,
    subject: Person,
    object: Option<Person>,
) -> Option<VerbError> {
    if transitive && is_perfective && is_plural(subject) {
        Some(VerbError::Unsupported)
    } else if object is Some && !transitive {
        Some(VerbError::InvalidArgument)
    } else if (match object {
        Some(o) => transitive && !is_perfective && is_plural(o),
        None => false,
    }) {
        Some(VerbError::Unsupported)
    } else {
        None
    }
}

/// The batch entry point: resolves `stem_id` in the lexicon, assembles the
/// descriptor from the given feature set, and synthesizes it in one call.
/// An unknown citation form without a transitivity override is `NotFound`;
/// a plural subject or object routed to the prefix slot is `Unsupported`;
/// an object on an intransitive resolution is `InvalidArgument`; otherwise
/// the result is the synthesis of the assembled descriptor.
pub fn build_verb(
    stem_id: &str,
    subordinate: bool,
    is_perfective: bool,
    subject: Person,
    object: Option<Person>,
    transitivity_override: Option<bool>,
    preformative: Option<Preformative>,
    initial_person: Option<Person>,
    is_negative: bool,
    has_ventive: bool,
    has_middle_prefix: bool,
    prefixes: DimensionalPrefixes,
) -> (r: Result<String, VerbError>)
    ensures
        batch_resolution(stem_id@, is_perfective, transitivity_override) is None ==> r == Err::<
            String,
            VerbError,
        >(VerbError::NotFound),
        batch_resolution(stem_id@, is_perfective, transitivity_override) matches Some(res) ==> (
        batch_rejection(res.1, is_perfective, subject, object) matches Some(e) ==> r == Err::<
            String,
            VerbError,
        >(e)),
        batch_resolution(stem_id@, is_perfective, transitivity_override) matches Some(res) ==> (
        batch_rejection(res.1, is_perfective, subject, object) is None
            ==> exists|v: FiniteVerbalForm|
            #[trigger] batch_descriptor(
                v,
                res.0,
                res.1,
                subordinate,
                is_perfective,
                subject,
                object,
                preformative,
                initial_person,
                is_negative,
                has_ventive,
                has_middle_prefix,
                prefixes,
            ) && model::result_view(r) == model::synthesize(v)),
{
    let resolved: (String, bool) = match find_verb(stem_id) {
        Ok(entry) => {
            let t = match transitivity_override {
                Some(t) => t,
                None => entry.transitive,
            };
            let s = if is_perfective {
                entry.sing.perf
            } else {
                entry.sing.imperf
            };
            (s, t)
        },
        Err(_) => {
            match transitivity_override {
                Some(t) => (stem_id.to_owned(), t),
                None => {
                    return Err(VerbError::NotFound);
                },
            }
        },
    };
    let (stem, transitive) = resolved;
    let ghost stem_view = stem@;
    proof {
        assert(batch_resolution(stem_id@, is_perfective, transitivity_override) == Some(
            (stem_view, transitive),
        ));
    }
    let mut verb = FiniteVerbalForm::new(stem, is_perfective, transitive);
    verb.set_subordinator(subordinate);
    if is_negative {
        verb.set_negative();
    }
    verb.set_preformative(preformative);
    if has_ventive {
        verb.set_ventive();
    }
    if has_middle_prefix {
        verb.set_middle_prefix(Some(MiddlePrefix));
    }
    verb.set_initial_person_prefix(initial_person);
    verb.set_dimensional_prefixes(prefixes);
    match verb.set_subject(subject) {
        Ok(()) => (),
        Err(e) => {
            return Err(e);
        },
    }
    match object {
        Some(o) => {
            match verb.set_object(o) {
                Ok(()) => (),
                Err(e) => {
                    return Err(e);
                },
            }
        },
        None => (),
    }
    let r = verb.print();
    proof {
        let res = batch_resolution(stem_id@, is_perfective, transitivity_override)->Some_0;
        assert(res.0 == stem_view && res.1 == transitive);
        assert(batch_descriptor(
            verb,
            res.0,
            res.1,
            subordinate,
            is_perfective,
            subject,
            object,
            preformative,
            initial_person,
            is_negative,
            has_ventive,
            has_middle_prefix,
            prefixes,
        ));
        assert(exists|v: FiniteVerbalForm|
            #[trigger] batch_descriptor(
                v,
                res.0,
                res.1,
                subordinate,
                is_perfective,
                subject,
                object,
                preformative,
                initial_person,
                is_negative,
                has_ventive,
                has_middle_prefix,
                prefixes,
            ) && model::result_view(r) == model::synthesize(v));
    }
    r
}

} // verus!
