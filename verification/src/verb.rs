//! The feature model: closed person/marker enumerations, the verb descriptor
//! holding one optional value per template slot, and the builder operations
//! that fill it.
//!
//! The fifteen template slots, in fixed order:
//!
//!  1. first prefix (negative particle or modal particle)
//!  2. preformative (vocalic marker)
//!  3. coordinator
//!  4. ventive
//!  5. middle prefix
//!  6. initial person prefix
//!  7. indirect-object prefix
//!  8. comitative prefix
//!  9. ablative or terminative prefix
//! 10. locative prefix
//! 11. final person prefix (subject or object, depending on alignment)
//! 12. stem
//! 13. aspect suffix marker
//! 14. final person suffix (subject or object, depending on alignment)
//! 15. subordinator

use vstd::prelude::*;
use vstd::string::StringExecFns;

use crate::model::{final_prefix_surface, final_suffix_surface, preformative_surface};

verus! {

/// The error kinds synthesis and descriptor construction can report.
#[derive(Debug, Clone, Copy, PartialEq, Eq, Structural)]
pub enum VerbError {
    /// The stem slot was empty at synthesis time.
    EmptyStem,
    /// An argument combination the grammar forbids (an object on an
    /// intransitive descriptor; ablative and terminative together).
    InvalidArgument,
    /// A person value routed to a slot whose mapping only covers the
    /// singular categories.
    Unsupported,
    /// A lexicon lookup miss.
    NotFound,
}

impl VerbError {
    /// A human-readable description of the error.
    pub fn message(&self) -> (r: String)
        ensures
            match *self {
                VerbError::EmptyStem => r@ == "Stem cannot be empty"@,
                VerbError::InvalidArgument => r@ == "Cannot set object for intransitive verb"@,
                VerbError::Unsupported => r@ == "Not implemented for plural person values"@,
                VerbError::NotFound => r@ == "Verb not found in lexicon"@,
            },
    {
        match self {
            VerbError::EmptyStem => String::from_str("Stem cannot be empty"),
            VerbError::InvalidArgument => String::from_str(
                "Cannot set object for intransitive verb",
            ),
            VerbError::Unsupported => String::from_str("Not implemented for plural person values"),
            VerbError::NotFound => String::from_str("Verb not found in lexicon"),
        }
    }
}

/// One of the eight person-number-class categories.
#[derive(Debug, Clone, Copy, PartialEq, Eq, Structural)]
pub enum Person {
    FirstSing,
    SecondSing,
    ThirdSingHuman,
    ThirdSingNonHuman,
    FirstPlur,
    SecondPlur,
    ThirdPlurHuman,
    ThirdPlurNonHuman,
}

/// Whether `p` is one of the four plural categories.
pub open spec fn is_plural(p: Person) -> bool {
    ||| p == Person::FirstPlur
    ||| p == Person::SecondPlur
    ||| p == Person::ThirdPlurHuman
    ||| p == Person::ThirdPlurNonHuman
}

/// Slot 1: negative particle or modal particle.
#[derive(Debug, Clone, Copy, PartialEq, Eq, Structural)]
pub enum FirstPrefix {
    Negative,
    Modal,
}

/// Slot 2: the vocalic preformative, by vowel quality.
#[derive(Debug, Clone, Copy, PartialEq, Eq, Structural)]
pub enum Preformative {
    A,
    I,
    U,
}

/// Slot 3 marker: coordinator prefix.
#[derive(Debug, Clone, Copy, PartialEq, Eq, Structural)]
pub struct Coordinator;

/// Slot 4 marker: the ventive (motion-toward-speaker) prefix.
#[derive(Debug, Clone, Copy, PartialEq, Eq, Structural)]
pub struct Ventive;

/// Slot 5 marker: the middle prefix.
#[derive(Debug, Clone, Copy, PartialEq, Eq, Structural)]
pub struct MiddlePrefix;

/// Slot 7 marker kind: dative prefix.
#[derive(Debug, Clone, Copy, PartialEq, Eq, Structural)]
pub struct DativePrefix;

/// Slot 8 marker: comitative prefix.
#[derive(Debug, Clone, Copy, PartialEq, Eq, Structural)]
pub struct ComitativePrefix;

/// Slot 6: initial person prefix, by person category.
#[derive(Debug, Clone, Copy, PartialEq, Eq, Structural)]
pub enum InitialPersonPrefix {
    FirstSing,
    SecondSing,
    ThirdSingHuman,
    ThirdSingNonHuman,
    FirstPlur,
    SecondPlur,
    ThirdPlurHuman,
    ThirdPlurNonHuman,
}

/// Slot 7: indirect-object prefix, by person category.
#[derive(Debug, Clone, Copy, PartialEq, Eq, Structural)]
pub enum IndirectObjectPrefix {
    FirstSing,
    SecondSing,
    ThirdSingHuman,
    ThirdSingNonHuman,
    FirstPlur,
    SecondPlur,
    ThirdPlurHuman,
    ThirdPlurNonHuman,
}

/// Slot 9: the mutually exclusive ablative and terminative prefixes.
#[derive(Debug, Clone, Copy, PartialEq, Eq, Structural)]
pub enum AdverbialPrefix {
    Ablative,
    Terminative,
}

/// Slot 10: locative prefix variant — in/on, with or without a co-occurring
/// initial person prefix.
#[derive(Debug, Clone, Copy, PartialEq, Eq, Structural)]
pub enum LocativePrefix {
    InWithInitialPerson,
    InWithoutInitialPerson,
    OnWithInitialPerson,
    OnWithoutInitialPerson,
}

/// Slot 11: final person prefix. Only the four singular categories have
/// distinct surface forms; the builder collapses plurals onto them.
#[derive(Debug, Clone, Copy, PartialEq, Eq, Structural)]
pub enum FinalPersonPrefix {
    FirstSingHuman,
    SecondSingHuman,
    ThirdSingHuman,
    ThirdSingNonHuman,
}

/// Slot 14: final person suffix, by person category.
#[derive(Debug, Clone, Copy, PartialEq, Eq, Structural)]
pub enum FinalPersonSuffix {
    FirstSingHuman,
    SecondSingHuman,
    ThirdSingHuman,
    ThirdSingNonHuman,
    FirstPlurHuman,
    SecondPlurHuman,
    ThirdPlurHuman,
    ThirdPlurNonHuman,
}

/// How the imperfective stem allomorph is formed.
#[derive(Debug, Clone, PartialEq)]
pub enum IpfvStem {
    /// Reduplicate the stem (`X` becomes `X-X`).
    Reduplicate,
    /// Keep the stem and attach the aspect suffix marker instead.
    EdMarker,
    /// Substitute an explicit alternate stem string.
    Other(String),
}

/// The person-to-variant mapping for the initial person prefix (slot 6).
pub open spec fn initial_prefix_of_person(p: Person) -> InitialPersonPrefix {
    match p {
        Person::FirstSing => InitialPersonPrefix::FirstSing,
        Person::SecondSing => InitialPersonPrefix::SecondSing,
        Person::ThirdSingHuman => InitialPersonPrefix::ThirdSingHuman,
        Person::ThirdSingNonHuman => InitialPersonPrefix::ThirdSingNonHuman,
        Person::FirstPlur => InitialPersonPrefix::FirstPlur,
        Person::SecondPlur => InitialPersonPrefix::SecondPlur,
        Person::ThirdPlurHuman => InitialPersonPrefix::ThirdPlurHuman,
        Person::ThirdPlurNonHuman => InitialPersonPrefix::ThirdPlurNonHuman,
    }
}

/// The person-to-variant mapping for the indirect-object prefix (slot 7).
pub open spec fn indirect_object_of_person(p: Person) -> IndirectObjectPrefix {
    match p {
        Person::FirstSing => IndirectObjectPrefix::FirstSing,
        Person::SecondSing => IndirectObjectPrefix::SecondSing,
        Person::ThirdSingHuman => IndirectObjectPrefix::ThirdSingHuman,
        Person::ThirdSingNonHuman => IndirectObjectPrefix::ThirdSingNonHuman,
        Person::FirstPlur => IndirectObjectPrefix::FirstPlur,
        Person::SecondPlur => IndirectObjectPrefix::SecondPlur,
        Person::ThirdPlurHuman => IndirectObjectPrefix::ThirdPlurHuman,
        Person::ThirdPlurNonHuman => IndirectObjectPrefix::ThirdPlurNonHuman,
    }
}

/// The person-to-variant mapping for the final person prefix (slot 11): the
/// plural categories collapse onto their singular counterparts (a known
/// simplification of the rule set).
pub open spec fn final_prefix_of_person(p: Person) -> FinalPersonPrefix {
    match p {
        Person::FirstSing => FinalPersonPrefix::FirstSingHuman,
        Person::SecondSing => FinalPersonPrefix::SecondSingHuman,
        Person::ThirdSingHuman => FinalPersonPrefix::ThirdSingHuman,
        Person::ThirdSingNonHuman => FinalPersonPrefix::ThirdSingNonHuman,
        Person::FirstPlur => FinalPersonPrefix::FirstSingHuman,
        Person::SecondPlur => FinalPersonPrefix::SecondSingHuman,
        Person::ThirdPlurHuman => FinalPersonPrefix::ThirdSingHuman,
        Person::ThirdPlurNonHuman => FinalPersonPrefix::ThirdSingNonHuman,
    }
}

/// The person-to-variant mapping for the final person suffix (slot 14), with
/// each plural category kept distinct.
pub open spec fn suffix_of_person(p: Person) -> FinalPersonSuffix {
    match p {
        Person::FirstSing => FinalPersonSuffix::FirstSingHuman,
        Person::SecondSing => FinalPersonSuffix::SecondSingHuman,
        Person::ThirdSingHuman => FinalPersonSuffix::ThirdSingHuman,
        Person::ThirdSingNonHuman => FinalPersonSuffix::ThirdSingNonHuman,
        Person::FirstPlur => FinalPersonSuffix::FirstPlurHuman,
        Person::SecondPlur => FinalPersonSuffix::SecondPlurHuman,
        Person::ThirdPlurHuman => FinalPersonSuffix::ThirdPlurHuman,
        Person::ThirdPlurNonHuman => FinalPersonSuffix::ThirdPlurNonHuman,
    }
}

/// The person-to-variant mapping used when an *object* lands in the suffix
/// slot: the plural categories collapse onto their singular counterparts.
pub open spec fn object_suffix_of_person(p: Person) -> FinalPersonSuffix {
    match p {
        Person::FirstSing => FinalPersonSuffix::FirstSingHuman,
        Person::SecondSing => FinalPersonSuffix::SecondSingHuman,
        Person::ThirdSingHuman => FinalPersonSuffix::ThirdSingHuman,
        Person::ThirdSingNonHuman => FinalPersonSuffix::ThirdSingNonHuman,
        Person::FirstPlur => FinalPersonSuffix::FirstSingHuman,
        Person::SecondPlur => FinalPersonSuffix::SecondSingHuman,
        Person::ThirdPlurHuman => FinalPersonSuffix::ThirdSingHuman,
        Person::ThirdPlurNonHuman => FinalPersonSuffix::ThirdSingNonHuman,
    }
}

/// The verb descriptor: one optional value per template slot plus the two
/// governing flags. Built incrementally, consumed by synthesis.
#[derive(Debug, Clone, PartialEq)]
pub struct FiniteVerbalForm {
    pub perfective: bool,
    pub transitive: bool,
    pub slot_1: Option<FirstPrefix>,
    pub slot_2: Option<Preformative>,
    pub slot_3: Option<Coordinator>,
    pub slot_4: Option<Ventive>,
    pub slot_5: Option<MiddlePrefix>,
    pub slot_6: Option<InitialPersonPrefix>,
    pub slot_7: Option<IndirectObjectPrefix>,
    pub slot_8: Option<ComitativePrefix>,
    pub slot_9: Option<AdverbialPrefix>,
    pub slot_10: Option<LocativePrefix>,
    pub slot_11: Option<FinalPersonPrefix>,
    pub slot_12: String,
    pub slot_13: Option<String>,
    pub slot_14: Option<FinalPersonSuffix>,
    pub slot_15: bool,
}

/// Whether `a` and `b` agree on every field other than the aspect flag, the
/// stem (slot 12) and the aspect suffix marker (slot 13) — the fields the
/// imperfective-stem selection may rewrite.
pub open spec fn agrees_outside_aspect_block(a: FiniteVerbalForm, b: FiniteVerbalForm) -> bool {
    &&& a.transitive == b.transitive
    &&& a.slot_1 == b.slot_1
    &&& a.slot_2 == b.slot_2
    &&& a.slot_3 == b.slot_3
    &&& a.slot_4 == b.slot_4
    &&& a.slot_5 == b.slot_5
    &&& a.slot_6 == b.slot_6
    &&& a.slot_7 == b.slot_7
    &&& a.slot_8 == b.slot_8
    &&& a.slot_9 == b.slot_9
    &&& a.slot_10 == b.slot_10
    &&& a.slot_11 == b.slot_11
    &&& a.slot_14 == b.slot_14
    &&& a.slot_15 == b.slot_15
}

impl FiniteVerbalForm {
    /// A descriptor over `stem` with the two governing flags chosen and every
    /// slot other than the stem unset.
    pub fn new(stem: String, is_perfective: bool, is_transitive: bool) -> (r: Self)
        ensures
            r == (FiniteVerbalForm {
                perfective: is_perfective,
                transitive: is_transitive,
                slot_1: None,
                slot_2: None,
                slot_3: None,
                slot_4: None,
                slot_5: None,
                slot_6: None,
                slot_7: None,
                slot_8: None,
                slot_9: None,
                slot_10: None,
                slot_11: None,
                slot_12: stem,
                slot_13: None,
                slot_14: None,
                slot_15: false,
            }),
    {
        FiniteVerbalForm {
            perfective: is_perfective,
            transitive: is_transitive,
            slot_1: None,
            slot_2: None,
            slot_3: None,
            slot_4: None,
            slot_5: None,
            slot_6: None,
            slot_7: None,
            slot_8: None,
            slot_9: None,
            slot_10: None,
            slot_11: None,
            slot_12: stem,
            slot_13: None,
            slot_14: None,
            slot_15: false,
        }
    }

    /// A descriptor over `stem` with both governing flags false and every
    /// other slot unset.
    pub fn from_stem(stem: String) -> (r: Self)
        ensures
            r == (FiniteVerbalForm {
                perfective: false,
                transitive: false,
                slot_1: None,
                slot_2: None,
                slot_3: None,
                slot_4: None,
                slot_5: None,
                slot_6: None,
                slot_7: None,
                slot_8: None,
                slot_9: None,
                slot_10: None,
                slot_11: None,
                slot_12: stem,
                slot_13: None,
                slot_14: None,
                slot_15: false,
            }),
    {
        FiniteVerbalForm::new(stem, false, false)
    }

    /// Marks the descriptor transitive.
    pub fn is_transitive(&mut self)
        ensures
            *final(self) == (FiniteVerbalForm { transitive: true, ..*old(self) }),
    {
        self.transitive = true;
    }

    /// Marks the descriptor intransitive.
    pub fn is_intransitive(&mut self)
        ensures
            *final(self) == (FiniteVerbalForm { transitive: false, ..*old(self) }),
    {
        self.transitive = false;
    }

    /// Marks the descriptor perfective.
    pub fn is_perfective(&mut self)
        ensures
            *final(self) == (FiniteVerbalForm { perfective: true, ..*old(self) }),
    {
        self.perfective = true;
    }

    /// Marks the descriptor imperfective and applies the requested
    /// imperfective-stem strategy: reduplicate the stem, request the aspect
    /// suffix marker, or substitute an alternate stem.
    pub fn is_imperfective(&mut self, impf_stem: Option<IpfvStem>)
        ensures
            !final(self).perfective,
            agrees_outside_aspect_block(*final(self), *old(self)),
            match impf_stem {
                None => {
                    &&& final(self).slot_12 == old(self).slot_12
                    &&& final(self).slot_13 == old(self).slot_13
                },
                Some(IpfvStem::Reduplicate) => {
                    &&& final(self).slot_12@ == old(self).slot_12@ + "-"@ + old(self).slot_12@
                    &&& final(self).slot_13 == old(self).slot_13
                },
                Some(IpfvStem::EdMarker) => {
                    &&& final(self).slot_12 == old(self).slot_12
                    &&& final(self).slot_13 matches Some(m) && m@ == "ed"@
                },
                Some(IpfvStem::Other(stem)) => {
                    &&& final(self).slot_12 == stem
                    &&& final(self).slot_13 == old(self).slot_13
                },
            },
    {
        self.perfective = false;
        match impf_stem {
            None => {},
            Some(IpfvStem::Reduplicate) => {
                let doubled = self.slot_12.clone().concat("-").concat(self.slot_12.as_str());
                self.slot_12 = doubled;
            },
            Some(IpfvStem::EdMarker) => {
                self.slot_13 = Some(String::from_str("ed"));
            },
            Some(IpfvStem::Other(stem)) => {
                self.slot_12 = stem;
            },
        }
    }

    /// Fills slot 1 with the negative particle.
    pub fn set_negative(&mut self)
        ensures
            *final(self) == (FiniteVerbalForm { slot_1: Some(FirstPrefix::Negative), ..*old(self) }),
    {
        self.slot_1 = Some(FirstPrefix::Negative);
    }

    /// Fills slot 1 with the modal particle.
    pub fn set_modal(&mut self)
        ensures
            *final(self) == (FiniteVerbalForm { slot_1: Some(FirstPrefix::Modal), ..*old(self) }),
    {
        self.slot_1 = Some(FirstPrefix::Modal);
    }

    /// Sets or clears the preformative (slot 2).
    pub fn set_preformative(&mut self, preformative: Option<Preformative>)
        ensures
            *final(self) == (FiniteVerbalForm { slot_2: preformative, ..*old(self) }),
    {
        self.slot_2 = preformative;
    }

    /// Sets or clears the coordinator (slot 3).
    pub fn set_coordinator(&mut self, coordinator: Option<Coordinator>)
        ensures
            *final(self) == (FiniteVerbalForm { slot_3: coordinator, ..*old(self) }),
    {
        self.slot_3 = coordinator;
    }

    /// Fills slot 4 with the ventive marker.
    pub fn set_ventive(&mut self)
        ensures
            *final(self) == (FiniteVerbalForm { slot_4: Some(Ventive), ..*old(self) }),
    {
        self.slot_4 = Some(Ventive);
    }

    /// Sets or clears the middle prefix (slot 5).
    pub fn set_middle_prefix(&mut self, middle_prefix: Option<MiddlePrefix>)
        ensures
            *final(self) == (FiniteVerbalForm { slot_5: middle_prefix, ..*old(self) }),
    {
        self.slot_5 = middle_prefix;
    }

    /// Sets or clears the initial person prefix (slot 6).
    pub fn set_initial_person_prefix(&mut self, initial_person_prefix: Option<Person>)
        ensures
            *final(self) == (FiniteVerbalForm {
                slot_6: match initial_person_prefix {
                    Some(p) => Some(initial_prefix_of_person(p)),
                    None => None,
                },
                ..*old(self)
            }),
    {
        self.slot_6 = match initial_person_prefix {
            Some(p) => Some(
                match p {
                    Person::FirstSing => InitialPersonPrefix::FirstSing,
                    Person::SecondSing => InitialPersonPrefix::SecondSing,
                    Person::ThirdSingHuman => InitialPersonPrefix::ThirdSingHuman,
                    Person::ThirdSingNonHuman => InitialPersonPrefix::ThirdSingNonHuman,
                    Person::FirstPlur => InitialPersonPrefix::FirstPlur,
                    Person::SecondPlur => InitialPersonPrefix::SecondPlur,
                    Person::ThirdPlurHuman => InitialPersonPrefix::ThirdPlurHuman,
                    Person::ThirdPlurNonHuman => InitialPersonPrefix::ThirdPlurNonHuman,
                },
            ),
            None => None,
        };
    }

    /// Fills slot 9 with the terminative marker when an initial person is
    /// given (clearing it otherwise), and routes that person to slot 6.
    pub fn set_terminative(&mut self, initial_person_prefix: Option<Person>)
        ensures
            *final(self) == (FiniteVerbalForm {
                slot_9: match initial_person_prefix {
                    Some(_) => Some(AdverbialPrefix::Terminative),
                    None => None,
                },
                slot_6: match initial_person_prefix {
                    Some(p) => Some(initial_prefix_of_person(p)),
                    None => None,
                },
                ..*old(self)
            }),
    {
        self.slot_9 = match initial_person_prefix {
            Some(_) => Some(AdverbialPrefix::Terminative),
            None => None,
        };
        self.set_initial_person_prefix(initial_person_prefix);
    }

    /// Fills slot 9 with the ablative marker when an initial person is given
    /// (clearing it otherwise), and routes that person to slot 6.
    pub fn set_ablative(&mut self, initial_person_prefix: Option<Person>)
        ensures
            *final(self) == (FiniteVerbalForm {
                slot_9: match initial_person_prefix {
                    Some(_) => Some(AdverbialPrefix::Ablative),
                    None => None,
                },
                slot_6: match initial_person_prefix {
                    Some(p) => Some(initial_prefix_of_person(p)),
                    None => None,
                },
                ..*old(self)
            }),
    {
        self.slot_9 = match initial_person_prefix {
            Some(_) => Some(AdverbialPrefix::Ablative),
            None => None,
        };
        self.set_initial_person_prefix(initial_person_prefix);
    }

    /// Fills slot 7 with the indirect-object prefix for `dative_prefix`.
    pub fn set_indirect_object(&mut self, dative_prefix: Person)
        ensures
            *final(self) == (FiniteVerbalForm {
                slot_7: Some(indirect_object_of_person(dative_prefix)),
                ..*old(self)
            }),
    {
        self.slot_7 = Some(
            match dative_prefix {
                Person::FirstSing => IndirectObjectPrefix::FirstSing,
                Person::SecondSing => IndirectObjectPrefix::SecondSing,
                Person::ThirdSingHuman => IndirectObjectPrefix::ThirdSingHuman,
                Person::ThirdSingNonHuman => IndirectObjectPrefix::ThirdSingNonHuman,
                Person::FirstPlur => IndirectObjectPrefix::FirstPlur,
                Person::SecondPlur => IndirectObjectPrefix::SecondPlur,
                Person::ThirdPlurHuman => IndirectObjectPrefix::ThirdPlurHuman,
                Person::ThirdPlurNonHuman => IndirectObjectPrefix::ThirdPlurNonHuman,
            },
        );
    }

    /// Fills slot 8 with the comitative marker when an initial person is
    /// given (clearing it otherwise), and routes that person to slot 6.
    pub fn set_comitative(&mut self, initial_person_prefix: Option<Person>)
        ensures
            *final(self) == (FiniteVerbalForm {
                slot_8: match initial_person_prefix {
                    Some(_) => Some(ComitativePrefix),
                    None => None,
                },
                slot_6: match initial_person_prefix {
                    Some(p) => Some(initial_prefix_of_person(p)),
                    None => None,
                },
                ..*old(self)
            }),
    {
        self.slot_8 = match initial_person_prefix {
            Some(_) => Some(ComitativePrefix),
            None => None,
        };
        self.set_initial_person_prefix(initial_person_prefix);
    }

    /// Sets or clears the ablative/terminative slot (slot 9) directly.
    pub fn set_adverbial_prefix(&mut self, adverbial_prefix: Option<AdverbialPrefix>)
        ensures
            *final(self) == (FiniteVerbalForm { slot_9: adverbial_prefix, ..*old(self) }),
    {
        self.slot_9 = adverbial_prefix;
    }

    /// Fills slot 10 with the locative-in variant, chosen by whether an
    /// initial person co-occurs. The person itself is not routed anywhere.
    pub fn set_locative_in(&mut self, initial_person: Option<Person>)
        ensures
            *final(self) == (FiniteVerbalForm {
                slot_10: match initial_person {
                    Some(_) => Some(LocativePrefix::InWithInitialPerson),
                    None => Some(LocativePrefix::InWithoutInitialPerson),
                },
                ..*old(self)
            }),
    {
        self.slot_10 = match initial_person {
            Some(_) => Some(LocativePrefix::InWithInitialPerson),
            None => Some(LocativePrefix::InWithoutInitialPerson),
        };
    }

    /// Fills slot 10 with the locative-on variant, chosen by whether an
    /// initial person co-occurs. The person itself is not routed anywhere.
    pub fn set_locative_on(&mut self, initial_person: Option<Person>)
        ensures
            *final(self) == (FiniteVerbalForm {
                slot_10: match initial_person {
                    Some(_) => Some(LocativePrefix::OnWithInitialPerson),
                    None => Some(LocativePrefix::OnWithoutInitialPerson),
                },
                ..*old(self)
            }),
    {
        self.slot_10 = match initial_person {
            Some(_) => Some(LocativePrefix::OnWithInitialPerson),
            None => Some(LocativePrefix::OnWithoutInitialPerson),
        };
    }

    /// Sets or clears the final person prefix (slot 11); the plural
    /// categories collapse onto their singular counterparts.
    pub fn set_final_person_prefix(&mut self, final_person_prefix: Option<Person>)
        ensures
            *final(self) == (FiniteVerbalForm {
                slot_11: match final_person_prefix {
                    Some(p) => Some(final_prefix_of_person(p)),
                    None => None,
                },
                ..*old(self)
            }),
    {
        self.slot_11 = match final_person_prefix {
            Some(p) => Some(
                match p {
                    Person::FirstSing => FinalPersonPrefix::FirstSingHuman,
                    Person::SecondSing => FinalPersonPrefix::SecondSingHuman,
                    Person::ThirdSingHuman => FinalPersonPrefix::ThirdSingHuman,
                    Person::ThirdSingNonHuman => FinalPersonPrefix::ThirdSingNonHuman,
                    Person::FirstPlur => FinalPersonPrefix::FirstSingHuman,
                    Person::SecondPlur => FinalPersonPrefix::SecondSingHuman,
                    Person::ThirdPlurHuman => FinalPersonPrefix::ThirdSingHuman,
                    Person::ThirdPlurNonHuman => FinalPersonPrefix::ThirdSingNonHuman,
                },
            ),
            None => None,
        };
    }

    /// Sets or clears the aspect suffix marker (slot 13).
    pub fn set_ed_marker(&mut self, ed_marker: Option<String>)
        ensures
            *final(self) == (FiniteVerbalForm { slot_13: ed_marker, ..*old(self) }),
    {
        self.slot_13 = ed_marker;
    }

    /// Sets or clears the final person suffix (slot 14), keeping the plural
    /// categories distinct.
    pub fn set_final_person_suffix(&mut self, final_person_suffix: Option<Person>)
        ensures
            *final(self) == (FiniteVerbalForm {
                slot_14: match final_person_suffix {
                    Some(p) => Some(suffix_of_person(p)),
                    None => None,
                },
                ..*old(self)
            }),
    {
        self.slot_14 = match final_person_suffix {
            Some(p) => Some(
                match p {
                    Person::FirstSing => FinalPersonSuffix::FirstSingHuman,
                    Person::SecondSing => FinalPersonSuffix::SecondSingHuman,
                    Person::ThirdSingHuman => FinalPersonSuffix::ThirdSingHuman,
                    Person::ThirdSingNonHuman => FinalPersonSuffix::ThirdSingNonHuman,
                    Person::FirstPlur => FinalPersonSuffix::FirstPlurHuman,
                    Person::SecondPlur => FinalPersonSuffix::SecondPlurHuman,
                    Person::ThirdPlurHuman => FinalPersonSuffix::ThirdPlurHuman,
                    Person::ThirdPlurNonHuman => FinalPersonSuffix::ThirdPlurNonHuman,
                },
            ),
            None => None,
        };
    }

    /// Sets the subordinator flag (slot 15).
    pub fn set_subordinator(&mut self, subordinator: bool)
        ensures
            *final(self) == (FiniteVerbalForm { slot_15: subordinator, ..*old(self) }),
    {
        self.slot_15 = subordinator;
    }

    /// Routes the subject to the slot the split-alignment rule assigns it:
    /// the suffix slot (14) unless the descriptor is transitive and
    /// perfective, in which case the prefix slot (11). Prefix placement only
    /// has mappings for the four singular categories; a plural subject routed
    /// there is rejected as `Unsupported`, leaving the descriptor unchanged.
    pub fn set_subject(&mut self, subject: Person) -> (r: Result<(), VerbError>)
        ensures
            !(old(self).transitive && old(self).perfective) ==> (r == Ok::<(), VerbError>(())
                && *final(self) == (FiniteVerbalForm {
                slot_14: Some(suffix_of_person(subject)),
                ..*old(self)
            })),
            old(self).transitive && old(self).perfective && !is_plural(subject) ==> (r == Ok::<
                (),
                VerbError,
            >(()) && *final(self) == (FiniteVerbalForm {
                slot_11: Some(final_prefix_of_person(subject)),
                ..*old(self)
            })),
            old(self).transitive && old(self).perfective && is_plural(subject) ==> (r == Err::<
                (),
                VerbError,
            >(VerbError::Unsupported) && *final(self) == *old(self)),
    {
        if !self.transitive || !self.perfective {
            self.slot_14 = Some(
                match subject {
                    Person::FirstSing => FinalPersonSuffix::FirstSingHuman,
                    Person::SecondSing => FinalPersonSuffix::SecondSingHuman,
                    Person::ThirdSingHuman => FinalPersonSuffix::ThirdSingHuman,
                    Person::ThirdSingNonHuman => FinalPersonSuffix::ThirdSingNonHuman,
                    Person::FirstPlur => FinalPersonSuffix::FirstPlurHuman,
                    Person::SecondPlur => FinalPersonSuffix::SecondPlurHuman,
                    Person::ThirdPlurHuman => FinalPersonSuffix::ThirdPlurHuman,
                    Person::ThirdPlurNonHuman => FinalPersonSuffix::ThirdPlurNonHuman,
                },
            );
            Ok(())
        } else {
            match subject {
                Person::FirstSing => {
                    self.slot_11 = Some(FinalPersonPrefix::FirstSingHuman);
                    Ok(())
                },
                Person::SecondSing => {
                    self.slot_11 = Some(FinalPersonPrefix::SecondSingHuman);
                    Ok(())
                },
                Person::ThirdSingHuman => {
                    self.slot_11 = Some(FinalPersonPrefix::ThirdSingHuman);
                    Ok(())
                },
                Person::ThirdSingNonHuman => {
                    self.slot_11 = Some(FinalPersonPrefix::ThirdSingNonHuman);
                    Ok(())
                },
                _ => Err(VerbError::Unsupported),
            }
        }
    }

    /// Routes the object to the slot the split-alignment rule assigns it: the
    /// suffix slot (14) when transitive and perfective (plurals collapsing
    /// onto singulars), the prefix slot (11) when transitive and imperfective
    /// (plural objects rejected as `Unsupported`). An object on an
    /// intransitive descriptor is rejected as `InvalidArgument`. On any
    /// rejection the descriptor is left unchanged.
    pub fn set_object(&mut self, object: Person) -> (r: Result<(), VerbError>)
        ensures
            old(self).transitive && old(self).perfective ==> (r == Ok::<(), VerbError>(())
                && *final(self) == (FiniteVerbalForm {
                slot_14: Some(object_suffix_of_person(object)),
                ..*old(self)
            })),
            old(self).transitive && !old(self).perfective && !is_plural(object) ==> (r == Ok::<
                (),
                VerbError,
            >(()) && *final(self) == (FiniteVerbalForm {
                slot_11: Some(final_prefix_of_person(object)),
                ..*old(self)
            })),
            old(self).transitive && !old(self).perfective && is_plural(object) ==> (r == Err::<
                (),
                VerbError,
            >(VerbError::Unsupported) && *final(self) == *old(self)),
            !old(self).transitive ==> (r == Err::<(), VerbError>(VerbError::InvalidArgument)
                && *final(self) == *old(self)),
    {
        if self.transitive && self.perfective {
            self.slot_14 = Some(
                match object {
                    Person::FirstSing => FinalPersonSuffix::FirstSingHuman,
                    Person::SecondSing => FinalPersonSuffix::SecondSingHuman,
                    Person::ThirdSingHuman => FinalPersonSuffix::ThirdSingHuman,
                    Person::ThirdSingNonHuman => FinalPersonSuffix::ThirdSingNonHuman,
                    Person::FirstPlur => FinalPersonSuffix::FirstSingHuman,
                    Person::SecondPlur => FinalPersonSuffix::SecondSingHuman,
                    Person::ThirdPlurHuman => FinalPersonSuffix::ThirdSingHuman,
                    Person::ThirdPlurNonHuman => FinalPersonSuffix::ThirdSingNonHuman,
                },
            );
            Ok(())
        } else if self.transitive {
            match object {
                Person::FirstSing => {
                    self.slot_11 = Some(FinalPersonPrefix::FirstSingHuman);
                    Ok(())
                },
                Person::SecondSing => {
                    self.slot_11 = Some(FinalPersonPrefix::SecondSingHuman);
                    Ok(())
                },
                Person::ThirdSingHuman => {
                    self.slot_11 = Some(FinalPersonPrefix::ThirdSingHuman);
                    Ok(())
                },
                Person::ThirdSingNonHuman => {
                    self.slot_11 = Some(FinalPersonPrefix::ThirdSingNonHuman);
                    Ok(())
                },
                _ => Err(VerbError::Unsupported),
            }
        } else {
            Err(VerbError::InvalidArgument)
        }
    }

    /// The surface form of the subordinator flag: `a` when set, empty
    /// otherwise.
    pub fn print_subordinator(&self) -> (r: String)
        ensures
            self.slot_15 ==> r@ == "a"@,
            !self.slot_15 ==> r@ == Seq::<char>::empty(),
    {
        if self.slot_15 {
            String::from_str("a")
        } else {
            String::new()
        }
    }
}

impl Preformative {
    /// The surface vowel of this preformative quality.
    pub fn output(&self) -> (r: String)
        ensures
            r@ == preformative_surface(*self),
    {
        match self {
            Preformative::A => String::from_str("a"),
            Preformative::I => String::from_str("i"),
            Preformative::U => String::from_str("u"),
        }
    }
}

impl FinalPersonPrefix {
    /// The default surface form of this final person prefix, before vowel
    /// harmony.
    pub fn output(&self) -> (r: String)
        ensures
            r@ == final_prefix_surface(*self),
    {
        match self {
            FinalPersonPrefix::FirstSingHuman => String::from_str("ʔ"),
            FinalPersonPrefix::SecondSingHuman => String::from_str("e"),
            FinalPersonPrefix::ThirdSingHuman => String::from_str("n"),
            FinalPersonPrefix::ThirdSingNonHuman => String::from_str("b"),
        }
    }
}

impl FinalPersonSuffix {
    /// The surface form of this final person suffix; the third-singular
    /// forms are conditioned on the verb's transitivity and aspect.
    pub fn output(&self, verb: &FiniteVerbalForm) -> (r: String)
        ensures
            r@ == final_suffix_surface(*self, verb.transitive, verb.perfective),
    {
        match self {
            FinalPersonSuffix::FirstSingHuman => String::from_str("en"),
            FinalPersonSuffix::SecondSingHuman => String::from_str("en"),
            FinalPersonSuffix::ThirdSingHuman | FinalPersonSuffix::ThirdSingNonHuman => {
                if verb.transitive && !verb.perfective {
                    String::from_str("e")
                } else {
                    String::new()
                }
            },
            FinalPersonSuffix::FirstPlurHuman => String::from_str("enden"),
            FinalPersonSuffix::SecondPlurHuman => String::from_str("enzen"),
            FinalPersonSuffix::ThirdPlurHuman => String::from_str("eš"),
            FinalPersonSuffix::ThirdPlurNonHuman => String::new(),
        }
    }
}

/// The mutually exclusive slot 7–10 options, grouped for callers that express
/// a verb as an all-at-once feature set. Owns no slots itself; it is applied
/// to a descriptor in one step.
#[derive(Debug, Clone, PartialEq)]
pub struct DimensionalPrefixes {
    pub indirect_object: Option<Person>,
    pub comitative: bool,
    pub locative: Option<LocativePrefix>,
    pub ablative: bool,
    pub terminative: bool,
}

impl DimensionalPrefixes {
    /// A bundle with every option absent.
    pub fn all_false() -> (r: Self)
        ensures
            r == (DimensionalPrefixes {
                indirect_object: None,
                comitative: false,
                locative: None,
                ablative: false,
                terminative: false,
            }),
    {
        DimensionalPrefixes {
            indirect_object: None,
            comitative: false,
            locative: None,
            ablative: false,
            terminative: false,
        }
    }

    /// A bundle holding only the comitative flag.
    pub fn with_comitative() -> (r: Self)
        ensures
            r == (DimensionalPrefixes {
                indirect_object: None,
                comitative: true,
                locative: None,
                ablative: false,
                terminative: false,
            }),
    {
        DimensionalPrefixes {
            indirect_object: None,
            comitative: true,
            locative: None,
            ablative: false,
            terminative: false,
        }
    }

    /// A bundle holding only the given locative variant.
    pub fn with_locative(prefix: LocativePrefix) -> (r: Self)
        ensures
            r == (DimensionalPrefixes {
                indirect_object: None,
                comitative: false,
                locative: Some(prefix),
                ablative: false,
                terminative: false,
            }),
    {
        DimensionalPrefixes {
            indirect_object: None,
            comitative: false,
            locative: Some(prefix),
            ablative: false,
            terminative: false,
        }
    }

    /// A bundle holding only the ablative flag.
    pub fn with_ablative() -> (r: Self)
        ensures
            r == (DimensionalPrefixes {
                indirect_object: None,
                comitative: false,
                locative: None,
                ablative: true,
                terminative: false,
            }),
    {
        DimensionalPrefixes {
            indirect_object: None,
            comitative: false,
            locative: None,
            ablative: true,
            terminative: false,
        }
    }

    /// A bundle holding only the terminative flag.
    pub fn with_terminative() -> (r: Self)
        ensures
            r == (DimensionalPrefixes {
                indirect_object: None,
                comitative: false,
                locative: None,
                ablative: false,
                terminative: true,
            }),
    {
        DimensionalPrefixes {
            indirect_object: None,
            comitative: false,
            locative: None,
            ablative: false,
            terminative: true,
        }
    }

    /// A bundle holding only an indirect-object person.
    pub fn with_indirect_object(indirect_object: Person) -> (r: Self)
        ensures
            r == (DimensionalPrefixes {
                indirect_object: Some(indirect_object),
                comitative: false,
                locative: None,
                ablative: false,
                terminative: false,
            }),
    {
        DimensionalPrefixes {
            indirect_object: Some(indirect_object),
            comitative: false,
            locative: None,
            ablative: false,
            terminative: false,
        }
    }

    /// A bundle with every option chosen freely, except that requesting both
    /// the ablative and the terminative is rejected as `InvalidArgument`
    /// before anything is built.
    pub fn new(
        indirect_object: Option<Person>,
        comitative: bool,
        locative: Option<LocativePrefix>,
        ablative: bool,
        terminative: bool,
    ) -> (r: Result<Self, VerbError>)
        ensures
            ablative && terminative ==> r == Err::<Self, VerbError>(VerbError::InvalidArgument),
            !(ablative && terminative) ==> r == Ok::<Self, VerbError>(DimensionalPrefixes {
                indirect_object,
                comitative,
                locative,
                ablative,
                terminative,
            }),
    {
        if ablative && terminative {
            Err(VerbError::InvalidArgument)
        } else {
            Ok(
                DimensionalPrefixes {
                    indirect_object,
                    comitative,
                    locative,
                    ablative,
                    terminative,
                },
            )
        }
    }
}

impl FiniteVerbalForm {
    /// Applies a dimensional-prefix bundle: slots 7–10 are set from the
    /// bundle's options (absent options clearing their slot), every other
    /// slot untouched. The ablative wins slot 9 when the bundle was built by
    /// hand with both flags; `DimensionalPrefixes::new` never produces that.
    pub fn set_dimensional_prefixes(&mut self, prefixes: DimensionalPrefixes)
        ensures
            *final(self) == (FiniteVerbalForm {
                slot_7: match prefixes.indirect_object {
                    Some(p) => Some(indirect_object_of_person(p)),
                    None => None,
                },
                slot_8: if prefixes.comitative {
                    Some(ComitativePrefix)
                } else {
                    None
                },
                slot_9: if prefixes.ablative {
                    Some(AdverbialPrefix::Ablative)
                } else if prefixes.terminative {
                    Some(AdverbialPrefix::Terminative)
                } else {
                    None
                },
                slot_10: prefixes.locative,
                ..*old(self)
            }),
    {
        self.slot_7 = match prefixes.indirect_object {
            Some(p) => Some(
                match p {
                    Person::FirstSing => IndirectObjectPrefix::FirstSing,
                    Person::SecondSing => IndirectObjectPrefix::SecondSing,
                    Person::ThirdSingHuman => IndirectObjectPrefix::ThirdSingHuman,
                    Person::ThirdSingNonHuman => IndirectObjectPrefix::ThirdSingNonHuman,
                    Person::FirstPlur => IndirectObjectPrefix::FirstPlur,
                    Person::SecondPlur => IndirectObjectPrefix::SecondPlur,
                    Person::ThirdPlurHuman => IndirectObjectPrefix::ThirdPlurHuman,
                    Person::ThirdPlurNonHuman => IndirectObjectPrefix::ThirdPlurNonHuman,
                },
            ),
            None => None,
        };
        self.slot_8 = if prefixes.comitative {
            Some(ComitativePrefix)
        } else {
            None
        };
        self.slot_9 = if prefixes.ablative {
            Some(AdverbialPrefix::Ablative)
        } else if prefixes.terminative {
            Some(AdverbialPrefix::Terminative)
        } else {
            None
        };
        self.slot_10 = prefixes.locative;
    }
}

} // verus!
