//! The mathematical model of synthesis: the surface tables, the initial
//! population of the fifteen slots, the ordered phonological adjustment
//! passes, and the final concatenation. Every executable step of the
//! pipeline is specified against the functions here.
//!
//! A slot array is modelled as a `Seq<Seq<char>>` of length fifteen, index
//! `k` holding the realized morpheme of template slot `k + 1`.

use vstd::prelude::*;

use crate::chars::{begins_in, ends_in, seq_ends_with_vowel};
use crate::slots::MarkerName;
use crate::verb::{
    FiniteVerbalForm, FinalPersonPrefix, FinalPersonSuffix, FirstPrefix, IndirectObjectPrefix,
    InitialPersonPrefix, LocativePrefix, Preformative, VerbError,
};

verus! {

/// An all-empty slot array.
pub open spec fn empty_slots() -> Seq<Seq<char>> {
    Seq::new(15, |i: int| Seq::<char>::empty())
}

/// The marker occupying a given slot-array index.
pub open spec fn marker_at(position: int) -> MarkerName {
    if position == 0 {
        MarkerName::FirstPrefix
    } else if position == 1 {
        MarkerName::Preformative
    } else if position == 2 {
        MarkerName::Coordinator
    } else if position == 3 {
        MarkerName::Ventive
    } else if position == 4 {
        MarkerName::MiddlePrefix
    } else if position == 5 {
        MarkerName::InitialPronominalPrefix
    } else if position == 6 {
        MarkerName::DativePrefix
    } else if position == 7 {
        MarkerName::ComitativePrefix
    } else if position == 8 {
        MarkerName::AdverbialPrefix
    } else if position == 9 {
        MarkerName::LocativePrefix
    } else if position == 10 {
        MarkerName::FinalPersonPrefix
    } else if position == 11 {
        MarkerName::Stem
    } else if position == 12 {
        MarkerName::EdMarker
    } else if position == 13 {
        MarkerName::FinalPersonSuffix
    } else {
        MarkerName::Subordinator
    }
}

/// The index of the nearest non-empty slot strictly before `start`, if any.
pub open spec fn prev_filled(s: Seq<Seq<char>>, start: int) -> Option<int>
    decreases start,
{
    if start <= 0 {
        None
    } else if s[start - 1].len() > 0 {
        Some(start - 1)
    } else {
        prev_filled(s, start - 1)
    }
}

/// The index of the nearest non-empty slot at or after `start`, if any.
pub open spec fn next_filled(s: Seq<Seq<char>>, start: int) -> Option<int>
    decreases s.len() - start,
{
    if start < 0 || start >= s.len() {
        None
    } else if s[start].len() > 0 {
        Some(start)
    } else {
        next_filled(s, start + 1)
    }
}

/// Surface form of the preformative, by vowel quality.
pub open spec fn preformative_surface(p: Preformative) -> Seq<char> {
    match p {
        Preformative::A => "a"@,
        Preformative::I => "i"@,
        Preformative::U => "u"@,
    }
}

/// Surface table of the initial person prefix (slot 6).
pub open spec fn initial_person_surface(p: InitialPersonPrefix) -> Seq<char> {
    match p {
        InitialPersonPrefix::FirstSing => "ʔ"@,
        InitialPersonPrefix::SecondSing => "e"@,
        InitialPersonPrefix::ThirdSingHuman => "n"@,
        InitialPersonPrefix::ThirdSingNonHuman => "b"@,
        InitialPersonPrefix::FirstPlur => "mē"@,
        InitialPersonPrefix::SecondPlur => "enē"@,
        InitialPersonPrefix::ThirdPlurHuman => "nnē"@,
        InitialPersonPrefix::ThirdPlurNonHuman => "b"@,
    }
}

/// Surface table of the indirect-object prefix (slot 7).
pub open spec fn indirect_object_surface(p: IndirectObjectPrefix) -> Seq<char> {
    match p {
        IndirectObjectPrefix::FirstSing => "ma"@,
        IndirectObjectPrefix::SecondSing => "ra"@,
        IndirectObjectPrefix::ThirdSingHuman => "nna"@,
        IndirectObjectPrefix::ThirdSingNonHuman => "ba"@,
        IndirectObjectPrefix::FirstPlur => "mē"@,
        IndirectObjectPrefix::SecondPlur => "ra"@,
        IndirectObjectPrefix::ThirdPlurHuman => "nnē"@,
        IndirectObjectPrefix::ThirdPlurNonHuman => "ba"@,
    }
}

/// Default surface table of the final person prefix (slot 11), before vowel
/// harmony.
pub open spec fn final_prefix_surface(p: FinalPersonPrefix) -> Seq<char> {
    match p {
        FinalPersonPrefix::FirstSingHuman => "ʔ"@,
        FinalPersonPrefix::SecondSingHuman => "e"@,
        FinalPersonPrefix::ThirdSingHuman => "n"@,
        FinalPersonPrefix::ThirdSingNonHuman => "b"@,
    }
}

/// Surface table of the final person suffix (slot 14). The third-singular
/// forms are conditioned on transitivity and aspect: empty when perfective or
/// intransitive, `e` when transitive-imperfective.
pub open spec fn final_suffix_surface(p: FinalPersonSuffix, transitive: bool, perfective: bool) -> Seq<
    char,
> {
    match p {
        FinalPersonSuffix::FirstSingHuman => "en"@,
        FinalPersonSuffix::SecondSingHuman => "en"@,
        FinalPersonSuffix::ThirdSingHuman => if transitive && !perfective {
            "e"@
        } else {
            Seq::<char>::empty()
        },
        FinalPersonSuffix::ThirdSingNonHuman => if transitive && !perfective {
            "e"@
        } else {
            Seq::<char>::empty()
        },
        FinalPersonSuffix::FirstPlurHuman => "enden"@,
        FinalPersonSuffix::SecondPlurHuman => "enzen"@,
        FinalPersonSuffix::ThirdPlurHuman => "eš"@,
        FinalPersonSuffix::ThirdPlurNonHuman => Seq::<char>::empty(),
    }
}

/// Provisional surface form of the locative prefix (slot 10), finalized by
/// `locative_finalization`.
pub open spec fn locative_provisional_surface(p: LocativePrefix) -> Seq<char> {
    match p {
        LocativePrefix::InWithInitialPerson => Seq::<char>::empty(),
        LocativePrefix::InWithoutInitialPerson => "ni"@,
        LocativePrefix::OnWithInitialPerson => "bi"@,
        LocativePrefix::OnWithoutInitialPerson => "e"@,
    }
}

/// Population of the stem and suffix slots (array indices 11–13): the stem,
/// the aspect suffix marker (reduced to `d` after a vowel-final stem), and
/// the final person suffix.
pub open spec fn populate_stem_block(s: Seq<Seq<char>>, v: FiniteVerbalForm) -> Seq<Seq<char>> {
    let s = s.update(11, v.slot_12@);
    let s = match v.slot_13 {
        Some(marker) => s.update(
            12,
            if seq_ends_with_vowel(v.slot_12@) {
                "d"@
            } else {
                marker@
            },
        ),
        None => s,
    };
    let s = match v.slot_14 {
        Some(suffix) => s.update(13, final_suffix_surface(suffix, v.transitive, v.perfective)),
        None => s,
    };
    s
}

/// Population of the outermost prefixes (array indices 0–1): the negative or
/// modal particle and the preformative.
pub open spec fn populate_first_block(s: Seq<Seq<char>>, v: FiniteVerbalForm) -> Seq<Seq<char>> {
    let s = match v.slot_1 {
        Some(FirstPrefix::Negative) => s.update(0, "nu"@),
        Some(FirstPrefix::Modal) => s.update(0, "ḫa"@),
        None => s,
    };
    let s = match v.slot_2 {
        Some(p) => s.update(1, preformative_surface(p)),
        None => s,
    };
    s
}

/// Population of the ventive, middle and person prefixes (array indices
/// 3–6).
pub open spec fn populate_person_block(s: Seq<Seq<char>>, v: FiniteVerbalForm) -> Seq<Seq<char>> {
    let s = if v.slot_4 is Some {
        s.update(3, "mu"@)
    } else {
        s
    };
    let s = if v.slot_5 is Some {
        s.update(4, "ba"@)
    } else {
        s
    };
    let s = match v.slot_6 {
        Some(p) => s.update(5, initial_person_surface(p)),
        None => s,
    };
    let s = match v.slot_7 {
        Some(p) => s.update(6, indirect_object_surface(p)),
        None => s,
    };
    s
}

/// Population of the dimensional prefixes (array indices 7–9): comitative,
/// ablative/terminative, and the provisional locative.
pub open spec fn populate_dimensional_block(s: Seq<Seq<char>>, v: FiniteVerbalForm) -> Seq<
    Seq<char>,
> {
    let s = if v.slot_8 is Some {
        s.update(7, "da"@)
    } else {
        s
    };
    let s = match v.slot_9 {
        Some(crate::verb::AdverbialPrefix::Ablative) => s.update(8, "ta"@),
        Some(crate::verb::AdverbialPrefix::Terminative) => s.update(8, "ši"@),
        None => s,
    };
    let s = match v.slot_10 {
        Some(p) => s.update(9, locative_provisional_surface(p)),
        None => s,
    };
    s
}

/// The straight-line part of population: one unadjusted surface string per
/// specified slot, independent of the other slots' content.
pub open spec fn populate_core(v: FiniteVerbalForm) -> Seq<Seq<char>> {
    populate_dimensional_block(
        populate_person_block(
            populate_first_block(populate_stem_block(empty_slots(), v), v),
            v,
        ),
        v,
    )
}

/// The realization the final person prefix takes when written into the
/// array `s`: the second-singular prefix contracts with a preceding
/// vowel-final morpheme, lengthening that vowel.
pub open spec fn final_prefix_realization(s: Seq<Seq<char>>, p: FinalPersonPrefix) -> Seq<char> {
    if p == FinalPersonPrefix::SecondSingHuman {
        match prev_filled(s, 10) {
            Some(i) => if ends_in(s[i], 'a') {
                "a"@
            } else if ends_in(s[i], 'i') {
                "i"@
            } else if ends_in(s[i], 'u') {
                "u"@
            } else {
                final_prefix_surface(p)
            },
            None => final_prefix_surface(p),
        }
    } else {
        final_prefix_surface(p)
    }
}

/// Writes the final person prefix (with its vowel harmony) into slot 11.
pub open spec fn populate_final_prefix(s: Seq<Seq<char>>, v: FiniteVerbalForm) -> Seq<Seq<char>> {
    match v.slot_11 {
        Some(p) => s.update(10, final_prefix_realization(s, p)),
        None => s,
    }
}

/// The ventive prefix is always written (in its default form) before the
/// first-singular initial person prefix.
pub open spec fn first_sing_ventive(s: Seq<Seq<char>>, v: FiniteVerbalForm) -> Seq<Seq<char>> {
    if v.slot_6 == Some(InitialPersonPrefix::FirstSing) {
        s.update(3, "mu"@)
    } else {
        s
    }
}

/// The fully populated, not yet adjusted slot array for `v`.
pub open spec fn populated_slots(v: FiniteVerbalForm) -> Seq<Seq<char>> {
    first_sing_ventive(populate_final_prefix(populate_core(v), v), v)
}

/// Pass 1 — ventive-triggered assimilation: after the ventive, the middle
/// prefix and the non-human indirect-object prefixes assimilate, the ventive
/// reducing to its nasal form.
pub open spec fn ventive_assimilation(s: Seq<Seq<char>>, v: FiniteVerbalForm) -> Seq<Seq<char>> {
    if v.slot_4 is Some {
        let s1 = if v.slot_5 is Some {
            s.update(3, "m"@).update(4, "ma"@)
        } else {
            s
        };
        if v.slot_7 == Some(IndirectObjectPrefix::ThirdSingNonHuman) || v.slot_7 == Some(
            IndirectObjectPrefix::ThirdPlurNonHuman,
        ) {
            s1.update(3, "m"@).update(6, "ma"@)
        } else {
            s1
        }
    } else {
        s
    }
}

/// Pass 2 — preformative contraction: a modal particle contracts with an
/// i-quality preformative into a single contracted form; otherwise the
/// preformative assimilates to a preceding u-final morpheme, or to a
/// u-initial stem standing directly after it.
pub open spec fn preformative_contraction(s: Seq<Seq<char>>, v: FiniteVerbalForm) -> Seq<Seq<char>> {
    if v.slot_2 is Some {
        if v.slot_1 == Some(FirstPrefix::Modal) {
            if v.slot_2 == Some(Preformative::I) {
                s.update(1, Seq::<char>::empty()).update(0, "ḫē"@)
            } else {
                s
            }
        } else {
            match prev_filled(s, 1) {
                Some(i) => if ends_in(s[i], 'u') {
                    s.update(1, "u"@)
                } else {
                    s
                },
                None => match next_filled(s, 2) {
                    Some(j) => if begins_in(s[j], 'u') && marker_at(j) == MarkerName::Stem {
                        s.update(1, "u"@)
                    } else {
                        s
                    },
                    None => s,
                },
            }
        }
    } else {
        s
    }
}

/// Pass 3 — final-person-suffix vowel reduction: a multi-character suffix
/// loses its leading vowel after a morpheme ending in a, i, u, or e.
pub open spec fn suffix_reduction(s: Seq<Seq<char>>, v: FiniteVerbalForm) -> Seq<Seq<char>> {
    if v.slot_14 is Some {
        match prev_filled(s, 12) {
            Some(i) => if s[13].len() > 1 && (ends_in(s[i], 'a') || ends_in(s[i], 'i') || ends_in(
                s[i],
                'u',
            ) || ends_in(s[i], 'e')) {
                s.update(13, s[13].drop_first())
            } else {
                s
            },
            None => s,
        }
    } else {
        s
    }
}

/// The descriptor configuration whose initial-person adjustment the rule set
/// leaves unresolved: a third-singular non-human initial person prefix next
/// to the ventive with only a locative marker among the dimensional slots.
/// Synthesis reports it as `Unsupported`.
pub open spec fn unresolved_initial_person(v: FiniteVerbalForm) -> bool {
    &&& v.slot_6 == Some(InitialPersonPrefix::ThirdSingNonHuman)
    &&& v.slot_4 is Some
    &&& v.slot_7 is None
    &&& v.slot_8 is None
    &&& v.slot_9 is None
    &&& v.slot_10 is Some
}

/// Pass 4 — initial-person-prefix adjustment: the third-singular non-human
/// prefix is suppressed (the ventive reducing to its nasal form) when the
/// ventive co-occurs with a comitative or ablative/terminative marker and no
/// indirect-object marker; the second-singular prefix contracts with a
/// preceding vowel-final morpheme.
pub open spec fn initial_prefix_adjustment(s: Seq<Seq<char>>, v: FiniteVerbalForm) -> Seq<
    Seq<char>,
> {
    match v.slot_6 {
        Some(InitialPersonPrefix::ThirdSingNonHuman) => {
            if v.slot_4 is Some && v.slot_7 is None && (v.slot_8 is Some || v.slot_9 is Some) {
                s.update(5, Seq::<char>::empty()).update(3, "m"@)
            } else {
                s
            }
        },
        Some(InitialPersonPrefix::SecondSing) => {
            match prev_filled(s, 5) {
                Some(i) => if ends_in(s[i], 'a') {
                    s.update(5, "a"@)
                } else if ends_in(s[i], 'i') {
                    s.update(5, "i"@)
                } else if ends_in(s[i], 'u') {
                    s.update(5, "u"@)
                } else {
                    s
                },
                None => s,
            }
        },
        _ => s,
    }
}

/// Pass 5 — locative finalization: the provisional locative marker is
/// replaced by a final form chosen jointly by the locative variant and
/// whether the final person prefix (slot 11) was populated. Only the two
/// variants without a co-occurring initial person are provisional; the two
/// with one keep the form population gave them.
pub open spec fn locative_finalization(s: Seq<Seq<char>>, v: FiniteVerbalForm) -> Seq<Seq<char>> {
    match v.slot_10 {
        Some(LocativePrefix::InWithoutInitialPerson) => s.update(
            9,
            if v.slot_11 is Some {
                "ni"@
            } else {
                "n"@
            },
        ),
        Some(LocativePrefix::OnWithoutInitialPerson) => s.update(
            9,
            if v.slot_11 is Some {
                Seq::<char>::empty()
            } else {
                "e"@
            },
        ),
        _ => s,
    }
}

/// Pass 6 — ventive vowel alternation: the ventive assimilates its vowel to
/// a directly following locative `ni` or indirect-object `ra`.
pub open spec fn ventive_alternation(s: Seq<Seq<char>>, v: FiniteVerbalForm) -> Seq<Seq<char>> {
    if v.slot_4 is Some {
        match next_filled(s, 4) {
            Some(j) => if s[j] == "ni"@ && marker_at(j) == MarkerName::LocativePrefix {
                s.update(3, "mi"@)
            } else if s[j] == "ra"@ && marker_at(j) == MarkerName::DativePrefix {
                s.update(3, "ma"@)
            } else {
                s
            },
            None => s,
        }
    } else {
        s
    }
}

/// The slot array after population and all adjustment passes, in their fixed
/// order.
pub open spec fn adjusted_slots(v: FiniteVerbalForm) -> Seq<Seq<char>> {
    ventive_alternation(
        locative_finalization(
            initial_prefix_adjustment(
                suffix_reduction(
                    preformative_contraction(ventive_assimilation(populated_slots(v), v), v),
                    v,
                ),
                v,
            ),
            v,
        ),
        v,
    )
}

/// What synthesis returns for descriptor `v`: the concatenation of the
/// adjusted slots, or the error the descriptor is rejected with. An empty
/// stem is rejected as `EmptyStem`; the unresolved initial-person
/// configuration as `Unsupported`.
pub open spec fn synthesize(v: FiniteVerbalForm) -> Result<Seq<char>, VerbError> {
    if v.slot_12@.len() == 0 {
        Err(VerbError::EmptyStem)
    } else if unresolved_initial_person(v) {
        Err(VerbError::Unsupported)
    } else {
        Ok(adjusted_slots(v).flatten())
    }
}

/// A `Result` of synthesis, viewed at the specification level.
pub open spec fn result_view(r: Result<String, VerbError>) -> Result<Seq<char>, VerbError> {
    match r {
        Ok(s) => Ok(s@),
        Err(e) => Err(e),
    }
}

} // verus!
