//! The library's laws: determinism of synthesis, the rejection of empty
//! stems, and the linear order of the person markers around the stem, each
//! proved of the synthesis model that `FiniteVerbalForm::print` is specified
//! against.

use vstd::prelude::*;
use vstd::seq_lib::lemma_flatten_concat;

use crate::model;
use crate::verb::{FiniteVerbalForm, VerbError};

verus! {

/// Whether two descriptors hold the same observable content: equal flags,
/// equal marker choices, and stem and aspect-marker strings with the same
/// characters.
pub open spec fn same_content(a: FiniteVerbalForm, b: FiniteVerbalForm) -> bool {
    &&& a.perfective == b.perfective
    &&& a.transitive == b.transitive
    &&& a.slot_1 == b.slot_1
    &&& a.slot_2 == b.slot_2
    &&& a.slot_3 == b.slot_3
    &&& a.slot_4 == b.slot_4
    &&& a.slot_5 == b.slot_5
    &&& a.slot_6 == b.slot_6
    &&& a.slot_7 == b.slot_7
    &&& a.slot_8 == b.slot_8
    &&& a.slot_9 == b.slot_9
    &&& a.slot_10 == b.slot_10
    &&& a.slot_11 == b.slot_11
    &&& a.slot_12@ == b.slot_12@
    &&& match (a.slot_13, b.slot_13) {
        (Some(x), Some(y)) => x@ == y@,
        (None, None) => true,
        _ => false,
    }
    &&& a.slot_14 == b.slot_14
    &&& a.slot_15 == b.slot_15
}

/// Determinism: synthesis is a function of the descriptor's observable
/// content alone. Two descriptors holding the same flags, marker choices and
/// stem characters synthesize to the same result — there is no hidden state,
/// so running synthesis twice on one descriptor returns identical output.
pub proof fn lemma_synthesis_deterministic(a: FiniteVerbalForm, b: FiniteVerbalForm)
    requires
        same_content(a, b),
    ensures
        model::synthesize(a) == model::synthesize(b),
{
    let e = model::empty_slots();
    assert(model::populate_stem_block(e, a) == model::populate_stem_block(e, b)) by {
        match (a.slot_13, b.slot_13) {
            (Some(x), Some(y)) => {
                assert(x@ == y@);
            },
            _ => {},
        }
    }
    let s1 = model::populate_stem_block(e, a);
    assert(model::populate_first_block(s1, a) == model::populate_first_block(s1, b));
    let s2 = model::populate_first_block(s1, a);
    assert(model::populate_person_block(s2, a) == model::populate_person_block(s2, b));
    let s3 = model::populate_person_block(s2, a);
    assert(model::populate_dimensional_block(s3, a) == model::populate_dimensional_block(s3, b));
    let s4 = model::populate_dimensional_block(s3, a);
    assert(model::populate_core(a) == model::populate_core(b));
    assert(model::populate_final_prefix(s4, a) == model::populate_final_prefix(s4, b));
    let s5 = model::populate_final_prefix(s4, a);
    assert(model::first_sing_ventive(s5, a) == model::first_sing_ventive(s5, b));
    let s6 = model::first_sing_ventive(s5, a);
    assert(model::populated_slots(a) == model::populated_slots(b));
    assert(model::ventive_assimilation(s6, a) == model::ventive_assimilation(s6, b));
    let s7 = model::ventive_assimilation(s6, a);
    assert(model::preformative_contraction(s7, a) == model::preformative_contraction(s7, b));
    let s8 = model::preformative_contraction(s7, a);
    assert(model::suffix_reduction(s8, a) == model::suffix_reduction(s8, b));
    let s9 = model::suffix_reduction(s8, a);
    assert(model::initial_prefix_adjustment(s9, a) == model::initial_prefix_adjustment(s9, b));
    let s10 = model::initial_prefix_adjustment(s9, a);
    assert(model::locative_finalization(s10, a) == model::locative_finalization(s10, b));
    let s11 = model::locative_finalization(s10, a);
    assert(model::ventive_alternation(s11, a) == model::ventive_alternation(s11, b));
    assert(model::adjusted_slots(a) == model::adjusted_slots(b));
    assert(model::unresolved_initial_person(a) == model::unresolved_initial_person(b));
}

/// A descriptor whose stem slot is empty always synthesizes to the
/// `EmptyStem` error, whatever its other slots hold.
pub proof fn lemma_empty_stem_rejected(v: FiniteVerbalForm)
    requires
        v.slot_12@.len() == 0,
    ensures
        model::synthesize(v) == Err::<Seq<char>, VerbError>(VerbError::EmptyStem),
{
}

/// Every stage of the model keeps the slot array at its fifteen positions.
proof fn lemma_adjusted_slots_len(v: FiniteVerbalForm)
    ensures
        model::adjusted_slots(v).len() == 15,
{
    let e = model::empty_slots();
    assert(e.len() == 15);
    let s1 = model::populate_stem_block(e, v);
    assert(s1.len() == 15);
    let s2 = model::populate_first_block(s1, v);
    assert(s2.len() == 15);
    let s3 = model::populate_person_block(s2, v);
    assert(s3.len() == 15);
    let s4 = model::populate_dimensional_block(s3, v);
    assert(s4.len() == 15);
    let s5 = model::populate_final_prefix(s4, v);
    assert(s5.len() == 15);
    let s6 = model::first_sing_ventive(s5, v);
    assert(s6.len() == 15);
    let s7 = model::ventive_assimilation(s6, v);
    assert(s7.len() == 15);
    let s8 = model::preformative_contraction(s7, v);
    assert(s8.len() == 15);
    let s9 = model::suffix_reduction(s8, v);
    assert(s9.len() == 15);
    let s10 = model::initial_prefix_adjustment(s9, v);
    assert(s10.len() == 15);
    let s11 = model::locative_finalization(s10, v);
    assert(s11.len() == 15);
    let s12 = model::ventive_alternation(s11, v);
    assert(s12.len() == 15);
}

/// No adjustment pass rewrites the stem: in the adjusted array, position 11
/// still holds the descriptor's stem characters.
pub proof fn lemma_stem_preserved(v: FiniteVerbalForm)
    ensures
        model::adjusted_slots(v).len() == 15,
        model::adjusted_slots(v)[11] == v.slot_12@,
{
    lemma_adjusted_slots_len(v);
    let e = model::empty_slots();
    let s1 = model::populate_stem_block(e, v);
    assert(s1[11] == v.slot_12@);
    let s2 = model::populate_first_block(s1, v);
    assert(s2[11] == v.slot_12@);
    let s3 = model::populate_person_block(s2, v);
    assert(s3[11] == v.slot_12@);
    let s4 = model::populate_dimensional_block(s3, v);
    assert(s4[11] == v.slot_12@);
    let s5 = model::populate_final_prefix(s4, v);
    assert(s5[11] == v.slot_12@);
    let s6 = model::first_sing_ventive(s5, v);
    assert(s6[11] == v.slot_12@);
    let s7 = model::ventive_assimilation(s6, v);
    assert(s7[11] == v.slot_12@);
    let s8 = model::preformative_contraction(s7, v);
    assert(s8[11] == v.slot_12@);
    let s9 = model::suffix_reduction(s8, v);
    assert(s9[11] == v.slot_12@);
    let s10 = model::initial_prefix_adjustment(s9, v);
    assert(s10[11] == v.slot_12@);
    let s11 = model::locative_finalization(s10, v);
    assert(s11[11] == v.slot_12@);
    let s12 = model::ventive_alternation(s11, v);
    assert(s12[11] == v.slot_12@);
}

/// The flattening of a slot array splits around any index.
proof fn lemma_flatten_split(s: Seq<Seq<char>>, i: int)
    requires
        0 <= i <= s.len(),
    ensures
        s.flatten() == s.take(i).flatten() + s.skip(i).flatten(),
{
    assert(s =~= s.take(i) + s.skip(i));
    lemma_flatten_concat(s.take(i), s.skip(i));
}

/// Peeling the first element off a flattened non-empty sequence.
proof fn lemma_flatten_first(s: Seq<Seq<char>>)
    requires
        s.len() > 0,
    ensures
        s.flatten() == s.first() + s.drop_first().flatten(),
{
}

/// The flattening of a fifteen-slot array, split around the final person
/// prefix, the stem, and the suffix slots.
proof fn lemma_flatten_fifteen(f: Seq<Seq<char>>)
    requires
        f.len() == 15,
    ensures
        f.flatten() == f.take(10).flatten() + f[10] + f[11] + f[12] + f[13] + f[14],
{
    lemma_flatten_split(f, 10);
    lemma_flatten_first(f.skip(10));
    assert(f.skip(10).first() == f[10]);
    assert(f.skip(10).drop_first() =~= f.skip(11));
    lemma_flatten_first(f.skip(11));
    assert(f.skip(11).first() == f[11]);
    assert(f.skip(11).drop_first() =~= f.skip(12));
    lemma_flatten_first(f.skip(12));
    assert(f.skip(12).first() == f[12]);
    assert(f.skip(12).drop_first() =~= f.skip(13));
    lemma_flatten_first(f.skip(13));
    assert(f.skip(13).first() == f[13]);
    assert(f.skip(13).drop_first() =~= f.skip(14));
    lemma_flatten_first(f.skip(14));
    assert(f.skip(14).first() == f[14]);
    assert(f.skip(14).drop_first() =~= Seq::<Seq<char>>::empty());
    assert(Seq::<Seq<char>>::empty().flatten() =~= Seq::<char>::empty());
    assert(f.flatten() =~= f.take(10).flatten() + f[10] + f[11] + f[12] + f[13] + f[14]);
}

/// Alignment order: a successful synthesis is exactly the prefixal material,
/// then the final person prefix slot, then the stem, then the suffixal
/// material, in that order. Under the split-alignment rule (the contracts of
/// `set_subject` and `set_object`), slot 11 — array position 10 — carries
/// the subject of a transitive perfective verb and the object of a
/// transitive imperfective one, so that marker's realization stands strictly
/// before the stem, and the final person suffix (array position 13) strictly
/// after it, in the output.
pub proof fn lemma_alignment_order(v: FiniteVerbalForm)
    requires
        model::synthesize(v) is Ok,
    ensures
        ({
            let f = model::adjusted_slots(v);
            model::synthesize(v) == Ok::<Seq<char>, VerbError>(
                f.take(10).flatten() + f[10] + v.slot_12@ + f[12] + f[13] + f[14],
            )
        }),
{
    lemma_stem_preserved(v);
    lemma_flatten_fifteen(model::adjusted_slots(v));
}

} // verus!
