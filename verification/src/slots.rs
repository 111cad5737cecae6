//! The working slot array: fifteen ordered strings, one per template slot,
//! written by the populator and rewritten by the adjustment passes. The
//! operations are gathered in the [`FinalVerbImpl`] trait and implemented
//! for `Vec<String>`.

use vstd::prelude::*;
use vstd::string::StrSliceExecFns;
use vstd::string::StringExecFns;

use crate::model::{marker_at, next_filled, prev_filled};

verus! {

/// The marker category occupying each slot, in template order.
#[derive(Debug, Clone, Copy, PartialEq, Eq, Structural)]
pub enum MarkerName {
    FirstPrefix,
    Preformative,
    Coordinator,
    Ventive,
    MiddlePrefix,
    InitialPronominalPrefix,
    DativePrefix,
    ComitativePrefix,
    AdverbialPrefix,
    LocativePrefix,
    FinalPersonPrefix,
    Stem,
    EdMarker,
    FinalPersonSuffix,
    Subordinator,
}

impl MarkerName {
    /// The slot-array index this marker occupies.
    pub fn position(&self) -> (r: usize)
        ensures
            0 <= r < 15,
            marker_at(r as int) == *self,
    {
        match self {
            MarkerName::FirstPrefix => 0,
            MarkerName::Preformative => 1,
            MarkerName::Coordinator => 2,
            MarkerName::Ventive => 3,
            MarkerName::MiddlePrefix => 4,
            MarkerName::InitialPronominalPrefix => 5,
            MarkerName::DativePrefix => 6,
            MarkerName::ComitativePrefix => 7,
            MarkerName::AdverbialPrefix => 8,
            MarkerName::LocativePrefix => 9,
            MarkerName::FinalPersonPrefix => 10,
            MarkerName::Stem => 11,
            MarkerName::EdMarker => 12,
            MarkerName::FinalPersonSuffix => 13,
            MarkerName::Subordinator => 14,
        }
    }
}

/// The operations of the working slot array: writes into fixed slots, the
/// non-local nearest-filled-slot queries the adjustment passes consult, and
/// the final concatenation.
pub trait FinalVerbImpl {
    /// The realized morphemes, one `Seq<char>` per slot.
    spec fn morphemes(&self) -> Seq<Seq<char>>;

    /// Whether the array holds exactly one string per template slot.
    spec fn wf(&self) -> bool;

    fn add_stem(&mut self, new_stem: String)
        requires
            old(self).wf(),
        ensures
            final(self).wf(),
            final(self).morphemes() == old(self).morphemes().update(11, new_stem@),
    ;

    fn add_ed_marker(&mut self, marker: String)
        requires
            old(self).wf(),
        ensures
            final(self).wf(),
            final(self).morphemes() == old(self).morphemes().update(12, marker@),
    ;

    fn add_final_ps_suffix(&mut self, suffix: String)
        requires
            old(self).wf(),
        ensures
            final(self).wf(),
            final(self).morphemes() == old(self).morphemes().update(13, suffix@),
    ;

    fn add_subordinator(&mut self, subordinator: String)
        requires
            old(self).wf(),
        ensures
            final(self).wf(),
            final(self).morphemes() == old(self).morphemes().update(14, subordinator@),
    ;

    fn add_preformative_prefix(&mut self, preformative: String)
        requires
            old(self).wf(),
        ensures
            final(self).wf(),
            final(self).morphemes() == old(self).morphemes().update(1, preformative@),
    ;

    fn add_final_ps_prefix(&mut self, prefix: String)
        requires
            old(self).wf(),
        ensures
            final(self).wf(),
            final(self).morphemes() == old(self).morphemes().update(10, prefix@),
    ;

    fn add_negative_prefix(&mut self)
        requires
            old(self).wf(),
        ensures
            final(self).wf(),
            final(self).morphemes() == old(self).morphemes().update(0, "nu"@),
    ;

    /// Writes the modal particle: the given contracted form, or the default
    /// `ḫa` when none is given.
    fn add_modal_prefix(&mut self, prefix: Option<String>)
        requires
            old(self).wf(),
        ensures
            final(self).wf(),
            final(self).morphemes() == old(self).morphemes().update(
                0,
                match prefix {
                    Some(p) => p@,
                    None => "ḫa"@,
                },
            ),
    ;

    fn add_ventive(&mut self, ventive: String)
        requires
            old(self).wf(),
        ensures
            final(self).wf(),
            final(self).morphemes() == old(self).morphemes().update(3, ventive@),
    ;

    fn add_middle_prefix(&mut self, middle_prefix: String)
        requires
            old(self).wf(),
        ensures
            final(self).wf(),
            final(self).morphemes() == old(self).morphemes().update(4, middle_prefix@),
    ;

    fn add_initial_person_prefix(&mut self, prefix: String)
        requires
            old(self).wf(),
        ensures
            final(self).wf(),
            final(self).morphemes() == old(self).morphemes().update(5, prefix@),
    ;

    fn add_indirect_object(&mut self, prefix: String)
        requires
            old(self).wf(),
        ensures
            final(self).wf(),
            final(self).morphemes() == old(self).morphemes().update(6, prefix@),
    ;

    fn add_comitative(&mut self, comitative: String)
        requires
            old(self).wf(),
        ensures
            final(self).wf(),
            final(self).morphemes() == old(self).morphemes().update(7, comitative@),
    ;

    fn add_terminative(&mut self)
        requires
            old(self).wf(),
        ensures
            final(self).wf(),
            final(self).morphemes() == old(self).morphemes().update(8, "ši"@),
    ;

    fn add_ablative(&mut self)
        requires
            old(self).wf(),
        ensures
            final(self).wf(),
            final(self).morphemes() == old(self).morphemes().update(8, "ta"@),
    ;

    fn add_locative_prefix(&mut self, prefix: String)
        requires
            old(self).wf(),
        ensures
            final(self).wf(),
            final(self).morphemes() == old(self).morphemes().update(9, prefix@),
    ;

    /// The content of the nearest non-empty slot strictly before
    /// `starting_slot`, if any.
    fn find_previous_morphem(&self, starting_slot: usize) -> (r: Option<String>)
        requires
            self.wf(),
            starting_slot <= 15,
        ensures
            match r {
                Some(m) => {
                    &&& prev_filled(self.morphemes(), starting_slot as int) matches Some(i)
                    &&& m@ == self.morphemes()[prev_filled(
                        self.morphemes(),
                        starting_slot as int,
                    )->Some_0]
                },
                None => prev_filled(self.morphemes(), starting_slot as int) is None,
            },
    ;

    /// The content and marker of the nearest non-empty slot at or after
    /// `starting_slot`, if any.
    fn find_following_morphem(&self, starting_slot: usize) -> (r: Option<(String, MarkerName)>)
        requires
            self.wf(),
        ensures
            match r {
                Some(m) => {
                    &&& next_filled(self.morphemes(), starting_slot as int) matches Some(j)
                    &&& m.0@ == self.morphemes()[next_filled(
                        self.morphemes(),
                        starting_slot as int,
                    )->Some_0]
                    &&& m.1 == marker_at(next_filled(self.morphemes(), starting_slot as int)->Some_0)
                },
                None => next_filled(self.morphemes(), starting_slot as int) is None,
            },
    ;

    /// The content of the first non-empty slot, if any.
    fn find_first_morpheme(&self) -> (r: Option<String>)
        requires
            self.wf(),
        ensures
            match r {
                Some(m) => {
                    &&& next_filled(self.morphemes(), 0) matches Some(j)
                    &&& m@ == self.morphemes()[next_filled(self.morphemes(), 0)->Some_0]
                },
                None => next_filled(self.morphemes(), 0) is None,
            },
    ;

    /// The final person suffix currently realized, when non-empty.
    fn find_final_ps_suffix(&self) -> (r: Option<String>)
        requires
            self.wf(),
        ensures
            match r {
                Some(m) => m@ == self.morphemes()[13] && m@.len() > 0,
                None => self.morphemes()[13].len() == 0,
            },
    ;

    /// The marker occupying a given slot-array index, or an error for an
    /// index outside the template.
    fn name_by_position(position: usize) -> (r: Result<MarkerName, ()>)
        ensures
            position < 15 ==> r == Ok::<MarkerName, ()>(marker_at(position as int)),
            position >= 15 ==> r is Err,
    ;

    /// The concatenation of all slots, in template order.
    fn print(&self) -> (r: String)
        requires
            self.wf(),
        ensures
            r@ == self.morphemes().flatten(),
    ;
}

impl FinalVerbImpl for Vec<String> {
    open spec fn morphemes(&self) -> Seq<Seq<char>> {
        self.deep_view()
    }

    open spec fn wf(&self) -> bool {
        self@.len() == 15
    }

    fn add_stem(&mut self, new_stem: String) {
        set_slot(self, 11, new_stem);
    }

    fn add_ed_marker(&mut self, marker: String) {
        set_slot(self, 12, marker);
    }

    fn add_final_ps_suffix(&mut self, suffix: String) {
        set_slot(self, 13, suffix);
    }

    fn add_subordinator(&mut self, subordinator: String) {
        set_slot(self, 14, subordinator);
    }

    fn add_preformative_prefix(&mut self, preformative: String) {
        set_slot(self, 1, preformative);
    }

    fn add_final_ps_prefix(&mut self, prefix: String) {
        set_slot(self, 10, prefix);
    }

    fn add_negative_prefix(&mut self) {
        set_slot(self, 0, String::from_str("nu"));
    }

    fn add_modal_prefix(&mut self, prefix: Option<String>) {
        match prefix {
            Some(p) => set_slot(self, 0, p),
            None => set_slot(self, 0, String::from_str("ḫa")),
        }
    }

    fn add_ventive(&mut self, ventive: String) {
        set_slot(self, 3, ventive);
    }

    fn add_middle_prefix(&mut self, middle_prefix: String) {
        set_slot(self, 4, middle_prefix);
    }

    fn add_initial_person_prefix(&mut self, prefix: String) {
        set_slot(self, 5, prefix);
    }

    fn add_indirect_object(&mut self, prefix: String) {
        set_slot(self, 6, prefix);
    }

    fn add_comitative(&mut self, comitative: String) {
        set_slot(self, 7, comitative);
    }

    fn add_terminative(&mut self) {
        set_slot(self, 8, String::from_str("ši"));
    }

    fn add_ablative(&mut self) {
        set_slot(self, 8, String::from_str("ta"));
    }

    fn add_locative_prefix(&mut self, prefix: String) {
        set_slot(self, 9, prefix);
    }

    fn find_previous_morphem(&self, starting_slot: usize) -> (r: Option<String>) {
        let mut i: usize = starting_slot;
        while i > 0
            invariant
                self.wf(),
                i <= starting_slot <= 15,
                prev_filled(self.morphemes(), starting_slot as int) == prev_filled(
                    self.morphemes(),
                    i as int,
                ),
            decreases i,
        {
            i = i - 1;
            if !self[i].as_str().is_empty() {
                return Some(self[i].clone());
            }
        }
        None
    }

    fn find_following_morphem(&self, starting_slot: usize) -> (r: Option<(String, MarkerName)>) {
        let mut i: usize = starting_slot;
        while i < self.len()
            invariant
                self.wf(),
                starting_slot <= i,
                next_filled(self.morphemes(), starting_slot as int) == next_filled(
                    self.morphemes(),
                    i as int,
                ),
            decreases self@.len() - i,
        {
            if !self[i].as_str().is_empty() {
                match Self::name_by_position(i) {
                    Ok(name) => {
                        return Some((self[i].clone(), name));
                    },
                    Err(_) => (),
                }
            }
            i = i + 1;
        }
        None
    }

    fn find_first_morpheme(&self) -> (r: Option<String>) {
        let mut i: usize = 0;
        while i < self.len()
            invariant
                self.wf(),
                i <= 15,
                next_filled(self.morphemes(), 0) == next_filled(self.morphemes(), i as int),
            decreases self@.len() - i,
        {
            if !self[i].as_str().is_empty() {
                return Some(self[i].clone());
            }
            i = i + 1;
        }
        None
    }

    fn find_final_ps_suffix(&self) -> (r: Option<String>) {
        let suffix = self[13].clone();
        if suffix.as_str().is_empty() {
            return None;
        }
        Some(suffix)
    }

    fn name_by_position(position: usize) -> (r: Result<MarkerName, ()>) {
        match position {
            0 => Ok(MarkerName::FirstPrefix),
            1 => Ok(MarkerName::Preformative),
            2 => Ok(MarkerName::Coordinator),
            3 => Ok(MarkerName::Ventive),
            4 => Ok(MarkerName::MiddlePrefix),
            5 => Ok(MarkerName::InitialPronominalPrefix),
            6 => Ok(MarkerName::DativePrefix),
            7 => Ok(MarkerName::ComitativePrefix),
            8 => Ok(MarkerName::AdverbialPrefix),
            9 => Ok(MarkerName::LocativePrefix),
            10 => Ok(MarkerName::FinalPersonPrefix),
            11 => Ok(MarkerName::Stem),
            12 => Ok(MarkerName::EdMarker),
            13 => Ok(MarkerName::FinalPersonSuffix),
            14 => Ok(MarkerName::Subordinator),
            _ => Err(()),
        }
    }

    fn print(&self) -> (r: String) {
        let mut out = String::new();
        let mut i: usize = 0;
        proof {
            assert(self.morphemes().take(0) =~= Seq::<Seq<char>>::empty());
            assert(Seq::<Seq<char>>::empty().flatten() =~= Seq::<char>::empty());
        }
        while i < self.len()
            invariant
                self.wf(),
                i <= 15,
                out@ == self.morphemes().take(i as int).flatten(),
            decreases self@.len() - i,
        {
            proof {
                let m = self.morphemes();
                assert(m.take(i + 1) =~= m.take(i as int).push(m[i as int]));
                m.take(i as int).lemma_flatten_push(m[i as int]);
            }
            out.append(self[i].as_str());
            i = i + 1;
        }
        proof {
            assert(self.morphemes().take(15) =~= self.morphemes());
        }
        out
    }
}

/// An array holding one empty string per template slot.
pub fn new_slots() -> (r: Vec<String>)
    ensures
        r.wf(),
        r.morphemes() =~= crate::model::empty_slots(),
{
    let mut v: Vec<String> = Vec::new();
    let mut i: usize = 0;
    while i < 15
        invariant
            i == v@.len(),
            i <= 15,
            forall|j: int| 0 <= j < i ==> v.deep_view()[j] == Seq::<char>::empty(),
        decreases 15 - i,
    {
        let ghost pre = v.deep_view();
        v.push(String::new());
        proof {
            assert forall|j: int| 0 <= j < i + 1 implies v.deep_view()[j] == Seq::<char>::empty()
            by {
                if j < i {
                    assert(v.deep_view()[j] == pre[j]);
                }
            }
        }
        i = i + 1;
    }
    proof {
        assert(v.morphemes() =~= crate::model::empty_slots());
    }
    v
}

/// Replaces the content of slot index `i`.
fn set_slot(slots: &mut Vec<String>, i: usize, val: String)
    requires
        i < old(slots)@.len(),
    ensures
        final(slots)@.len() == old(slots)@.len(),
        final(slots).deep_view() == old(slots).deep_view().update(i as int, val@),
{
    slots[i] = val;
    proof {
        assert(slots.deep_view() =~= old(slots).deep_view().update(i as int, val@));
    }
}

} // verus!
