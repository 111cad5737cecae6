//! The static lexicon: a keyed lookup from a dictionary citation form to its
//! meaning, transitivity, and perfective/imperfective stem allomorphs (one
//! pair each for singular and plural subjects).

use vstd::prelude::*;
use vstd::string::StringExecFns;

use crate::chars::str_eq;
use crate::verb::VerbError;

verus! {

/// A perfective/imperfective stem allomorph pair.
#[derive(Debug, Clone, PartialEq)]
pub struct VerbAspect {
    pub perf: String,
    pub imperf: String,
}

/// One lexicon entry.
#[derive(Debug, Clone, PartialEq)]
pub struct VerbForm {
    pub stem: String,
    pub meaning: String,
    pub transitive: bool,
    pub sing: VerbAspect,
    pub plur: VerbAspect,
}

/// The specification-level content of a lexicon entry.
pub struct VerbFormView {
    pub stem: Seq<char>,
    pub meaning: Seq<char>,
    pub transitive: bool,
    pub sing_perf: Seq<char>,
    pub sing_imperf: Seq<char>,
    pub plur_perf: Seq<char>,
    pub plur_imperf: Seq<char>,
}

impl View for VerbForm {
    type V = VerbFormView;

    open spec fn view(&self) -> VerbFormView {
        VerbFormView {
            stem: self.stem@,
            meaning: self.meaning@,
            transitive: self.transitive,
            sing_perf: self.sing.perf@,
            sing_imperf: self.sing.imperf@,
            plur_perf: self.plur.perf@,
            plur_imperf: self.plur.imperf@,
        }
    }
}

/// The lexicon's entries, in their fixed order.
pub open spec fn lexicon() -> Seq<VerbFormView> {
    seq![
        VerbFormView {
            stem: "gub"@,
            meaning: "to stand"@,
            transitive: false,
            sing_perf: "gub"@,
            sing_imperf: "gub"@,
            plur_perf: "šug"@,
            plur_imperf: "šug"@,
        },
        VerbFormView {
            stem: "dug"@,
            meaning: "to do"@,
            transitive: true,
            sing_perf: "dug"@,
            sing_imperf: "dug"@,
            plur_perf: "did"@,
            plur_imperf: "did"@,
        },
        VerbFormView {
            stem: "re"@,
            meaning: "to bring"@,
            transitive: true,
            sing_perf: "re"@,
            sing_imperf: "re"@,
            plur_perf: "tum"@,
            plur_imperf: "tum"@,
        },
        VerbFormView {
            stem: "ĝen"@,
            meaning: "to go"@,
            transitive: false,
            sing_perf: "ĝen"@,
            sing_imperf: "du"@,
            plur_perf: "er"@,
            plur_imperf: "sub"@,
        },
        VerbFormView {
            stem: "tuš"@,
            meaning: "to sit"@,
            transitive: false,
            sing_perf: "tuš"@,
            sing_imperf: "dur"@,
            plur_perf: "durun"@,
            plur_imperf: "durun"@,
        },
        VerbFormView {
            stem: "hulu"@,
            meaning: "to be bad"@,
            transitive: false,
            sing_perf: "hulu"@,
            sing_imperf: "hulhulu"@,
            plur_perf: "hulu"@,
            plur_imperf: "hulhulu"@,
        },
        VerbFormView {
            stem: "tuku"@,
            meaning: "to have"@,
            transitive: true,
            sing_perf: "tuku"@,
            sing_imperf: "tuktuku"@,
            plur_perf: "tuku"@,
            plur_imperf: "tuktuku"@,
        },
        VerbFormView {
            stem: "til"@,
            meaning: "to live"@,
            transitive: false,
            sing_perf: "til"@,
            sing_imperf: "til"@,
            plur_perf: "se"@,
            plur_imperf: "se"@,
        },
        VerbFormView {
            stem: "zig"@,
            meaning: "to rise, to raise"@,
            transitive: false,
            sing_perf: "zig"@,
            sing_imperf: "zigzig"@,
            plur_perf: "zig"@,
            plur_imperf: "zigzig"@,
        },
    ]
}

/// The first entry of `entries` whose citation form is `stem`, if any.
pub open spec fn lookup_in(entries: Seq<VerbFormView>, stem: Seq<char>) -> Option<VerbFormView>
    decreases entries.len(),
{
    if entries.len() == 0 {
        None
    } else if entries.first().stem == stem {
        Some(entries.first())
    } else {
        lookup_in(entries.drop_first(), stem)
    }
}

/// The lexicon entry for citation form `stem`, if any.
pub open spec fn lex_lookup(stem: Seq<char>) -> Option<VerbFormView> {
    lookup_in(lexicon(), stem)
}

/// One entry of the lexicon, as a value.
fn entry(
    stem: &str,
    meaning: &str,
    transitive: bool,
    sing_perf: &str,
    sing_imperf: &str,
    plur_perf: &str,
    plur_imperf: &str,
) -> (r: VerbForm)
    ensures
        r@ == (VerbFormView {
            stem: stem@,
            meaning: meaning@,
            transitive,
            sing_perf: sing_perf@,
            sing_imperf: sing_imperf@,
            plur_perf: plur_perf@,
            plur_imperf: plur_imperf@,
        }),
{
    VerbForm {
        stem: String::from_str(stem),
        meaning: String::from_str(meaning),
        transitive,
        sing: VerbAspect {
            perf: String::from_str(sing_perf),
            imperf: String::from_str(sing_imperf),
        },
        plur: VerbAspect {
            perf: String::from_str(plur_perf),
            imperf: String::from_str(plur_imperf),
        },
    }
}

/// The lexicon's entries, built in their fixed order.
pub fn verb_forms() -> (r: Vec<VerbForm>)
    ensures
        r@.len() == lexicon().len(),
        forall|i: int| 0 <= i < r@.len() ==> #[trigger] r@[i]@ == lexicon()[i],
{
    let mut v: Vec<VerbForm> = Vec::new();
    v.push(entry("gub", "to stand", false, "gub", "gub", "šug", "šug"));
    v.push(entry("dug", "to do", true, "dug", "dug", "did", "did"));
    v.push(entry("re", "to bring", true, "re", "re", "tum", "tum"));
    v.push(entry("ĝen", "to go", false, "ĝen", "du", "er", "sub"));
    v.push(entry("tuš", "to sit", false, "tuš", "dur", "durun", "durun"));
    v.push(entry("hulu", "to be bad", false, "hulu", "hulhulu", "hulu", "hulhulu"));
    v.push(entry("tuku", "to have", true, "tuku", "tuktuku", "tuku", "tuktuku"));
    v.push(entry("til", "to live", false, "til", "til", "se", "se"));
    v.push(entry("zig", "to rise, to raise", false, "zig", "zigzig", "zig", "zigzig"));
    v
}

/// The citation forms of every lexicon entry, in order.
pub fn available_verb_stems() -> (r: Vec<String>)
    ensures
        r@.len() == lexicon().len(),
        forall|i: int| 0 <= i < r@.len() ==> #[trigger] r@[i]@ == lexicon()[i].stem,
{
    let forms = verb_forms();
    let mut stems: Vec<String> = Vec::new();
    let mut i: usize = 0;
    while i < forms.len()
        invariant
            forms@.len() == lexicon().len(),
            forall|k: int| 0 <= k < forms@.len() ==> #[trigger] forms@[k]@ == lexicon()[k],
            i == stems@.len(),
            i <= forms@.len(),
            forall|k: int| 0 <= k < i ==> #[trigger] stems@[k]@ == lexicon()[k].stem,
        decreases forms@.len() - i,
    {
        let ghost pre = stems@;
        stems.push(forms[i].stem.clone());
        proof {
            assert forall|k: int| 0 <= k < i + 1 implies #[trigger] stems@[k]@ == lexicon()[k].stem
            by {
                if k < i {
                    assert(stems@[k] == pre[k]);
                } else {
                    assert(forms@[k]@ == lexicon()[k]);
                }
            }
        }
        i = i + 1;
    }
    stems
}

/// Looks `stem` up in the lexicon: the first entry with that citation form,
/// or `NotFound` when no entry has it.
pub fn find_verb(stem: &str) -> (r: Result<VerbForm, VerbError>)
    ensures
        match r {
            Ok(f) => lex_lookup(stem@) == Some(f@),
            Err(e) => e == VerbError::NotFound && lex_lookup(stem@) is None,
        },
{
    let mut forms = verb_forms();
    let mut i: usize = 0;
    proof {
        assert(lexicon().skip(0) =~= lexicon());
    }
    while i < forms.len()
        invariant
            forms@.len() == lexicon().len(),
            forall|k: int| 0 <= k < forms@.len() ==> #[trigger] forms@[k]@ == lexicon()[k],
            i <= forms@.len(),
            lookup_in(lexicon(), stem@) == lookup_in(lexicon().skip(i as int), stem@),
            forall|k: int| 0 <= k < i ==> #[trigger] lexicon()[k].stem != stem@,
        decreases forms@.len() - i,
    {
        proof {
            assert(lexicon().skip(i as int).len() > 0);
            assert(lexicon().skip(i as int).first() == lexicon()[i as int]);
            assert(lexicon().skip(i as int).drop_first() =~= lexicon().skip(i + 1));
            assert(forms@[i as int]@ == lexicon()[i as int]);
        }
        if str_eq(forms[i].stem.as_str(), stem) {
            proof {
                assert(lookup_in(lexicon().skip(i as int), stem@) == Some(lexicon()[i as int]));
            }
            let f = forms.remove(i);
            return Ok(f);
        }
        proof {
            assert(lexicon()[i as int].stem != stem@);
            assert(lookup_in(lexicon().skip(i as int), stem@) == lookup_in(
                lexicon().skip(i + 1),
                stem@,
            ));
        }
        i = i + 1;
    }
    proof {
        assert(lexicon().skip(9) =~= Seq::<VerbFormView>::empty());
    }
    Err(VerbError::NotFound)
}

} // verus!
