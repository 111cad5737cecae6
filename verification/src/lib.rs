//! Synthesis of finite verbal forms for a templatic, agglutinative language.
//!
//! A verb form is described by a [`FiniteVerbalForm`]: one optional morpheme
//! per template slot plus the two governing flags (perfective, transitive).
//! Synthesis populates a fixed sequence of fifteen ordered slots, runs a fixed
//! list of context-sensitive phonological adjustment passes over them, and
//! concatenates the result into a single surface string.

mod chars;
pub mod laws;
pub mod lexicon;
pub mod model;
mod slots;
mod synthesis;
mod verb;

pub use chars::{ends_with_vowel, starts_with_consonant};
pub use lexicon::{available_verb_stems, find_verb, verb_forms, VerbAspect, VerbForm};
pub use slots::{new_slots, FinalVerbImpl, MarkerName};
pub use synthesis::{batch_descriptor, batch_rejection, batch_resolution, build_verb};
pub use verb::{
    AdverbialPrefix, ComitativePrefix, Coordinator, DativePrefix, DimensionalPrefixes,
    FinalPersonPrefix, FinalPersonSuffix, FiniteVerbalForm, FirstPrefix, InitialPersonPrefix,
    IndirectObjectPrefix, IpfvStem, LocativePrefix, MiddlePrefix, Person, Preformative, VerbError,
    Ventive,
};
