//! Transliteration of IPA transcriptions of English into the Shavian
//! alphabet: a fixed table of letters, a greedy longest-match scanner with
//! a disambiguation fallback, the cleanup that prepares its input, and a
//! short summary of a text.
use vstd::prelude::*;

verus! {

pub mod alphabet;
pub mod engine;
pub mod keys;
pub mod laws;
pub mod stats;
pub mod text;

} // verus!
