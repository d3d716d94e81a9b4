//! A launcher's core that overlays rendered secrets onto template files in a
//! private mount namespace: the overlay pipeline as a state machine, provider
//! lookup, staging-area naming, identity selection and logger selection.
use vstd::prelude::*;

pub mod config;
pub mod error;
pub mod identity;
pub mod journal;
pub mod names;
pub mod pipeline;
pub mod tempdir;

verus! {

} // verus!
