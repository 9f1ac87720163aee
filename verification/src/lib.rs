//! Orchestration of a batch of lossless PNG optimizations: which files take
//! part, how the work is spread over a worker pool, how the outcome of each
//! file is classified, how the outcomes are reduced to one aggregate, and how
//! that aggregate is presented. The codec itself, the file system and the
//! console are the caller's affair; this crate decides and computes.
use vstd::prelude::*;

pub mod batch;
pub mod config;
pub mod discovery;
pub mod options;
pub mod outcome;
pub mod present;
pub mod report;
pub mod text;
pub mod workers;

verus! {

} // verus!
