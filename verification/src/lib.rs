//! A benchmarking harness for CRDT text-document engines.
//!
//! Heterogeneous engines are normalized behind one capability interface
//! ([`engine::Crdt`]); two simulation drivers replay an edit trace into them —
//! sequentially into a single instance, or interleaved between two instances
//! that merge by full-snapshot exchange — and the byte length of the final
//! encoded document is collected per (engine, configuration) pair into a
//! report table rendered as a Markdown comparison grid.

use vstd::prelude::*;

pub mod digits;
pub mod driver;
pub mod engine;
mod rng;
pub mod report;
pub mod sync;

verus! {

/// One edit step of a workload: delete `del` code units at `pos`, then
/// insert `ins` at `pos`. Either part may be a no-op on its own.
pub struct Action {
    pub pos: usize,
    pub del: usize,
    pub ins: String,
}

} // verus!
