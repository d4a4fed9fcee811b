//! The orchestration of an on-demand compile/bundle request: validating the
//! request, choosing where module sources come from, loading an import map,
//! and driving a graph builder through add, option analysis and emission.
//!
//! The work that reaches outside the process (resolving and fetching
//! specifiers, parsing import maps, building and emitting the graph) is done
//! by the host; this library decides what is done next and what is returned.
use vstd::prelude::*;

pub mod error;
pub mod laws;
pub mod options;
pub mod provider;
pub mod session;

verus! {

} // verus!
