//! Flattens a PAIN.001 credit-transfer initiation document into CSV rows:
//! one row per transaction, with the group-header fields repeated on each.
use vstd::prelude::*;

pub mod model;
pub mod flatten;
pub mod output;
pub mod parser;

verus! {

} // verus!
