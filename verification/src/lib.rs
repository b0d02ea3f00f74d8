//! Bookkeeping core of a rigid-body simulator.
//!
//! The crate keeps the body store, the contact queue, the constraint records
//! and the per-step schedule. Real-valued quantities are carried as IEEE-754
//! single-precision bit patterns (`u32`) and are never interpreted here beyond
//! tests for zero and for sign; time is counted in integer ticks so that the
//! pieces of a step add up exactly.

use vstd::prelude::*;

pub mod body;
pub mod config;
pub mod constraint;
pub mod contact;
pub mod schedule;
pub mod scene;

verus! {

} // verus!
