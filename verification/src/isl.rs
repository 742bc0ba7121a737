//! The Ion Schema Language layer: dialect versions, ranges, and the
//! value-level helpers constraints are built from.

use vstd::prelude::*;

pub mod isl_range;
pub mod util;

verus! {

/// The two dialect versions of the Ion Schema Language. They share most
/// semantics but differ in precise rules for some constraints.
#[derive(Debug, Clone, Copy, PartialEq, Eq, Structural)]
pub enum IslVersion {
    V1_0,
    V2_0,
}

} // verus!
