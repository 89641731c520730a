//! Atomic-operation capability levels, as reported in the capability
//! record's `atomic_cap` field.

use vstd::prelude::*;

verus! {

pub const IBV_ATOMIC_NONE: u32 = 0;
pub const IBV_ATOMIC_HCA: u32 = 1;
pub const IBV_ATOMIC_GLOB: u32 = 2;

} // verus!
