//! Addresses of the editing registers.

use vstd::prelude::*;

verus! {

pub const SG_CYR: usize = 0o20;
pub const SG_SR: usize = 0o21;
pub const SG_CYL: usize = 0o22;
pub const SG_EDOP: usize = 0o23;

} // verus!
