//! Addresses of the timer registers.

use vstd::prelude::*;

verus! {

pub const MM_TIME2: usize = 0o24;
pub const MM_TIME1: usize = 0o25;
pub const MM_TIME3: usize = 0o26;
pub const MM_TIME4: usize = 0o27;
pub const MM_TIME5: usize = 0o30;
pub const MM_TIME6: usize = 0o31;

} // verus!
