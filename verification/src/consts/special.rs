//! Addresses of the special (counter and link) registers.

use vstd::prelude::*;

verus! {

pub const SG_CDUX: usize = 0o32;
pub const SG_CDUY: usize = 0o33;
pub const SG_CDUZ: usize = 0o34;
pub const SG_OPTY: usize = 0o35;
pub const SG_OPTX: usize = 0o36;
pub const SG_PIPAX: usize = 0o37;
pub const SG_PIPAY: usize = 0o40;
pub const SG_PIPAZ: usize = 0o41;
pub const SG_RCHP: usize = 0o42;
pub const SG_RCHY: usize = 0o43;
pub const SG_RCHR: usize = 0o44;
pub const SG_INLINK: usize = 0o45;
pub const SG_RNRAD: usize = 0o46;
pub const SG_GYROCTR: usize = 0o47;
pub const SG_CDUXCMD: usize = 0o50;
pub const SG_CDUYCMD: usize = 0o51;
pub const SG_CDUZCMD: usize = 0o52;
pub const SG_OPTYCMD: usize = 0o53;
pub const SG_OPTXCMD: usize = 0o54;
pub const SG_THRUST: usize = 0o55;
pub const SG_LEMONM: usize = 0o56;
pub const SG_OUTLINK: usize = 0o57;
pub const SG_ALTM: usize = 0o60;

} // verus!
