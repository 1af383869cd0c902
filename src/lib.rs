//! Typed settings storage for a hardware wallet: typed fields over a flat
//! namespaced key-value store, device settings with their validation and
//! defaulting rules, monotonic counters and recovery-share slots.

use vstd::prelude::*;

pub mod counter;
pub mod device;
pub mod encoding;
pub mod error;
pub mod field;
pub mod hex;
pub mod recovery_shares;
pub mod registry;
pub mod storage;

verus! {

} // verus!
