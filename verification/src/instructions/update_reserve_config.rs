//! Replacing the rules of a reserve.

use vstd::prelude::*;
use crate::reserve::{Reserve, ReserveConfig};

verus! {

/// Gives the reserve the rules `new_config`.
pub fn handler(reserve: &mut Reserve, new_config: ReserveConfig)
    ensures
        *final(reserve) == (Reserve { config: new_config, ..*old(reserve) }),
{
    reserve.config = new_config;
}

} // verus!
