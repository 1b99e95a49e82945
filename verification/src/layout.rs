//! The capability slots that the service uses.

use vstd::prelude::*;

verus! {

/// The slot of the endpoint of the init process.
pub const INIT_SLOT: usize = 11;

/// The slot of the endpoint of the policy backend.
pub const POLICY_BACKEND_SLOT: usize = 12;

} // verus!
