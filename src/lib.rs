use vstd::prelude::*;

pub mod messages;
pub mod negotiator;
pub mod laws;

verus! {

/// Protocol version written into every commit this negotiator produces.
pub const NEGOTIATION_VERSION: u32 = 2;

} // verus!
