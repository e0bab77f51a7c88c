//! Loopback ports of the two managed services.

use vstd::prelude::*;

verus! {

/// Port of the primary backend engine. Three-digit ports are valid port numbers.
pub const BACKEND_PORT: u16 = 819;

/// Port of the AI service.
pub const AI_BACKEND_PORT: u16 = 8081;

} // verus!
