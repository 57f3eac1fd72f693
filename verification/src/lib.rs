//! Location service for SIP registrations: configuration loading, the
//! location-store key scheme and command planning, the request decisions of
//! the registrar gRPC service, and the mapping of service errors to gRPC
//! statuses.
use vstd::prelude::*;

pub mod config;
pub mod error;
pub mod registrar;
pub mod startup;
pub mod store;
pub mod text;

verus! {

} // verus!
