//! Single-account JMAP session gateway core: session document construction,
//! account identifier generation, capability limits, endpoint URL templating,
//! a deterministic content-derived state token, and the credential gate.

pub mod account;
pub mod capabilities;
pub mod config;
pub mod encoding;
pub mod server;
pub mod session;
pub mod urls;

use vstd::prelude::*;

verus! {

} // verus!
