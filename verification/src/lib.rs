//! Control-plane logic of an ICMP active-measurement system: the ICMPv4 wire
//! format with its one's-complement checksum, the coordinator's registries of
//! agent sessions and result subscribers, and the agent's task routing.

use vstd::prelude::*;

pub mod client;
pub mod net;
pub mod schema;
pub mod server;

verus! {

/// Identifies the measurement to whoever inspects a probe. It is summed into
/// the checksum of every echo request.
pub const INFO_URL: &'static str = "edu.nl/9qt8h";

} // verus!
