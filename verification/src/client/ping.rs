//! What the ping handlers compute: the probes of a ping task, and which
//! captured packets answer them.

use crate::net::{
    echo_request_frame, ICMP4Packet, IPv4Packet, PacketPayload, PacketPayloadView, ECHO_REPLY,
};
use crate::schema::PingV4;
use crate::INFO_URL;
use vstd::prelude::*;
use vstd::string::StringSliceAdditionalSpecFns;

verus! {

/// One echo request on its way: the frame, and the addresses that the host
/// puts into the IPv4 header, as 32-bit values in network order.
#[derive(Debug)]
pub struct Probe {
    pub source_address: u32,
    pub destination_address: u32,
    pub frame: Vec<u8>,
}

/// Whether `probes` are the probes of a ping from `source_address` to
/// `destinations`: one for each destination, in order, each with `frame`.
pub open spec fn are_probes_of(
    probes: Seq<Probe>,
    source_address: u32,
    destinations: Seq<u32>,
    frame: Seq<u8>,
) -> bool {
    &&& probes.len() == destinations.len()
    &&& forall|i: int|
        0 <= i < probes.len() ==> {
            &&& (#[trigger] probes[i]).source_address == source_address
            &&& probes[i].destination_address == destinations[i]
            &&& probes[i].frame@ == frame
        }
}

/// Expands a ping task: one echo request for each destination, in the order
/// of the task, all with the same identifier, sequence number and body.
pub fn probes_of(ping: &PingV4, identifier: u16, sequence_number: u16, body: &Vec<u8>) -> (probes:
    Vec<Probe>)
    ensures
        are_probes_of(
            probes@,
            ping.source_address,
            ping.destination_addresses@,
            echo_request_frame(identifier, sequence_number, body@, INFO_URL.spec_bytes()),
        ),
{
    let mut probes: Vec<Probe> = Vec::new();
    let mut i: usize = 0;
    while i < ping.destination_addresses.len()
        invariant
            i <= ping.destination_addresses@.len(),
            are_probes_of(
                probes@,
                ping.source_address,
                ping.destination_addresses@.take(i as int),
                echo_request_frame(identifier, sequence_number, body@, INFO_URL.spec_bytes()),
            ),
        decreases ping.destination_addresses@.len() - i,
    {
        let payload = body.clone();
        assert(payload@ =~= body@);
        probes.push(
            Probe {
                source_address: ping.source_address,
                destination_address: ping.destination_addresses[i],
                frame: ICMP4Packet::echo_request(identifier, sequence_number, payload),
            },
        );
        i = i + 1;
    }
    assert(ping.destination_addresses@.take(i as int) =~= ping.destination_addresses@);
    probes
}

/// Whether a captured packet is an echo reply that carries `identifier`.
pub open spec fn is_reply_to(payload: PacketPayloadView, identifier: u16) -> bool {
    payload matches PacketPayloadView::ICMPv4 { value } && value.icmp_type == ECHO_REPLY
        && value.identifier == identifier
}

/// Tells whether `packet` answers a probe with `identifier`: it carries an
/// ICMPv4 echo reply with that identifier.
pub fn is_echo_reply(packet: &IPv4Packet, identifier: u16) -> (r: bool)
    ensures
        r == is_reply_to(packet@.payload, identifier),
{
    match &packet.payload {
        PacketPayload::ICMPv4 { value } => value.icmp_type == ECHO_REPLY && value.identifier
            == identifier,
        PacketPayload::Unimplemented => false,
    }
}

} // verus!
