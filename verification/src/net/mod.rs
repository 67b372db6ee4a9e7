//! IPv4 and ICMPv4 wire format.

pub mod checksum;
pub mod endian;

use crate::net::checksum::{
    calc_checksum, checksum_of, fold_carries, lemma_inserted_checksum_validates, word_sum,
};
use crate::net::endian::{
    high_byte, lemma_u16_bytes, low_byte, push_u16_be, put_u16_le, read_u16_be, read_u32_be,
    u16_of, u32_of,
};
use crate::INFO_URL;
use vstd::prelude::*;
use vstd::slice::{slice_subrange, slice_to_vec};
use vstd::string::StringSliceAdditionalSpecFns;

verus! {

/// The ICMP type of an echo request.
pub const ECHO_REQUEST: u8 = 8;

/// The ICMP type of an echo reply.
pub const ECHO_REPLY: u8 = 0;

/// The IPv4 protocol number of ICMP.
pub const PROTOCOL_ICMP: u8 = 1;

/// Length of the fixed part of an ICMPv4 echo message.
pub const ICMP_HEADER_LENGTH: usize = 8;

/// Length of an IPv4 header without options: the part that is always read.
pub const IPV4_MIN_HEADER_LENGTH: usize = 20;

/// An ICMPv4 echo message.
#[derive(Debug)]
pub struct ICMP4Packet {
    pub icmp_type: u8,
    pub code: u8,
    pub checksum: u16,
    pub identifier: u16,
    pub sequence_number: u16,
    pub body: Vec<u8>,
}

/// What an [`ICMP4Packet`] holds, with its body as a sequence.
pub struct ICMP4PacketView {
    pub icmp_type: u8,
    pub code: u8,
    pub checksum: u16,
    pub identifier: u16,
    pub sequence_number: u16,
    pub body: Seq<u8>,
}

impl View for ICMP4Packet {
    type V = ICMP4PacketView;

    open spec fn view(&self) -> ICMP4PacketView {
        ICMP4PacketView {
            icmp_type: self.icmp_type,
            code: self.code,
            checksum: self.checksum,
            identifier: self.identifier,
            sequence_number: self.sequence_number,
            body: self.body@,
        }
    }
}

/// The message that the bytes `data` encode: type, code, then checksum,
/// identifier and sequence number in network order, then the body.
pub open spec fn icmp_of_bytes(data: Seq<u8>) -> ICMP4PacketView
    recommends
        data.len() >= 8,
{
    ICMP4PacketView {
        icmp_type: data[0],
        code: data[1],
        checksum: u16_of(data[2], data[3]),
        identifier: u16_of(data[4], data[5]),
        sequence_number: u16_of(data[6], data[7]),
        body: data.skip(8),
    }
}

/// The bytes that encode `packet`, every 16-bit field in network order.
pub open spec fn icmp_to_bytes(packet: ICMP4PacketView) -> Seq<u8> {
    seq![
        packet.icmp_type,
        packet.code,
        high_byte(packet.checksum),
        low_byte(packet.checksum),
        high_byte(packet.identifier),
        low_byte(packet.identifier),
        high_byte(packet.sequence_number),
        low_byte(packet.sequence_number),
    ] + packet.body
}

/// An echo request before its checksum is filled in.
pub open spec fn unsummed_echo_request(
    identifier: u16,
    sequence_number: u16,
    body: Seq<u8>,
) -> ICMP4PacketView {
    ICMP4PacketView {
        icmp_type: ECHO_REQUEST,
        code: 0,
        checksum: 0,
        identifier,
        sequence_number,
        body,
    }
}

/// The frame of an echo request. Its checksum is taken over the frame with a
/// zero checksum field followed by `signature`, and stands at offsets 2 and 3
/// with the least significant byte first. The signature is not in the frame.
pub open spec fn echo_request_frame(
    identifier: u16,
    sequence_number: u16,
    body: Seq<u8>,
    signature: Seq<u8>,
) -> Seq<u8> {
    let unsummed = icmp_to_bytes(unsummed_echo_request(identifier, sequence_number, body));
    let c = checksum_of(unsummed + signature);
    unsummed.update(2, low_byte(c)).update(3, high_byte(c))
}

impl ICMP4Packet {
    /// Decodes an ICMPv4 message of at least eight bytes.
    pub fn from(data: &[u8]) -> (packet: ICMP4Packet)
        requires
            data@.len() >= 8,
        ensures
            packet@ == icmp_of_bytes(data@),
    {
        let packet = ICMP4Packet {
            icmp_type: data[0],
            code: data[1],
            checksum: read_u16_be(slice_subrange(data, 2, 4)),
            identifier: read_u16_be(slice_subrange(data, 4, 6)),
            sequence_number: read_u16_be(slice_subrange(data, 6, 8)),
            body: slice_to_vec(slice_subrange(data, 8, data.len())),
        };
        assert(packet.body@ =~= data@.skip(8));
        packet
    }

    /// Decodes an ICMPv4 message, or finds `data` too short to hold one.
    pub fn parse(data: &[u8]) -> (r: Option<ICMP4Packet>)
        ensures
            r is Some <==> data@.len() >= 8,
            r matches Some(packet) ==> packet@ == icmp_of_bytes(data@),
    {
        if data.len() >= ICMP_HEADER_LENGTH {
            Some(ICMP4Packet::from(data))
        } else {
            None
        }
    }

    /// Encodes the message, every 16-bit field in network order.
    pub fn into(&self) -> (bytes: Vec<u8>)
        ensures
            bytes@ == icmp_to_bytes(self@),
    {
        let mut wtr: Vec<u8> = Vec::new();
        wtr.push(self.icmp_type);
        wtr.push(self.code);
        push_u16_be(&mut wtr, self.checksum);
        push_u16_be(&mut wtr, self.identifier);
        push_u16_be(&mut wtr, self.sequence_number);
        wtr.extend_from_slice(self.body.as_slice());
        assert(wtr@ =~= icmp_to_bytes(self@));
        wtr
    }

    /// Builds the frame of an ICMPv4 echo request whose checksum also covers
    /// `signature`.
    pub fn echo_request_signed(
        identifier: u16,
        sequence_number: u16,
        body: Vec<u8>,
        signature: &[u8],
    ) -> (frame: Vec<u8>)
        ensures
            frame@ == echo_request_frame(identifier, sequence_number, body@, signature@),
    {
        let packet = ICMP4Packet {
            icmp_type: ECHO_REQUEST,
            code: 0,
            checksum: 0,
            identifier,
            sequence_number,
            body,
        };
        let mut frame: Vec<u8> = ICMP4Packet::into(&packet);
        let mut summed = frame.clone();
        summed.extend_from_slice(signature);
        assert(summed@ =~= frame@ + signature@);
        let checksum = calc_checksum(summed.as_slice());
        put_u16_le(&mut frame, 2, checksum);
        frame
    }

    /// Builds the frame of an ICMPv4 echo request with the given identifier,
    /// sequence number and body, signed with [`INFO_URL`].
    pub fn echo_request(identifier: u16, sequence_number: u16, body: Vec<u8>) -> (frame: Vec<u8>)
        ensures
            frame@ == echo_request_frame(
                identifier,
                sequence_number,
                body@,
                INFO_URL.spec_bytes(),
            ),
    {
        ICMP4Packet::echo_request_signed(identifier, sequence_number, body, INFO_URL.as_bytes())
    }
}

/// What an IPv4 packet carries.
#[derive(Debug)]
pub enum PacketPayload {
    ICMPv4 { value: ICMP4Packet },
    Unimplemented,
}

/// What a [`PacketPayload`] holds, with the message as its view.
pub enum PacketPayloadView {
    ICMPv4 { value: ICMP4PacketView },
    Unimplemented,
}

impl View for PacketPayload {
    type V = PacketPayloadView;

    open spec fn view(&self) -> PacketPayloadView {
        match self {
            PacketPayload::ICMPv4 { value } => PacketPayloadView::ICMPv4 { value: value@ },
            PacketPayload::Unimplemented => PacketPayloadView::Unimplemented,
        }
    }
}

/// The fields of a captured IPv4 packet that the measurement reads. The
/// addresses are the 32-bit values that stand on the wire in network order.
#[derive(Debug)]
pub struct IPv4Packet {
    pub ttl: u8,
    pub source_address: u32,
    pub destination_address: u32,
    pub payload: PacketPayload,
}

/// What an [`IPv4Packet`] holds, with the payload as its view.
pub struct IPv4PacketView {
    pub ttl: u8,
    pub source_address: u32,
    pub destination_address: u32,
    pub payload: PacketPayloadView,
}

impl View for IPv4Packet {
    type V = IPv4PacketView;

    open spec fn view(&self) -> IPv4PacketView {
        IPv4PacketView {
            ttl: self.ttl,
            source_address: self.source_address,
            destination_address: self.destination_address,
            payload: self.payload@,
        }
    }
}

/// The header length in bytes that a packet announces: the low four bits of
/// its first byte count 32-bit words.
pub open spec fn ipv4_header_length(data: Seq<u8>) -> int
    recommends
        data.len() >= 1,
{
    (data[0] as int % 16) * 4
}

/// Whether `data` is long enough to be decoded: the fixed fields up to the
/// destination address are there, the payload starts inside the buffer, and
/// an ICMP payload has its eight fixed bytes.
pub open spec fn ipv4_parseable(data: Seq<u8>) -> bool {
    &&& data.len() >= 20
    &&& ipv4_header_length(data) <= data.len()
    &&& data[9] == PROTOCOL_ICMP ==> data.len() - ipv4_header_length(data) >= 8
}

/// The packet that the bytes `data` encode. The payload is what follows the
/// announced header length, decoded as ICMPv4 where the protocol is ICMP.
pub open spec fn ipv4_of_bytes(data: Seq<u8>) -> IPv4PacketView
    recommends
        ipv4_parseable(data),
{
    IPv4PacketView {
        ttl: data[8],
        source_address: u32_of(data[12], data[13], data[14], data[15]),
        destination_address: u32_of(data[16], data[17], data[18], data[19]),
        payload: if data[9] == PROTOCOL_ICMP {
            PacketPayloadView::ICMPv4 { value: icmp_of_bytes(data.skip(ipv4_header_length(data))) }
        } else {
            PacketPayloadView::Unimplemented
        },
    }
}

impl IPv4Packet {
    /// Decodes a captured IPv4 packet that is long enough for its fields.
    pub fn from(data: &[u8]) -> (packet: IPv4Packet)
        requires
            ipv4_parseable(data@),
        ensures
            packet@ == ipv4_of_bytes(data@),
    {
        let first = data[0];
        assert(first & 0xF == first % 16) by (bit_vector);
        // The low four bits count 32-bit words.
        let header_length: usize = ((first & 0xF) * 4) as usize;
        let ttl = data[8];
        let packet_type = data[9];
        let source_address = read_u32_be(slice_subrange(data, 12, 16));
        let destination_address = read_u32_be(slice_subrange(data, 16, 20));
        let payload_bytes = slice_subrange(data, header_length, data.len());
        assert(payload_bytes@ =~= data@.skip(header_length as int));
        let payload = if packet_type == PROTOCOL_ICMP {
            PacketPayload::ICMPv4 { value: ICMP4Packet::from(payload_bytes) }
        } else {
            PacketPayload::Unimplemented
        };
        IPv4Packet { ttl, source_address, destination_address, payload }
    }

    /// Decodes a captured IPv4 packet, or finds `data` too short for it.
    pub fn parse(data: &[u8]) -> (r: Option<IPv4Packet>)
        ensures
            r is Some <==> ipv4_parseable(data@),
            r matches Some(packet) ==> packet@ == ipv4_of_bytes(data@),
    {
        if data.len() < IPV4_MIN_HEADER_LENGTH {
            return None;
        }
        let first = data[0];
        assert(first & 0xF == first % 16) by (bit_vector);
        let header_length: usize = ((first & 0xF) * 4) as usize;
        if header_length > data.len() {
            return None;
        }
        if data[9] == PROTOCOL_ICMP && data.len() - header_length < ICMP_HEADER_LENGTH {
            return None;
        }
        Some(IPv4Packet::from(data))
    }
}

/// Decoding an encoded message gives the message back.
pub proof fn lemma_icmp_round_trip(packet: ICMP4PacketView)
    ensures
        icmp_of_bytes(icmp_to_bytes(packet)) == packet,
{
    let bytes = icmp_to_bytes(packet);
    lemma_u16_bytes(packet.checksum, 0, 0);
    lemma_u16_bytes(packet.identifier, 0, 0);
    lemma_u16_bytes(packet.sequence_number, 0, 0);
    assert(bytes.skip(8) =~= packet.body);
}

/// An echo-request frame is eight bytes longer than its body, and decoding it
/// recovers type 8, code 0, the identifier, the sequence number and the body.
/// The checksum is read back with its bytes swapped, since the frame holds it
/// least significant byte first.
pub proof fn lemma_echo_request_round_trip(
    identifier: u16,
    sequence_number: u16,
    body: Seq<u8>,
    signature: Seq<u8>,
)
    ensures
        ({
            let frame = echo_request_frame(identifier, sequence_number, body, signature);
            let unsummed = icmp_to_bytes(
                unsummed_echo_request(identifier, sequence_number, body),
            );
            let c = checksum_of(unsummed + signature);
            &&& frame.len() == 8 + body.len()
            &&& icmp_of_bytes(frame) == ICMP4PacketView {
                icmp_type: ECHO_REQUEST,
                code: 0,
                checksum: u16_of(low_byte(c), high_byte(c)),
                identifier,
                sequence_number,
                body,
            }
        }),
{
    let frame = echo_request_frame(identifier, sequence_number, body, signature);
    lemma_u16_bytes(identifier, 0, 0);
    lemma_u16_bytes(sequence_number, 0, 0);
    assert(frame.skip(8) =~= body);
}

/// The checksum of an echo-request frame validates: summed again together
/// with the signature, the frame folds to `0xffff`, so that the checksum of
/// the whole is zero.
pub proof fn lemma_echo_request_validates(
    identifier: u16,
    sequence_number: u16,
    body: Seq<u8>,
    signature: Seq<u8>,
)
    ensures
        ({
            let frame = echo_request_frame(identifier, sequence_number, body, signature);
            &&& fold_carries(word_sum(frame + signature)) == 0xffff
            &&& checksum_of(frame + signature) == 0
        }),
{
    let unsummed = icmp_to_bytes(unsummed_echo_request(identifier, sequence_number, body));
    let c = checksum_of(unsummed + signature);
    let frame = echo_request_frame(identifier, sequence_number, body, signature);
    lemma_inserted_checksum_validates(unsummed + signature, 2);
    assert(frame + signature =~= (unsummed + signature).update(2, low_byte(c)).update(
        3,
        high_byte(c),
    ));
}

} // verus!
