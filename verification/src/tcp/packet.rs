use crate::tcp::header::{
    decode_header, encode_header, header_accepts, header_for, header_refusal_text, Header,
    HeaderType, HEADER_LEN,
};
use crate::utils::checksum::{signed16, unsigned16, xor16};
use crate::utils::errors::ProtocolError;
use vstd::prelude::*;
use vstd::slice::{slice_subrange, slice_to_vec};
use vstd::string::{StrSliceExecFns, StringExecFns, StringSliceAdditionalSpecFns};
use vstd::utf8::encode_utf8;

verus! {

/// A complete packet: a header and the payload it announces.
#[derive(Debug)]
pub struct Packet {
    /// Type, length and checksum of the payload.
    pub header: Header,
    /// The bytes carried.
    pub payload: Vec<u8>,
}

/// What a packet is, as a value: its header and the sequence of its payload bytes.
pub struct PacketView {
    pub header: Header,
    pub payload: Seq<u8>,
}

impl View for Packet {
    type V = PacketView;

    open spec fn view(&self) -> PacketView {
        PacketView { header: self.header, payload: self.payload@ }
    }
}

/// The packet that `Packet::new` builds.
pub open spec fn packet_for(header_type: HeaderType, payload: Seq<u8>) -> PacketView {
    PacketView { header: header_for(header_type, payload), payload }
}

/// The wire bytes of a packet: the six header bytes, then the payload.
pub open spec fn encode_packet(packet: PacketView) -> Seq<u8> {
    encode_header(packet.header) + packet.payload
}

/// The number of payload bytes that the header at the front of `bytes` announces.
pub open spec fn announced_length(bytes: Seq<u8>) -> int
    recommends
        bytes.len() >= 6,
{
    unsigned16(decode_header(bytes.subrange(0, 6)).payload_length) as int
}

/// Whether `bytes` starts with a whole packet: a well-formed header followed
/// by at least as many bytes as it announces.
pub open spec fn packet_accepts(bytes: Seq<u8>) -> bool {
    &&& bytes.len() >= 6
    &&& header_accepts(bytes.subrange(0, 6))
    &&& bytes.len() - 6 >= announced_length(bytes)
}

/// The packet at the front of `bytes`: the header, and exactly the announced
/// number of payload bytes after it.
pub open spec fn decode_packet(bytes: Seq<u8>) -> PacketView
    recommends
        packet_accepts(bytes),
{
    PacketView {
        header: decode_header(bytes.subrange(0, 6)),
        payload: bytes.subrange(6, 6 + announced_length(bytes)),
    }
}

/// The text carried by the error for a buffer that is too short, either for a
/// header or for the payload that its header announces.
pub open spec fn short_packet_text() -> Seq<char> {
    "Not enough bytes for a valid packet"@
}

/// The error that `Packet::parse` gives for bytes it refuses: a header error
/// while the header itself is at fault, a packet error for a short payload.
pub open spec fn parse_refusal(bytes: Seq<u8>, e: ProtocolError) -> bool {
    if bytes.len() < 6 {
        e matches ProtocolError::InvalidHeaderError(text) && text@ == short_packet_text()
    } else if !header_accepts(bytes.subrange(0, 6)) {
        e matches ProtocolError::InvalidHeaderError(text) && text@ == header_refusal_text(
            bytes.subrange(0, 6),
        )
    } else {
        e matches ProtocolError::InvalidPacketError(text) && text@ == short_packet_text()
    }
}

impl Clone for Packet {
    fn clone(&self) -> (copy: Packet)
        ensures
            copy@ == self@,
    {
        let payload = slice_to_vec(self.payload.as_slice());
        Packet { header: self.header, payload }
    }
}

impl Packet {
    /// Parses the packet at the front of a buffer. The buffer must hold a
    /// well-formed header and at least the payload bytes that it announces;
    /// bytes beyond those are not part of the packet.
    pub fn parse(protocol: &[u8]) -> (r: Result<Packet, ProtocolError>)
        ensures
            r is Ok <==> packet_accepts(protocol@),
            r matches Ok(packet) ==> packet@ == decode_packet(protocol@),
            r matches Err(e) ==> parse_refusal(protocol@, e),
    {
        if protocol.len() < HEADER_LEN {
            return Err(
                ProtocolError::InvalidHeaderError(
                    String::from_str("Not enough bytes for a valid packet"),
                ),
            );
        }
        let header = match Header::from_bytes(slice_subrange(protocol, 0, HEADER_LEN)) {
            Ok(header) => header,
            Err(e) => {
                return Err(e);
            },
        };
        let length = header.length();
        if protocol.len() - HEADER_LEN < length {
            return Err(
                ProtocolError::InvalidPacketError(
                    String::from_str("Not enough bytes for a valid packet"),
                ),
            );
        }
        let payload = slice_to_vec(slice_subrange(protocol, HEADER_LEN, HEADER_LEN + length));
        Ok(Packet { header, payload })
    }

    /// Builds a packet of the given type around a copy of `payload`, with the
    /// header computed from it.
    pub fn new(header_type: HeaderType, payload: &[u8]) -> (packet: Packet)
        ensures
            packet@ == packet_for(header_type, payload@),
    {
        let header = Header::new(header_type, payload);
        let payload = slice_to_vec(payload);
        Packet { header, payload }
    }

    /// Builds a packet of the given type without a payload.
    pub fn empty(header_type: HeaderType) -> (packet: Packet)
        ensures
            packet@ == packet_for(header_type, Seq::<u8>::empty()),
    {
        let nothing: Vec<u8> = Vec::new();
        Packet::new(header_type, nothing.as_slice())
    }

    /// Builds a packet of the given type whose payload is a text, encoded
    /// as UTF-8.
    pub fn text(header_type: HeaderType, text: &str) -> (packet: Packet)
        ensures
            packet@ == packet_for(header_type, encode_utf8(text@)),
    {
        let bytes = text.as_bytes_vec();
        Packet::new(header_type, bytes.as_slice())
    }

    /// Tells whether the payload has the checksum that the header carries.
    pub fn is_intact(&self) -> (ok: bool)
        ensures
            ok == crate::utils::checksum::checksum_matches(self.header.checksum, self.payload@),
    {
        crate::utils::checksum::Checksum::check(&self.header.checksum, self.payload.as_slice())
    }

    /// Serializes the packet: header bytes, then payload bytes.
    pub fn wrap_packet(&self) -> (bytes: Vec<u8>)
        ensures
            bytes@ == encode_packet(self@),
    {
        let mut packet = self.header.wrap_header();
        let mut i: usize = 0;
        while i < self.payload.len()
            invariant
                0 <= i <= self.payload.len(),
                packet@ == encode_header(self.header) + self.payload@.subrange(0, i as int),
            decreases self.payload.len() - i,
        {
            packet.push(self.payload[i]);
            proof {
                assert(packet@ =~= encode_header(self.header) + self.payload@.subrange(
                    0,
                    i + 1,
                ));
            }
            i = i + 1;
        }
        proof {
            assert(self.payload@.subrange(0, i as int) =~= self.payload@);
        }
        packet
    }
}

/// For every header type and every payload of at most 65535 bytes, the wire
/// bytes of the packet built from them parse back to that type and payload,
/// and the parsed checksum is the XOR of the payload.
pub proof fn lemma_codec_round_trip(header_type: HeaderType, payload: Seq<u8>)
    requires
        payload.len() <= 65535,
    ensures
        packet_accepts(encode_packet(packet_for(header_type, payload))),
        decode_packet(encode_packet(packet_for(header_type, payload))) == packet_for(
            header_type,
            payload,
        ),
        decode_packet(encode_packet(packet_for(header_type, payload))).header.header_type
            == header_type,
        decode_packet(encode_packet(packet_for(header_type, payload))).payload == payload,
        decode_packet(encode_packet(packet_for(header_type, payload))).header.checksum == signed16(
            xor16(payload),
        ),
{
    let packet = packet_for(header_type, payload);
    let bytes = encode_packet(packet);
    crate::tcp::header::lemma_header_round_trip(packet.header);
    assert(bytes.subrange(0, 6) =~= encode_header(packet.header));
    assert(unsigned16(packet.header.payload_length) == payload.len());
    assert(bytes.subrange(6, 6 + payload.len() as int) =~= payload);
}

/// A six-byte buffer whose last byte is not the end mark, or whose first byte
/// is no known header type, is never a packet.
pub proof fn lemma_rejection_totality(bytes: Seq<u8>)
    requires
        bytes.len() == 6,
        bytes[5] != 0x0A || crate::tcp::header::header_type_of(bytes[0]) is None,
    ensures
        !packet_accepts(bytes),
{
    assert(bytes.subrange(0, 6) =~= bytes);
}

} // verus!
