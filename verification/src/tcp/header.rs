use crate::utils::checksum::{signed16, to_signed16, to_unsigned16, unsigned16, xor16, Checksum};
use crate::utils::errors::ProtocolError;
use vstd::prelude::*;
use vstd::string::StringExecFns;

verus! {

/// The kind of message a packet carries. Each variant has one byte on the wire.
#[derive(Debug, Clone, Copy, PartialEq, Eq, Structural)]
pub enum HeaderType {
    Disconnect,
    Connect,
    Ping,
    Reconnect,
    GameState,
    PlayCard,
    AttackPlayer,
    InitServer,
    InvalidHeader,
    AlreadyConnected,
    InvalidPlayerData,
    InvalidChecksum,
    FailedToConnectPlayer,
    InvalidPacketPayload,
    ERROR,
}

/// The header type that a wire byte stands for, if any.
pub open spec fn header_type_of(value: u8) -> Option<HeaderType> {
    if value == 0x00 {
        Some(HeaderType::Disconnect)
    } else if value == 0x01 {
        Some(HeaderType::Connect)
    } else if value == 0x02 {
        Some(HeaderType::Ping)
    } else if value == 0x03 {
        Some(HeaderType::Reconnect)
    } else if value == 0x10 {
        Some(HeaderType::GameState)
    } else if value == 0x11 {
        Some(HeaderType::PlayCard)
    } else if value == 0x12 {
        Some(HeaderType::AttackPlayer)
    } else if value == 0x13 {
        Some(HeaderType::InitServer)
    } else if value == 0xFA {
        Some(HeaderType::InvalidHeader)
    } else if value == 0xFB {
        Some(HeaderType::AlreadyConnected)
    } else if value == 0xFC {
        Some(HeaderType::InvalidPlayerData)
    } else if value == 0xFD {
        Some(HeaderType::InvalidChecksum)
    } else if value == 0xF0 {
        Some(HeaderType::FailedToConnectPlayer)
    } else if value == 0xF1 {
        Some(HeaderType::InvalidPacketPayload)
    } else if value == 0xFE {
        Some(HeaderType::ERROR)
    } else {
        None
    }
}

impl HeaderType {
    /// The wire byte of this header type.
    pub open spec fn byte(self) -> u8 {
        match self {
            HeaderType::Disconnect => 0x00u8,
            HeaderType::Connect => 0x01u8,
            HeaderType::Ping => 0x02u8,
            HeaderType::Reconnect => 0x03u8,
            HeaderType::GameState => 0x10u8,
            HeaderType::PlayCard => 0x11u8,
            HeaderType::AttackPlayer => 0x12u8,
            HeaderType::InitServer => 0x13u8,
            HeaderType::InvalidHeader => 0xFAu8,
            HeaderType::AlreadyConnected => 0xFBu8,
            HeaderType::InvalidPlayerData => 0xFCu8,
            HeaderType::InvalidChecksum => 0xFDu8,
            HeaderType::FailedToConnectPlayer => 0xF0u8,
            HeaderType::InvalidPacketPayload => 0xF1u8,
            HeaderType::ERROR => 0xFEu8,
        }
    }

    /// The upper-case name of this header type, as written in logs.
    pub open spec fn name(self) -> Seq<char> {
        match self {
            HeaderType::Disconnect => "DISCONNECT"@,
            HeaderType::Connect => "CONNECT"@,
            HeaderType::Ping => "PING"@,
            HeaderType::Reconnect => "RECONNECT"@,
            HeaderType::GameState => "GAME_STATE"@,
            HeaderType::PlayCard => "PLAY_CARD"@,
            HeaderType::AttackPlayer => "ATTACK_PLAYER"@,
            HeaderType::InitServer => "INIT_SERVER"@,
            HeaderType::InvalidHeader => "INVALID_HEADER"@,
            HeaderType::AlreadyConnected => "ALREADY_CONNECTED"@,
            HeaderType::InvalidPlayerData => "INVALID_PLAYER_DATA"@,
            HeaderType::InvalidChecksum => "INVALID_CHECKSUM"@,
            HeaderType::FailedToConnectPlayer => "FAILED_TO_CONNECT_PLAYER"@,
            HeaderType::InvalidPacketPayload => "INVALID_PACKET_PAYLOAD"@,
            HeaderType::ERROR => "ERROR"@,
        }
    }

    /// Gives the wire byte of this header type.
    pub fn to_byte(&self) -> (value: u8)
        ensures
            value == self.byte(),
            header_type_of(value) == Some(*self),
    {
        match self {
            HeaderType::Disconnect => 0x00,
            HeaderType::Connect => 0x01,
            HeaderType::Ping => 0x02,
            HeaderType::Reconnect => 0x03,
            HeaderType::GameState => 0x10,
            HeaderType::PlayCard => 0x11,
            HeaderType::AttackPlayer => 0x12,
            HeaderType::InitServer => 0x13,
            HeaderType::InvalidHeader => 0xFA,
            HeaderType::AlreadyConnected => 0xFB,
            HeaderType::InvalidPlayerData => 0xFC,
            HeaderType::InvalidChecksum => 0xFD,
            HeaderType::FailedToConnectPlayer => 0xF0,
            HeaderType::InvalidPacketPayload => 0xF1,
            HeaderType::ERROR => 0xFE,
        }
    }

    /// Reads a wire byte as a header type; an unknown byte is refused.
    pub fn try_from(value: u8) -> (r: Result<HeaderType, ()>)
        ensures
            r.ok() == header_type_of(value),
            r matches Ok(t) ==> t.byte() == value,
    {
        match value {
            0x00 => Ok(HeaderType::Disconnect),
            0x01 => Ok(HeaderType::Connect),
            0x02 => Ok(HeaderType::Ping),
            0x03 => Ok(HeaderType::Reconnect),
            0x10 => Ok(HeaderType::GameState),
            0x11 => Ok(HeaderType::PlayCard),
            0x12 => Ok(HeaderType::AttackPlayer),
            0x13 => Ok(HeaderType::InitServer),
            0xFA => Ok(HeaderType::InvalidHeader),
            0xFB => Ok(HeaderType::AlreadyConnected),
            0xFC => Ok(HeaderType::InvalidPlayerData),
            0xFD => Ok(HeaderType::InvalidChecksum),
            0xF0 => Ok(HeaderType::FailedToConnectPlayer),
            0xF1 => Ok(HeaderType::InvalidPacketPayload),
            0xFE => Ok(HeaderType::ERROR),
            _ => Err(()),
        }
    }

    /// Renders the header type by its upper-case name.
    pub fn to_string(&self) -> (s: String)
        ensures
            s@ == self.name(),
    {
        match self {
            HeaderType::Disconnect => String::from_str("DISCONNECT"),
            HeaderType::Connect => String::from_str("CONNECT"),
            HeaderType::Ping => String::from_str("PING"),
            HeaderType::Reconnect => String::from_str("RECONNECT"),
            HeaderType::GameState => String::from_str("GAME_STATE"),
            HeaderType::PlayCard => String::from_str("PLAY_CARD"),
            HeaderType::AttackPlayer => String::from_str("ATTACK_PLAYER"),
            HeaderType::InitServer => String::from_str("INIT_SERVER"),
            HeaderType::InvalidHeader => String::from_str("INVALID_HEADER"),
            HeaderType::AlreadyConnected => String::from_str("ALREADY_CONNECTED"),
            HeaderType::InvalidPlayerData => String::from_str("INVALID_PLAYER_DATA"),
            HeaderType::InvalidChecksum => String::from_str("INVALID_CHECKSUM"),
            HeaderType::FailedToConnectPlayer => String::from_str("FAILED_TO_CONNECT_PLAYER"),
            HeaderType::InvalidPacketPayload => String::from_str("INVALID_PACKET_PAYLOAD"),
            HeaderType::ERROR => String::from_str("ERROR"),
        }
    }
}

/// The fixed six-byte header of a packet: message type, payload length and
/// payload checksum. The two 16-bit fields hold the wire's unsigned patterns
/// in signed form.
#[derive(Debug, Clone, Copy, PartialEq, Eq, Structural)]
pub struct Header {
    pub checksum: i16,
    pub payload_length: i16,
    pub header_type: HeaderType,
}

/// The byte that ends every header.
pub const HEADER_END: u8 = 0x0A;

/// The number of bytes of a header on the wire.
pub const HEADER_LEN: usize = 6;

/// The 16-bit value whose big-endian bytes are `hi`, `lo`.
pub open spec fn be16(hi: u8, lo: u8) -> u16 {
    (hi as int * 256 + lo as int) as u16
}

/// The header that `Header::new` builds for a payload: its checksum, and its
/// length reduced to 16 bits.
pub open spec fn header_for(header_type: HeaderType, payload: Seq<u8>) -> Header {
    Header {
        checksum: signed16(xor16(payload)),
        payload_length: signed16((payload.len() % 0x1_0000) as u16),
        header_type,
    }
}

/// The six wire bytes of a header.
pub open spec fn encode_header(header: Header) -> Seq<u8> {
    let length = unsigned16(header.payload_length);
    let checksum = unsigned16(header.checksum);
    seq![
        header.header_type.byte(),
        (length / 256) as u8,
        (length % 256) as u8,
        (checksum / 256) as u8,
        (checksum % 256) as u8,
        0x0Au8,
    ]
}

/// Whether `bytes` is a well-formed header: six bytes, the last one the end
/// mark, the first one a known type.
pub open spec fn header_accepts(bytes: Seq<u8>) -> bool {
    &&& bytes.len() == 6
    &&& bytes[5] == 0x0A
    &&& header_type_of(bytes[0]) is Some
}

/// The header that six well-formed bytes stand for.
pub open spec fn decode_header(bytes: Seq<u8>) -> Header
    recommends
        header_accepts(bytes),
{
    Header {
        checksum: signed16(be16(bytes[3], bytes[4])),
        payload_length: signed16(be16(bytes[1], bytes[2])),
        header_type: header_type_of(bytes[0]).unwrap(),
    }
}

/// A name for the text that `{:?}` formatting gives for a byte slice.
pub uninterp spec fn slice_debug_text(bytes: Seq<u8>) -> Seq<char>;

/// The text of the error that `Header::from_bytes` gives for bytes it refuses.
pub open spec fn header_refusal_text(bytes: Seq<u8>) -> Seq<char> {
    if bytes.len() != 6 || bytes[5] != 0x0A {
        "Format invalid: "@ + slice_debug_text(bytes)
    } else {
        "Invalid message type."@
    }
}

/// Calls std's `Debug` formatting of a byte slice (through `format!`). The
/// contract only gives the resulting text its name: the same bytes always
/// format to the same text.
#[verifier::external_body]
fn debug_text(bytes: &[u8]) -> (text: String)
    ensures
        text@ == slice_debug_text(bytes@),
{
    format!("{:?}", bytes)
}

impl Header {
    /// Builds the header for `payload`: its XOR checksum and its length, the
    /// latter reduced to 16 bits.
    pub fn new(header_type: HeaderType, payload: &[u8]) -> (header: Header)
        ensures
            header == header_for(header_type, payload@),
    {
        let length: u16 = (payload.len() % 0x1_0000) as u16;
        Header {
            checksum: to_signed16(Checksum::new(payload)),
            payload_length: to_signed16(length),
            header_type,
        }
    }

    /// The payload length as the unsigned number that the wire carries.
    pub fn length(&self) -> (n: usize)
        ensures
            n == unsigned16(self.payload_length),
    {
        to_unsigned16(self.payload_length) as usize
    }

    /// Serializes the header into its six wire bytes:
    /// type, length (big-endian), checksum (big-endian), end mark.
    pub fn wrap_header(&self) -> (bytes: Vec<u8>)
        ensures
            bytes@ == encode_header(*self),
    {
        let checksum: u16 = to_unsigned16(self.checksum);
        let length: u16 = to_unsigned16(self.payload_length);
        let mut bytes: Vec<u8> = Vec::with_capacity(HEADER_LEN);
        bytes.push(self.header_type.to_byte());
        bytes.push((length / 256) as u8);
        bytes.push((length % 256) as u8);
        bytes.push((checksum / 256) as u8);
        bytes.push((checksum % 256) as u8);
        bytes.push(HEADER_END);
        proof {
            assert(bytes@ =~= encode_header(*self));
        }
        bytes
    }

    /// Parses a header from exactly six bytes. Anything else, a wrong end
    /// mark or an unknown type byte is refused.
    pub fn from_bytes(bytes: &[u8]) -> (r: Result<Header, ProtocolError>)
        ensures
            r is Ok <==> header_accepts(bytes@),
            r matches Ok(header) ==> header == decode_header(bytes@),
            r matches Err(e) ==> e matches ProtocolError::InvalidHeaderError(text) && text@
                == header_refusal_text(bytes@),
    {
        if bytes.len() != 6 || bytes[5] != HEADER_END {
            let text = String::from_str("Format invalid: ").concat(debug_text(bytes).as_str());
            return Err(ProtocolError::InvalidHeaderError(text));
        }
        match HeaderType::try_from(bytes[0]) {
            Err(_) => Err(
                ProtocolError::InvalidHeaderError(String::from_str("Invalid message type.")),
            ),
            Ok(header_type) => {
                let checksum: u16 = (bytes[3] as u16) * 256 + (bytes[4] as u16);
                let length: u16 = (bytes[1] as u16) * 256 + (bytes[2] as u16);
                Ok(
                    Header {
                        header_type,
                        payload_length: to_signed16(length),
                        checksum: to_signed16(checksum),
                    },
                )
            },
        }
    }
}

/// Every header type is read back from its own wire byte, and no two header
/// types share a byte.
pub proof fn lemma_header_type_round_trip(header_type: HeaderType)
    ensures
        header_type_of(header_type.byte()) == Some(header_type),
{
}

/// A header's wire bytes are accepted and decode to the same header.
pub proof fn lemma_header_round_trip(header: Header)
    ensures
        header_accepts(encode_header(header)),
        decode_header(encode_header(header)) == header,
{
    let length = unsigned16(header.payload_length);
    let checksum = unsigned16(header.checksum);
    lemma_header_type_round_trip(header.header_type);
    assert(be16((length / 256) as u8, (length % 256) as u8) == length);
    assert(be16((checksum / 256) as u8, (checksum % 256) as u8) == checksum);
}

} // verus!
