use crate::tcp::header::HeaderType;
use crate::tcp::packet::{decode_packet, packet_accepts, Packet};
use crate::tcp::protocol::framing_error;
use crate::utils::checksum::checksum_matches;
use crate::utils::errors::ProtocolError;
use vstd::prelude::*;

verus! {

/// The most broadcast packets a session keeps while its transport is down.
pub const MISSED_CAPACITY: usize = 30;

/// The session of an authenticated player: the player it is bound to, the
/// transport it currently owns and the broadcast packets it has missed.
///
/// The transport itself lives with the caller; the session names it by the
/// handles of its two halves and by its address.
#[derive(Debug)]
pub struct Client {
    /// The identity of the player this session belongs to. It never changes.
    pub player_id: String,
    /// Whether the transport is believed to be up.
    pub connected: bool,
    /// The remote address of the current transport.
    pub addr: String,
    /// The handle of the read half of the current transport.
    pub read_stream: u64,
    /// The handle of the write half of the current transport.
    pub write_stream: u64,
    /// Broadcast packets that arrived while the transport was down, oldest first.
    pub missed_packets: Vec<Packet>,
}

/// The missed queue after one more packet arrives: the packet goes to the
/// back, and the oldest one leaves if the queue was full.
pub open spec fn enqueue_missed(queue: Seq<Packet>, packet: Packet) -> Seq<Packet> {
    if queue.len() >= MISSED_CAPACITY {
        queue.drop_first().push(packet)
    } else {
        queue.push(packet)
    }
}

impl Client {
    /// A session is well formed when its missed queue is within capacity.
    pub open spec fn wf(self) -> bool {
        self.missed_packets@.len() <= MISSED_CAPACITY
    }

    /// Whether `other` is this session with nothing changed but what the
    /// broadcast of packets may change: the missed queue.
    pub open spec fn same_but_queue(self, other: Client) -> bool {
        &&& other.player_id == self.player_id
        &&& other.connected == self.connected
        &&& other.addr == self.addr
        &&& other.read_stream == self.read_stream
        &&& other.write_stream == self.write_stream
    }

    /// Tells whether the session is well formed.
    pub fn check(&self) -> (ok: bool)
        ensures
            ok == self.wf(),
    {
        self.missed_packets.len() <= MISSED_CAPACITY
    }

    /// Binds a new session to a player and a live transport. The session
    /// starts connected, with nothing missed.
    pub fn new(read_stream: u64, write_stream: u64, addr: String, player_id: String) -> (client:
        Client)
        ensures
            client.wf(),
            client.connected,
            client.player_id == player_id,
            client.addr == addr,
            client.read_stream == read_stream,
            client.write_stream == write_stream,
            client.missed_packets@ == Seq::<Packet>::empty(),
    {
        Client {
            player_id,
            connected: true,
            addr,
            read_stream,
            write_stream,
            missed_packets: Vec::new(),
        }
    }

    /// Tells whether the read loop goes on after a read that gave `bytes_read`
    /// bytes (`None` for a transport error): it stops on an error, on a read
    /// of zero bytes and once the session is marked disconnected.
    pub fn connect(&self, bytes_read: Option<usize>) -> (go_on: bool)
        ensures
            go_on == (self.connected && bytes_read is Some && bytes_read != Some(0usize)),
    {
        match bytes_read {
            None => false,
            Some(n) => self.connected && n != 0,
        }
    }

    /// Takes one broadcast packet. A connected session hands back what to
    /// write: its backlog, oldest first, then the packet; the backlog is then
    /// empty. A disconnected session hands back nothing and queues the
    /// packet, dropping the oldest queued one if the queue is full.
    pub fn listen_to_game_state(&mut self, game_state: Packet) -> (to_write: Vec<Packet>)
        requires
            old(self).wf(),
        ensures
            final(self).wf(),
            old(self).same_but_queue(*final(self)),
            to_write@ == written_for(old(self).connected, old(self).missed_packets@, game_state),
            final(self).missed_packets@ == missed_after(
                old(self).connected,
                old(self).missed_packets@,
                game_state,
            ),
    {
        if !self.connected {
            self.missed_packets.push(game_state);
            if self.missed_packets.len() > MISSED_CAPACITY {
                let _ = self.missed_packets.remove(0);
                proof {
                    assert(self.missed_packets@ =~= enqueue_missed(old(self).missed_packets@, game_state));
                }
            }
            return Vec::new();
        }
        let mut to_write: Vec<Packet> = Vec::new();
        core::mem::swap(&mut to_write, &mut self.missed_packets);
        to_write.push(game_state);
        to_write
    }

    /// Marks the transport as down. The session stays registered and keeps
    /// its player and its missed queue, so that it can be taken back.
    pub fn disconnect(&mut self)
        ensures
            !final(self).connected,
            final(self).player_id == old(self).player_id,
            final(self).addr == old(self).addr,
            final(self).read_stream == old(self).read_stream,
            final(self).write_stream == old(self).write_stream,
            final(self).missed_packets == old(self).missed_packets,
    {
        self.connected = false;
    }

    /// Moves the session onto a new transport: both halves and the address
    /// are replaced and the session is connected again. The player and the
    /// missed queue stay as they were.
    pub fn reconnect(&mut self, temporary_client: TemporaryClient)
        ensures
            final(self).player_id == old(self).player_id,
            final(self).missed_packets == old(self).missed_packets,
            final(self).connected,
            final(self).addr == temporary_client.addr,
            final(self).read_stream == temporary_client.read_stream,
            final(self).write_stream == temporary_client.write_stream,
    {
        self.write_stream = temporary_client.write_stream;
        self.read_stream = temporary_client.read_stream;
        self.addr = temporary_client.addr;
        self.connected = true;
    }
}

/// A transport that has been accepted but whose peer has not yet been
/// authenticated.
#[derive(Debug)]
pub struct TemporaryClient {
    /// The remote address of the transport.
    pub addr: String,
    /// The handle of its read half.
    pub read_stream: u64,
    /// The handle of its write half.
    pub write_stream: u64,
}

/// What the first packet of a transport leads to.
#[derive(Debug, Clone, Copy, PartialEq, Eq, Structural)]
pub enum TempVerdict {
    /// An intact `Connect` packet: its payload is the handshake request.
    Handshake,
    /// An intact `Reconnect` packet: its payload is the reconnection request.
    Reconnection,
    /// Close the transport without an answer.
    Close,
    /// Answer with an empty packet of this type, then close the transport.
    ReplyAndClose(HeaderType),
}

/// What the first bytes read from a transport lead to. Only an intact
/// `Connect` or `Reconnect` packet is taken up. A play or a disconnect
/// closes the transport silently; bytes that are no packet, a payload that
/// does not match its checksum and every other type are answered with the
/// matching error before the transport is closed.
pub open spec fn temp_verdict(buffer: Seq<u8>) -> TempVerdict {
    if !packet_accepts(buffer) {
        TempVerdict::ReplyAndClose(framing_error(buffer))
    } else if !checksum_matches(
        decode_packet(buffer).header.checksum,
        decode_packet(buffer).payload,
    ) {
        TempVerdict::ReplyAndClose(HeaderType::InvalidChecksum)
    } else {
        match decode_packet(buffer).header.header_type {
            HeaderType::Connect => TempVerdict::Handshake,
            HeaderType::Reconnect => TempVerdict::Reconnection,
            HeaderType::PlayCard => TempVerdict::Close,
            HeaderType::Disconnect => TempVerdict::Close,
            _ => TempVerdict::ReplyAndClose(HeaderType::InvalidHeader),
        }
    }
}

impl TemporaryClient {
    /// Judges the first bytes read from the transport. With a handshake or
    /// a reconnection comes the packet received; otherwise none.
    pub fn handle_temp_client(&self, buffer: &[u8]) -> (r: (TempVerdict, Option<Packet>))
        ensures
            r.0 == temp_verdict(buffer@),
            if r.0 == TempVerdict::Handshake || r.0 == TempVerdict::Reconnection {
                r.1 matches Some(packet) && packet@ == decode_packet(buffer@)
            } else {
                r.1 is None
            },
    {
        match Packet::parse(buffer) {
            Err(error) => {
                let header_type = match error {
                    ProtocolError::InvalidHeaderError(_) => HeaderType::InvalidHeader,
                    ProtocolError::InvalidPacketError(_) => HeaderType::InvalidPacketPayload,
                };
                (TempVerdict::ReplyAndClose(header_type), None)
            },
            Ok(packet) => {
                if !packet.is_intact() {
                    return (TempVerdict::ReplyAndClose(HeaderType::InvalidChecksum), None);
                }
                match packet.header.header_type {
                    HeaderType::Connect => (TempVerdict::Handshake, Some(packet)),
                    HeaderType::Reconnect => (TempVerdict::Reconnection, Some(packet)),
                    HeaderType::PlayCard => (TempVerdict::Close, None),
                    HeaderType::Disconnect => (TempVerdict::Close, None),
                    _ => (TempVerdict::ReplyAndClose(HeaderType::InvalidHeader), None),
                }
            },
        }
    }

    /// Wraps a freshly accepted transport.
    pub fn new(read_stream: u64, write_stream: u64, addr: String) -> (temp: TemporaryClient)
        ensures
            temp.addr == addr,
            temp.read_stream == read_stream,
            temp.write_stream == write_stream,
    {
        TemporaryClient { addr, read_stream, write_stream }
    }
}

/// What a session writes to its transport when `packet` is broadcast: while
/// connected, the whole backlog in arrival order and then the packet; while
/// disconnected, nothing.
pub open spec fn written_for(connected: bool, queue: Seq<Packet>, packet: Packet) -> Seq<Packet> {
    if connected {
        queue.push(packet)
    } else {
        Seq::empty()
    }
}

/// The missed queue after `packet` was broadcast: empty while connected, one
/// longer (within capacity) while disconnected.
pub open spec fn missed_after(connected: bool, queue: Seq<Packet>, packet: Packet) -> Seq<Packet> {
    if connected {
        Seq::empty()
    } else {
        enqueue_missed(queue, packet)
    }
}

/// The missed queue after a run of broadcasts.
pub open spec fn missed_over(connected: bool, queue: Seq<Packet>, packets: Seq<Packet>) -> Seq<
    Packet,
>
    decreases packets.len(),
{
    if packets.len() == 0 {
        queue
    } else {
        missed_over(connected, missed_after(connected, queue, packets[0]), packets.drop_first())
    }
}

/// Everything a session writes over a run of broadcasts, in order.
pub open spec fn written_over(connected: bool, queue: Seq<Packet>, packets: Seq<Packet>) -> Seq<
    Packet,
>
    decreases packets.len(),
{
    if packets.len() == 0 {
        Seq::empty()
    } else {
        written_for(connected, queue, packets[0]) + written_over(
            connected,
            missed_after(connected, queue, packets[0]),
            packets.drop_first(),
        )
    }
}

/// The last `MISSED_CAPACITY` packets of `all`, or all of them if there are fewer.
pub open spec fn newest(all: Seq<Packet>) -> Seq<Packet> {
    if all.len() <= MISSED_CAPACITY {
        all
    } else {
        all.subrange(all.len() - MISSED_CAPACITY, all.len() as int)
    }
}

/// A session that stays connected over a run of broadcasts writes its
/// backlog and then every broadcast packet, each exactly once and in the
/// order of the broadcasts; nothing is left in its missed queue.
pub proof fn lemma_connected_session_writes_every_broadcast(
    queue: Seq<Packet>,
    packets: Seq<Packet>,
)
    requires
        packets.len() > 0,
    ensures
        written_over(true, queue, packets) == queue + packets,
        missed_over(true, queue, packets) == Seq::<Packet>::empty(),
    decreases packets.len(),
{
    let rest = packets.drop_first();
    let after = missed_after(true, queue, packets[0]);
    if rest.len() == 0 {
        assert(written_over(true, after, rest) == Seq::<Packet>::empty());
        assert(missed_over(true, after, rest) == after);
        assert(queue.push(packets[0]) + Seq::<Packet>::empty() =~= queue + packets);
    } else {
        lemma_connected_session_writes_every_broadcast(after, rest);
        assert(queue.push(packets[0]) + (after + rest) =~= queue + packets);
    }
}

/// A session that stays disconnected over a run of broadcasts writes
/// nothing, and its missed queue never exceeds its capacity: it holds the
/// newest packets of the old queue followed by the broadcasts, the oldest
/// ones having been dropped.
pub proof fn lemma_missed_queue_is_bounded(queue: Seq<Packet>, packets: Seq<Packet>)
    requires
        queue.len() <= MISSED_CAPACITY,
    ensures
        written_over(false, queue, packets) == Seq::<Packet>::empty(),
        missed_over(false, queue, packets).len() <= MISSED_CAPACITY,
        missed_over(false, queue, packets) == newest(queue + packets),
    decreases packets.len(),
{
    if packets.len() == 0 {
        assert(queue + packets =~= queue);
    } else {
        let rest = packets.drop_first();
        let after = missed_after(false, queue, packets[0]);
        lemma_missed_queue_is_bounded(after, rest);
        assert(written_over(false, queue, packets) =~= Seq::<Packet>::empty());
        assert(newest(after + rest) =~= newest(queue + packets));
    }
}

} // verus!
