use crate::game::entity::player::Player;
use crate::game::game_state::{state_bytes, GameState};
use crate::tcp::client::{Client, TemporaryClient};
use crate::tcp::header::{header_accepts, HeaderType};
use crate::tcp::packet::{decode_packet, packet_accepts, packet_for, Packet};
use crate::tcp::server::{client_ids, ServerInstance};
use crate::utils::checksum::checksum_matches;
use crate::utils::errors::{GameLogicError, NetworkError, PlayerConnectionError};
use crate::utils::text::{first_index_of, lemma_first_index_is};
use vstd::prelude::*;
use vstd::string::StringExecFns;
use vstd::utf8::encode_utf8;

verus! {

/// How often a packet is written before the write is given up.
pub const WRITE_ATTEMPTS: u8 = 3;

/// The milliseconds to wait after a failed write.
pub const RETRY_DELAY_MS: u64 = 500;

/// The milliseconds between two broadcasts of the game state.
pub const BROADCAST_INTERVAL_MS: u64 = 1000;

/// The dispatcher: it decides what each inbound packet leads to, and turns
/// the errors of the other parts into packets.
#[derive(Debug)]
pub struct Protocol;

/// What the dispatcher makes of the bytes that a session has read.
#[derive(Debug, Clone, Copy, PartialEq, Eq, Structural)]
pub enum Dispatch {
    /// An intact `PlayCard` packet: its payload is the request to decode.
    PlayCard,
    /// Answer with an empty packet of this type. With `close`, the session
    /// is disconnected after the answer; without, only if writing it fails.
    Reply { header_type: HeaderType, close: bool },
}

/// What to do after an attempt to write a packet.
#[derive(Debug)]
pub enum WriteStep {
    /// The packet is out.
    Sent,
    /// Wait `RETRY_DELAY_MS`, then write again.
    Retry,
    /// Every attempt failed: the session is to be disconnected.
    Failed(NetworkError),
}

/// What an authenticated session's packet of a given type leads to.
pub open spec fn dispatch_of(header_type: HeaderType) -> Dispatch {
    match header_type {
        HeaderType::Disconnect => Dispatch::Reply {
            header_type: HeaderType::Disconnect,
            close: true,
        },
        HeaderType::PlayCard => Dispatch::PlayCard,
        HeaderType::Connect => Dispatch::Reply {
            header_type: HeaderType::AlreadyConnected,
            close: false,
        },
        HeaderType::Reconnect => Dispatch::Reply {
            header_type: HeaderType::AlreadyConnected,
            close: false,
        },
        _ => Dispatch::Reply { header_type: HeaderType::InvalidHeader, close: false },
    }
}

/// The type of the error packet for bytes that are no packet: a payload
/// error when only the payload is short, a header error otherwise.
pub open spec fn framing_error(buffer: Seq<u8>) -> HeaderType {
    if buffer.len() >= 6 && header_accepts(buffer.subrange(0, 6)) {
        HeaderType::InvalidPacketPayload
    } else {
        HeaderType::InvalidHeader
    }
}

/// What the bytes that an authenticated session has read lead to: bytes
/// that are no packet, or whose payload does not match the checksum, are
/// answered with the matching error and the session is closed; a packet is
/// dispatched by its type.
pub open spec fn incoming(buffer: Seq<u8>) -> Dispatch {
    if !packet_accepts(buffer) {
        Dispatch::Reply { header_type: framing_error(buffer), close: true }
    } else if !checksum_matches(
        decode_packet(buffer).header.checksum,
        decode_packet(buffer).payload,
    ) {
        Dispatch::Reply { header_type: HeaderType::InvalidChecksum, close: true }
    } else {
        dispatch_of(decode_packet(buffer).header.header_type)
    }
}

/// The packet type and the reason text with which a failed handshake or
/// reconnection is reported to the client.
pub open spec fn failure_reply(error: PlayerConnectionError) -> (HeaderType, Seq<char>) {
    match error {
        PlayerConnectionError::InvalidPlayerPayload(_) => (
            HeaderType::InvalidPlayerData,
            error.text(),
        ),
        PlayerConnectionError::AlreadyConnected => (HeaderType::AlreadyConnected, error.text()),
        PlayerConnectionError::UnauthorizedPlayerError => (
            HeaderType::FailedToConnectPlayer,
            "unauthorized"@,
        ),
        PlayerConnectionError::BannedPlayer(_) => (HeaderType::FailedToConnectPlayer, "banned"@),
        PlayerConnectionError::PlayerNotConnected => (
            HeaderType::FailedToConnectPlayer,
            "not in match"@,
        ),
        _ => (HeaderType::FailedToConnectPlayer, error.text()),
    }
}

/// What to do after a write attempt, `failed_before` attempts having failed
/// before it.
pub open spec fn write_step(failed_before: u8, written: bool, step: WriteStep) -> bool {
    if written {
        step is Sent
    } else if failed_before + 1 < WRITE_ATTEMPTS {
        step is Retry
    } else {
        step matches WriteStep::Failed(NetworkError::PackageWriteError(text)) && text@
            == "Unknown error"@
    }
}

/// The session that a handshake makes for `player_id` on the transport `temp`.
pub open spec fn is_new_session(client: Client, player_id: String, temp: TemporaryClient) -> bool {
    &&& client.player_id == player_id
    &&& client.connected
    &&& client.addr == temp.addr
    &&& client.read_stream == temp.read_stream
    &&& client.write_stream == temp.write_stream
    &&& client.missed_packets@.len() == 0
}

/// The session `before` after it was moved onto the transport `temp`.
pub open spec fn is_moved_session(before: Client, after: Client, temp: TemporaryClient) -> bool {
    &&& after.player_id == before.player_id
    &&& after.missed_packets == before.missed_packets
    &&& after.connected
    &&& after.addr == temp.addr
    &&& after.read_stream == temp.read_stream
    &&& after.write_stream == temp.write_stream
}

/// The player identifiers of a roster, in order.
pub open spec fn roster_ids(players: Seq<Player>) -> Seq<Seq<char>> {
    players.map_values(|p: Player| p.id@)
}

/// What a handshake does to the session registry, and what it answers.
///
/// A player outside the roster is refused, and so is one whose session is
/// still connected. Otherwise the player gets a new session: in the place
/// of their old, disconnected one if there is one, at the end of the
/// registry if not.
pub open spec fn connected(
    roster: Seq<Player>,
    pre: Seq<Client>,
    post: Seq<Client>,
    player_id: String,
    temp: TemporaryClient,
    r: Result<usize, PlayerConnectionError>,
) -> bool {
    let at = first_index_of(client_ids(pre), player_id@);
    if first_index_of(roster_ids(roster), player_id@) >= roster.len() {
        post == pre && r matches Err(PlayerConnectionError::PlayerNotConnected)
    } else if at < pre.len() && pre[at].connected {
        post == pre && r matches Err(PlayerConnectionError::AlreadyConnected)
    } else {
        &&& r == Ok::<usize, PlayerConnectionError>(at as usize)
        &&& post.len() == if at < pre.len() {
            pre.len()
        } else {
            pre.len() + 1
        }
        &&& forall|i: int| 0 <= i < pre.len() && i != at ==> post[i] == pre[i]
        &&& is_new_session(post[at], player_id, temp)
    }
}

/// What a reconnection does to the session registry, and what it answers:
/// the player's session is moved onto the new transport; a player without
/// a session is refused.
pub open spec fn reconnected(
    pre: Seq<Client>,
    post: Seq<Client>,
    player_id: Seq<char>,
    temp: TemporaryClient,
    r: Result<usize, PlayerConnectionError>,
) -> bool {
    let at = first_index_of(client_ids(pre), player_id);
    if at >= pre.len() {
        post == pre && r matches Err(PlayerConnectionError::PlayerNotConnected)
    } else {
        &&& r == Ok::<usize, PlayerConnectionError>(at as usize)
        &&& post.len() == pre.len()
        &&& forall|i: int| 0 <= i < pre.len() && i != at ==> post[i] == pre[i]
        &&& is_moved_session(pre[at], post[at], temp)
    }
}

/// Finds a player of the roster.
pub fn find_in_roster(players: &Vec<Player>, id: &String) -> (found: Option<usize>)
    ensures
        match found {
            Some(i) => i < players@.len() && i == first_index_of(roster_ids(players@), id@),
            None => first_index_of(roster_ids(players@), id@) == players@.len(),
        },
{
    let mut i: usize = 0;
    while i < players.len()
        invariant
            0 <= i <= players@.len(),
            forall|j: int| 0 <= j < i ==> roster_ids(players@)[j] != id@,
        decreases players@.len() - i,
    {
        if players[i].id == *id {
            proof {
                lemma_first_index_is(roster_ids(players@), id@, i as int);
            }
            return Some(i);
        }
        i = i + 1;
    }
    proof {
        lemma_first_index_is(roster_ids(players@), id@, i as int);
    }
    None
}

impl Protocol {
    /// The dispatcher.
    pub fn new() -> Protocol {
        Protocol
    }

    /// Judges the bytes that an authenticated session has read. With the
    /// verdict `PlayCard` comes the packet received; with a `Reply`, none.
    pub fn handle_incoming(&self, buffer: &[u8]) -> (r: (Dispatch, Option<Packet>))
        ensures
            r.0 == incoming(buffer@),
            match r.0 {
                Dispatch::PlayCard => r.1 matches Some(packet) && packet@ == decode_packet(
                    buffer@,
                ),
                Dispatch::Reply { .. } => r.1 is None,
            },
    {
        match Packet::parse(buffer) {
            Err(error) => {
                let header_type = match error {
                    crate::utils::errors::ProtocolError::InvalidHeaderError(_) => {
                        HeaderType::InvalidHeader
                    },
                    crate::utils::errors::ProtocolError::InvalidPacketError(_) => {
                        HeaderType::InvalidPacketPayload
                    },
                };
                (Dispatch::Reply { header_type, close: true }, None)
            },
            Ok(packet) => {
                if !packet.is_intact() {
                    return (
                        Dispatch::Reply { header_type: HeaderType::InvalidChecksum, close: true },
                        None,
                    );
                }
                let verdict = self.handle_packet(&packet);
                match verdict {
                    Dispatch::PlayCard => (verdict, Some(packet)),
                    Dispatch::Reply { .. } => (verdict, None),
                }
            },
        }
    }

    /// Routes a packet of an authenticated session by its type: a
    /// disconnect is acknowledged and the session closed; a play goes to
    /// the play handler; a second handshake is answered with
    /// `AlreadyConnected`; anything else with `InvalidHeader`.
    pub fn handle_packet(&self, packet: &Packet) -> (verdict: Dispatch)
        ensures
            verdict == dispatch_of(packet.header.header_type),
    {
        match packet.header.header_type {
            HeaderType::Disconnect => Dispatch::Reply {
                header_type: HeaderType::Disconnect,
                close: true,
            },
            HeaderType::PlayCard => Dispatch::PlayCard,
            HeaderType::Connect => Dispatch::Reply {
                header_type: HeaderType::AlreadyConnected,
                close: false,
            },
            HeaderType::Reconnect => Dispatch::Reply {
                header_type: HeaderType::AlreadyConnected,
                close: false,
            },
            _ => Dispatch::Reply { header_type: HeaderType::InvalidHeader, close: false },
        }
    }

    /// Decides what follows an attempt to write a packet, `failed_before`
    /// attempts having failed before: a failed write is tried again after a
    /// pause, up to three attempts in all, and then given up.
    pub fn send_packet(&self, failed_before: u8, written: bool) -> (step: WriteStep)
        ensures
            write_step(failed_before, written, step),
    {
        if written {
            WriteStep::Sent
        } else if failed_before < WRITE_ATTEMPTS - 1 {
            WriteStep::Retry
        } else {
            WriteStep::Failed(NetworkError::PackageWriteError(String::from_str("Unknown error")))
        }
    }

    /// Marks a session as disconnected. It stays in the registry.
    pub fn disconnect(&self, client: &mut Client)
        ensures
            !final(client).connected,
            final(client).player_id == old(client).player_id,
            final(client).addr == old(client).addr,
            final(client).read_stream == old(client).read_stream,
            final(client).write_stream == old(client).write_stream,
            final(client).missed_packets == old(client).missed_packets,
    {
        client.disconnect();
    }

    /// Takes the result of sending an answer that does not close the
    /// session: the session is disconnected only if the packet could not be
    /// sent.
    pub fn send_or_disconnect(&self, client: &mut Client, sent: bool)
        ensures
            final(client).connected == (old(client).connected && sent),
            final(client).player_id == old(client).player_id,
            final(client).addr == old(client).addr,
            final(client).read_stream == old(client).read_stream,
            final(client).write_stream == old(client).write_stream,
            final(client).missed_packets == old(client).missed_packets,
    {
        if !sent {
            client.disconnect();
        }
    }

    /// Takes the result of sending an answer that closes the session: the
    /// session is disconnected whether or not the packet could be sent.
    pub fn send_and_disconnect(&self, client: &mut Client, sent: bool)
        ensures
            !final(client).connected,
            final(client).player_id == old(client).player_id,
            final(client).addr == old(client).addr,
            final(client).read_stream == old(client).read_stream,
            final(client).write_stream == old(client).write_stream,
            final(client).missed_packets == old(client).missed_packets,
    {
        client.disconnect();
    }

    /// Takes a disconnect: marks the session as down and gives the empty `Disconnect` answer.
    pub fn handle_disconnect(&self, client: &mut Client) -> (packet: Packet)
        ensures
            packet@ == packet_for(HeaderType::Disconnect, Seq::<u8>::empty()),
            !final(client).connected,
            final(client).player_id == old(client).player_id,
            final(client).addr == old(client).addr,
            final(client).read_stream == old(client).read_stream,
            final(client).write_stream == old(client).write_stream,
            final(client).missed_packets == old(client).missed_packets,
    {
        client.disconnect();
        Packet::empty(HeaderType::Disconnect)
    }

    /// Completes a handshake for a player whose profile and deck have been
    /// fetched: the player must be in the roster and must not have a
    /// connected session. The new session takes over the transport and is
    /// registered under the player's identifier; the result is its place in
    /// the registry.
    pub fn handle_connect(
        &self,
        server: &mut ServerInstance,
        temp_client: TemporaryClient,
        player_id: &String,
    ) -> (r: Result<usize, PlayerConnectionError>)
        requires
            old(server).wf(),
        ensures
            final(server).wf(),
            final(server).listening == old(server).listening,
            final(server).exit_status == old(server).exit_status,
            final(server).game_instance == old(server).game_instance,
            connected(
                old(server).game_instance.connected_players@,
                old(server).connected_clients@,
                final(server).connected_clients@,
                *player_id,
                temp_client,
                r,
            ),
    {
        if find_in_roster(&server.game_instance.connected_players, player_id).is_none() {
            return Err(PlayerConnectionError::PlayerNotConnected);
        }
        let found = server.find_client(player_id);
        let client = Client::new(
            temp_client.read_stream,
            temp_client.write_stream,
            temp_client.addr,
            player_id.clone(),
        );
        match found {
            Some(at) => {
                if server.connected_clients[at].connected {
                    return Err(PlayerConnectionError::AlreadyConnected);
                }
                server.connected_clients[at] = client;
                Ok(at)
            },
            None => {
                let at = server.connected_clients.len();
                server.connected_clients.push(client);
                Ok(at)
            },
        }
    }

    /// Completes a reconnection for a player whose token has been verified:
    /// the player's session is moved onto the new transport. Its player and
    /// its missed packets stay as they are. The result is the session's
    /// place in the registry.
    pub fn handle_reconnect(
        &self,
        server: &mut ServerInstance,
        temp_client: TemporaryClient,
        player_id: &String,
    ) -> (r: Result<usize, PlayerConnectionError>)
        requires
            old(server).wf(),
        ensures
            final(server).wf(),
            final(server).listening == old(server).listening,
            final(server).exit_status == old(server).exit_status,
            final(server).game_instance == old(server).game_instance,
            reconnected(
                old(server).connected_clients@,
                final(server).connected_clients@,
                player_id@,
                temp_client,
                r,
            ),
    {
        match server.find_client(player_id) {
            Some(at) => {
                server.connected_clients[at].reconnect(temp_client);
                Ok(at)
            },
            None => Err(PlayerConnectionError::PlayerNotConnected),
        }
    }

    /// Turns the error of a failed handshake or reconnection into the
    /// packet that tells the client: `InvalidPlayerData` for a request that
    /// does not decode, `AlreadyConnected` for a second session, and
    /// `FailedToConnectPlayer` with the reason for everything else.
    pub fn connection_failure(&self, error: &PlayerConnectionError) -> (packet: Packet)
        ensures
            packet@ == packet_for(failure_reply(*error).0, encode_utf8(failure_reply(*error).1)),
    {
        match error {
            PlayerConnectionError::InvalidPlayerPayload(_) => Packet::text(
                HeaderType::InvalidPlayerData,
                error.to_string().as_str(),
            ),
            PlayerConnectionError::AlreadyConnected => Packet::text(
                HeaderType::AlreadyConnected,
                error.to_string().as_str(),
            ),
            PlayerConnectionError::UnauthorizedPlayerError => Packet::text(
                HeaderType::FailedToConnectPlayer,
                "unauthorized",
            ),
            PlayerConnectionError::BannedPlayer(_) => Packet::text(
                HeaderType::FailedToConnectPlayer,
                "banned",
            ),
            PlayerConnectionError::PlayerNotConnected => Packet::text(
                HeaderType::FailedToConnectPlayer,
                "not in match",
            ),
            _ => Packet::text(HeaderType::FailedToConnectPlayer, error.to_string().as_str()),
        }
    }

    /// The answer to a play: nothing for a play that went through; for one
    /// that was refused, a `PlayCard` packet that carries the error's text.
    /// The session stays connected either way.
    pub fn handle_play_card(&self, result: &Result<(), GameLogicError>) -> (answer: Option<Packet>)
        ensures
            match *result {
                Ok(()) => answer is None,
                Err(error) => answer matches Some(packet) && packet@ == packet_for(
                    HeaderType::PlayCard,
                    encode_utf8(error.text()),
                ),
            },
    {
        match result {
            Ok(()) => None,
            Err(error) => Some(Packet::text(HeaderType::PlayCard, error.to_string().as_str())),
        }
    }

    /// The answer to a play request that does not decode: a `PlayCard`
    /// packet that carries the reason.
    pub fn refuse_play_card(&self, reason: &str) -> (packet: Packet)
        ensures
            packet@ == packet_for(HeaderType::PlayCard, encode_utf8(reason@)),
    {
        Packet::text(HeaderType::PlayCard, reason)
    }

    /// Hands out the packets that a session has missed, oldest first, and
    /// leaves its queue empty.
    pub fn send_missed_packets(&self, client: &mut Client) -> (missed: Vec<Packet>)
        ensures
            missed@ == old(client).missed_packets@,
            final(client).missed_packets@.len() == 0,
            final(client).wf(),
            old(client).same_but_queue(*final(client)),
    {
        let mut missed: Vec<Packet> = Vec::new();
        core::mem::swap(&mut missed, &mut client.missed_packets);
        missed
    }

    /// The next broadcast: the game state wrapped in a `GameState` packet
    /// while the match is going; nothing once it is over, which ends the
    /// broadcasts.
    pub fn cycle_game_state(&self, state: &GameState) -> (packet: Option<Packet>)
        ensures
            match packet {
                Some(p) => state.ongoing && p@ == packet_for(
                    HeaderType::GameState,
                    state_bytes(*state),
                ),
                None => !state.ongoing,
            },
    {
        if !state.ongoing {
            return None;
        }
        let bytes = state.wrap_game_state();
        Some(Packet::new(HeaderType::GameState, bytes.as_slice()))
    }
}

} // verus!
