use crate::game::game::GameInstance;
use crate::models::exit_code::{ExitCode, ExitStatus};
use crate::tcp::client::{missed_after, written_for, Client};
use crate::tcp::header::HeaderType;
use crate::tcp::packet::{decode_packet, packet_accepts, packet_for, Packet};
use crate::utils::checksum::checksum_matches;
use crate::utils::errors::{GameInstanceError, ProtocolError, ServerInstanceError};
use crate::utils::text::{first_index_of, lemma_first_index_is};
use vstd::prelude::*;
use vstd::string::StringExecFns;
use vstd::utf8::encode_utf8;

verus! {

/// The server in its second phase: it hosts one match and the sessions of
/// the players who have joined it.
#[derive(Debug)]
pub struct ServerInstance {
    /// Whether the accept loop goes on.
    pub listening: bool,
    pub game_instance: GameInstance,
    /// Set once the server has been told to stop.
    pub exit_status: Option<ExitStatus>,
    /// The session registry: at most one session for each player.
    pub connected_clients: Vec<Client>,
}

/// The server in its first phase: it waits to be told which match to host.
#[derive(Debug)]
pub struct UninitializedServer {
    /// Whether the server still reads requests.
    pub listening: bool,
}

/// What the first-phase server makes of the bytes of one read.
#[derive(Debug, Clone, Copy, PartialEq, Eq, Structural)]
pub enum InitVerdict {
    /// An intact `InitServer` packet: its payload is the request to decode.
    Initialize,
    /// The bytes are no packet: answer with an `ERROR` packet that carries
    /// the reason.
    Refuse,
    /// A packet that this phase does not take: answer with an empty packet
    /// of this type.
    Answer(HeaderType),
}

/// The player identifiers of the sessions of a registry, in order.
pub open spec fn client_ids(clients: Seq<Client>) -> Seq<Seq<char>> {
    clients.map_values(|c: Client| c.player_id@)
}

/// Whether no two sessions of a registry belong to the same player.
pub open spec fn one_session_each(clients: Seq<Client>) -> bool {
    forall|i: int, j: int|
        0 <= i < clients.len() && 0 <= j < clients.len() && i != j ==> (
        #[trigger] clients[i]).player_id@ != (#[trigger] clients[j]).player_id@
}

/// The verdict of the first phase on the bytes of one read.
pub open spec fn init_verdict(buffer: Seq<u8>) -> InitVerdict {
    if !packet_accepts(buffer) {
        InitVerdict::Refuse
    } else if !checksum_matches(
        decode_packet(buffer).header.checksum,
        decode_packet(buffer).payload,
    ) {
        InitVerdict::Answer(HeaderType::InvalidChecksum)
    } else if decode_packet(buffer).header.header_type == HeaderType::InitServer {
        InitVerdict::Initialize
    } else {
        InitVerdict::Answer(HeaderType::InvalidHeader)
    }
}

impl ServerInstance {
    /// A server is well formed when its match and its sessions are, and no
    /// player has two sessions.
    pub open spec fn wf(self) -> bool {
        &&& self.game_instance.wf()
        &&& forall|i: int|
            0 <= i < self.connected_clients@.len() ==> (#[trigger] self.connected_clients@[i]).wf()
        &&& one_session_each(self.connected_clients@)
    }

    /// Tells whether the server is well formed.
    pub fn check(&self) -> (ok: bool)
        ensures
            ok == self.wf(),
    {
        if !self.game_instance.game_state.check() {
            return false;
        }
        let n = self.connected_clients.len();
        let mut i: usize = 0;
        while i < n
            invariant
                0 <= i <= n,
                n == self.connected_clients@.len(),
                forall|a: int| 0 <= a < i ==> (#[trigger] self.connected_clients@[a]).wf(),
                forall|a: int, b: int|
                    0 <= a < i && 0 <= b < n && a != b ==> (
                    #[trigger] self.connected_clients@[a]).player_id@ != (
                    #[trigger] self.connected_clients@[b]).player_id@,
            decreases n - i,
        {
            if !self.connected_clients[i].check() {
                return false;
            }
            let mut j: usize = 0;
            while j < n
                invariant
                    0 <= j <= n,
                    i < n,
                    n == self.connected_clients@.len(),
                    forall|b: int|
                        0 <= b < j && b != i ==> (#[trigger] self.connected_clients@[b]).player_id@
                            != self.connected_clients@[i as int].player_id@,
                decreases n - j,
            {
                if j != i && self.connected_clients[j].player_id
                    == self.connected_clients[i].player_id {
                    return false;
                }
                j = j + 1;
            }
            i = i + 1;
        }
        true
    }

    /// Takes the server into its second phase, around the match that was
    /// built for it. A match that could not be built keeps the server out,
    /// with the reason in the error.
    pub fn init_server(
        uninitialized: UninitializedServer,
        game: Result<GameInstance, GameInstanceError>,
    ) -> (r: Result<ServerInstance, ServerInstanceError>)
        requires
            game matches Ok(g) ==> g.wf(),
        ensures
            match game {
                Ok(g) => r matches Ok(server) && {
                    &&& server.wf()
                    &&& server.listening
                    &&& server.exit_status is None
                    &&& server.connected_clients@.len() == 0
                    &&& server.game_instance == g
                },
                Err(e) => r matches Err(ServerInstanceError::GameInstanceFail(text)) && text@
                    == e.text(),
            },
    {
        match game {
            Ok(game_instance) => Ok(
                ServerInstance {
                    listening: true,
                    game_instance,
                    exit_status: None,
                    connected_clients: Vec::new(),
                },
            ),
            Err(error) => Err(ServerInstanceError::GameInstanceFail(error.to_string())),
        }
    }

    /// Tells whether the accept loop goes on: until the server is closed.
    pub fn listen(&self) -> (go_on: bool)
        ensures
            go_on == self.listening,
    {
        self.listening
    }

    /// Stops the server: the accept loop ends at its next turn, and the exit
    /// status records the code and the reason.
    pub fn close_server(&mut self, code: ExitCode, reason: String)
        ensures
            !final(self).listening,
            final(self).exit_status matches Some(status) && status.code == code.number()
                && status.reason == reason,
            final(self).game_instance == old(self).game_instance,
            final(self).connected_clients == old(self).connected_clients,
    {
        self.listening = false;
        self.exit_status = Some(ExitStatus { code: code.code(), reason });
    }

    /// Finds the session of a player.
    pub fn find_client(&self, player_id: &String) -> (found: Option<usize>)
        ensures
            match found {
                Some(i) => i < self.connected_clients@.len() && i == first_index_of(
                    client_ids(self.connected_clients@),
                    player_id@,
                ) && self.connected_clients@[i as int].player_id@ == player_id@,
                None => first_index_of(client_ids(self.connected_clients@), player_id@)
                    == self.connected_clients@.len() && forall|j: int|
                    0 <= j < self.connected_clients@.len() ==> (
                    #[trigger] self.connected_clients@[j]).player_id@ != player_id@,
            },
    {
        let mut i: usize = 0;
        while i < self.connected_clients.len()
            invariant
                0 <= i <= self.connected_clients@.len(),
                forall|j: int|
                    0 <= j < i ==> (#[trigger] self.connected_clients@[j]).player_id@
                        != player_id@,
            decreases self.connected_clients@.len() - i,
        {
            if self.connected_clients[i].player_id == *player_id {
                proof {
                    assert forall|j: int| 0 <= j < i implies client_ids(
                        self.connected_clients@,
                    )[j] != player_id@ by {
                        assert(self.connected_clients@[j].player_id@ != player_id@);
                    }
                    lemma_first_index_is(
                        client_ids(self.connected_clients@),
                        player_id@,
                        i as int,
                    );
                }
                return Some(i);
            }
            i = i + 1;
        }
        proof {
            assert forall|j: int| 0 <= j < i implies client_ids(self.connected_clients@)[j]
                != player_id@ by {
                assert(self.connected_clients@[j].player_id@ != player_id@);
            }
            lemma_first_index_is(client_ids(self.connected_clients@), player_id@, i as int);
        }
        None
    }
}

impl ServerInstance {
    /// Whether `other` is this server with nothing changed but the session
    /// at the place `at`, which still belongs to the same player.
    pub open spec fn same_but_session(self, other: ServerInstance, at: int) -> bool {
        &&& other.listening == self.listening
        &&& other.exit_status == self.exit_status
        &&& other.game_instance == self.game_instance
        &&& other.connected_clients@.len() == self.connected_clients@.len()
        &&& forall|i: int|
            0 <= i < self.connected_clients@.len() && i != at ==> other.connected_clients@[i]
                == self.connected_clients@[i]
        &&& other.connected_clients@[at].player_id == self.connected_clients@[at].player_id
    }

    /// Hands a broadcast packet to the session at the place `at`, and gives
    /// back what that session has to write: while it is connected, its
    /// backlog and then the packet; while it is not, nothing, and the packet
    /// joins its missed queue.
    pub fn deliver(&mut self, at: usize, packet: Packet) -> (to_write: Vec<Packet>)
        requires
            old(self).wf(),
            at < old(self).connected_clients@.len(),
        ensures
            final(self).wf(),
            old(self).same_but_session(*final(self), at as int),
            old(self).connected_clients@[at as int].same_but_queue(
                final(self).connected_clients@[at as int],
            ),
            to_write@ == written_for(
                old(self).connected_clients@[at as int].connected,
                old(self).connected_clients@[at as int].missed_packets@,
                packet,
            ),
            final(self).connected_clients@[at as int].missed_packets@ == missed_after(
                old(self).connected_clients@[at as int].connected,
                old(self).connected_clients@[at as int].missed_packets@,
                packet,
            ),
    {
        self.connected_clients[at].listen_to_game_state(packet)
    }

    /// Marks the session at the place `at` as disconnected. It stays in the
    /// registry, with its player and its missed queue.
    pub fn disconnect(&mut self, at: usize)
        requires
            old(self).wf(),
            at < old(self).connected_clients@.len(),
        ensures
            final(self).wf(),
            old(self).same_but_session(*final(self), at as int),
            !final(self).connected_clients@[at as int].connected,
            final(self).connected_clients@[at as int].missed_packets == old(
                self,
            ).connected_clients@[at as int].missed_packets,
            final(self).connected_clients@[at as int].addr == old(
                self,
            ).connected_clients@[at as int].addr,
            final(self).connected_clients@[at as int].read_stream == old(
                self,
            ).connected_clients@[at as int].read_stream,
            final(self).connected_clients@[at as int].write_stream == old(
                self,
            ).connected_clients@[at as int].write_stream,
    {
        self.connected_clients[at].disconnect();
    }

    /// Takes the result of sending an answer to the session at the place
    /// `at`: an answer that closes the session disconnects it in any case,
    /// another one only if it could not be sent.
    pub fn after_reply(&mut self, at: usize, close: bool, sent: bool)
        requires
            old(self).wf(),
            at < old(self).connected_clients@.len(),
        ensures
            final(self).wf(),
            old(self).same_but_session(*final(self), at as int),
            final(self).connected_clients@[at as int].connected == (old(
                self,
            ).connected_clients@[at as int].connected && !close && sent),
            final(self).connected_clients@[at as int].missed_packets == old(
                self,
            ).connected_clients@[at as int].missed_packets,
            final(self).connected_clients@[at as int].addr == old(
                self,
            ).connected_clients@[at as int].addr,
            final(self).connected_clients@[at as int].read_stream == old(
                self,
            ).connected_clients@[at as int].read_stream,
            final(self).connected_clients@[at as int].write_stream == old(
                self,
            ).connected_clients@[at as int].write_stream,
    {
        if close || !sent {
            self.connected_clients[at].disconnect();
        }
    }
}

/// In a well-formed server, the session registry has at most one entry for
/// each player: two places that hold sessions of the same player are the
/// same place.
pub proof fn lemma_one_session_per_player(server: ServerInstance, i: int, j: int)
    requires
        server.wf(),
        0 <= i < server.connected_clients@.len(),
        0 <= j < server.connected_clients@.len(),
        server.connected_clients@[i].player_id@ == server.connected_clients@[j].player_id@,
    ensures
        i == j,
{
}

impl UninitializedServer {
    /// The server before it has been told which match to host.
    pub fn create_instance() -> (server: UninitializedServer)
        ensures
            server.listening,
    {
        UninitializedServer { listening: true }
    }

    /// Tells whether the first phase still waits for its request.
    pub fn await_for_initialization(&self) -> (go_on: bool)
        ensures
            go_on == self.listening,
    {
        self.listening
    }

    /// Judges the bytes of one read in the first phase. Only an intact
    /// `InitServer` packet starts the initialization, and then the packet
    /// handed back is the one received. In every other case the packet
    /// handed back is the answer to send, and the server stays in its first
    /// phase: an `ERROR` packet with the reason for bytes that are no
    /// packet, an empty `InvalidChecksum` packet for a payload that does not
    /// match its checksum, an empty `InvalidHeader` packet for any other type.
    pub fn listen_to_connection(&self, buffer: &[u8]) -> (r: (InitVerdict, Packet))
        ensures
            r.0 == init_verdict(buffer@),
            match r.0 {
                InitVerdict::Initialize => r.1@ == decode_packet(buffer@),
                InitVerdict::Answer(header_type) => r.1@ == packet_for(
                    header_type,
                    Seq::<u8>::empty(),
                ),
                InitVerdict::Refuse => exists|e: ProtocolError|
                    crate::tcp::packet::parse_refusal(buffer@, e) && r.1@ == packet_for(
                        HeaderType::ERROR,
                        encode_utf8(e.text()),
                    ),
            },
    {
        match Packet::parse(buffer) {
            Err(error) => {
                let text = error.to_string();
                let answer = Packet::text(HeaderType::ERROR, text.as_str());
                proof {
                    assert(crate::tcp::packet::parse_refusal(buffer@, error) && answer@
                        == packet_for(HeaderType::ERROR, encode_utf8(error.text())));
                }
                (InitVerdict::Refuse, answer)
            },
            Ok(packet) => {
                if !packet.is_intact() {
                    (
                        InitVerdict::Answer(HeaderType::InvalidChecksum),
                        Packet::empty(HeaderType::InvalidChecksum),
                    )
                } else if packet.header.header_type == HeaderType::InitServer {
                    (InitVerdict::Initialize, packet)
                } else {
                    (
                        InitVerdict::Answer(HeaderType::InvalidHeader),
                        Packet::empty(HeaderType::InvalidHeader),
                    )
                }
            },
        }
    }

    /// The answer to an initialization that failed: an `ERROR` packet that
    /// carries the reason. The server stays in its first phase.
    pub fn refuse_initialization(&self, reason: &str) -> (packet: Packet)
        ensures
            packet@ == packet_for(HeaderType::ERROR, encode_utf8(reason@)),
    {
        Packet::text(HeaderType::ERROR, reason)
    }
}

} // verus!
