//! The decisions of an MPC-as-a-service server: its builder and settings,
//! the schedule of its peer connections, and the session it runs with each
//! client that connects.
//!
//! The caller owns the network and the MPC engine; each function here takes
//! what happened and says what to do next.

use vstd::prelude::*;
use crate::error::{Error, ErrorView, rview};
use crate::mpcaas::protocol::MPCaaSMessage;
use crate::peer_manager::DiscoveryMode;
use crate::program::Program;
use crate::text::{contains_text, owned, str_contains};
use crate::types::{unix_time, Duration, SocketAddress};

verus! {

/// Lifecycle of a server.
#[derive(Clone, Copy, Debug, PartialEq, Eq, Structural)]
pub enum ServerState {
    Initialized,
    Starting,
    ConnectingPeers,
    Preprocessing,
    Ready,
    Computing,
    ShuttingDown,
}

/// The display text of a server state.
pub open spec fn server_state_text(s: ServerState) -> Seq<char> {
    match s {
        ServerState::Initialized => "Initialized"@,
        ServerState::Starting => "Starting"@,
        ServerState::ConnectingPeers => "ConnectingPeers"@,
        ServerState::Preprocessing => "Preprocessing"@,
        ServerState::Ready => "Ready"@,
        ServerState::Computing => "Computing"@,
        ServerState::ShuttingDown => "ShuttingDown"@,
    }
}

impl ServerState {
    /// The display text of the state.
    pub fn to_text(&self) -> (s: String)
        ensures
            s@ == server_state_text(*self),
    {
        match self {
            ServerState::Initialized => owned("Initialized"),
            ServerState::Starting => owned("Starting"),
            ServerState::ConnectingPeers => owned("ConnectingPeers"),
            ServerState::Preprocessing => owned("Preprocessing"),
            ServerState::Ready => owned("Ready"),
            ServerState::Computing => owned("Computing"),
            ServerState::ShuttingDown => owned("ShuttingDown"),
        }
    }
}

/// Builder of a server.
pub struct StoffelServerBuilder {
    /// This server's party id.
    pub party_id: usize,
    /// The address to listen on, once a valid one was given.
    pub bind_address: Option<SocketAddress>,
    /// The peers with valid addresses, in the order given.
    pub peers: Vec<(usize, SocketAddress)>,
    /// The signaling server, if any.
    pub signaling_server: Option<String>,
    /// The STUN server, if any.
    pub stun_server: Option<String>,
    /// The program to run.
    pub program: Option<Program>,
    /// Beaver triples to generate.
    pub n_triples: usize,
    /// Random shares to generate.
    pub n_random_shares: usize,
    /// Identifier shared by all servers of one computation.
    pub instance_id: Option<u64>,
    /// Unix time (seconds) at which preprocessing starts.
    pub preprocessing_start_epoch: Option<u64>,
}

/// The peers whose address parsed, in order.
pub open spec fn parsed_peers(peers: Seq<(usize, Option<SocketAddress>)>) -> Seq<(usize, SocketAddress)>
    decreases peers.len(),
{
    if peers.len() == 0 {
        Seq::empty()
    } else {
        let rest = parsed_peers(peers.drop_last());
        match peers.last().1 {
            Some(a) => rest.push((peers.last().0, a)),
            None => rest,
        }
    }
}

impl StoffelServerBuilder {
    /// A builder for `party_id`: nothing set, 10 triples and 20 random shares.
    pub fn new(party_id: usize) -> (b: Self)
        ensures
            b.party_id == party_id,
            b.bind_address is None,
            b.peers@.len() == 0,
            b.signaling_server is None,
            b.stun_server is None,
            b.program is None,
            b.n_triples == 10,
            b.n_random_shares == 20,
            b.instance_id is None,
            b.preprocessing_start_epoch is None,
    {
        StoffelServerBuilder {
            party_id,
            bind_address: None,
            peers: Vec::new(),
            signaling_server: None,
            stun_server: None,
            program: None,
            n_triples: 10,
            n_random_shares: 20,
            instance_id: None,
            preprocessing_start_epoch: None,
        }
    }

    /// Sets the address to listen on to the parsed address; an address that
    /// did not parse (`None`) clears it.
    pub fn bind(self, address: Option<SocketAddress>) -> (b: Self)
        ensures
            b == (StoffelServerBuilder { bind_address: address, ..self }),
    {
        StoffelServerBuilder { bind_address: address, ..self }
    }

    /// Replaces the peers with those whose address parsed, in order.
    pub fn with_peers(self, peers: &[(usize, Option<SocketAddress>)]) -> (b: Self)
        ensures
            b.peers@ == parsed_peers(peers@),
            b == (StoffelServerBuilder { peers: b.peers, ..self }),
    {
        let mut v: Vec<(usize, SocketAddress)> = Vec::new();
        let mut i: usize = 0;
        while i < peers.len()
            invariant
                i <= peers@.len(),
                v@ == parsed_peers(peers@.take(i as int)),
            decreases peers@.len() - i,
        {
            proof {
                assert(peers@.take(i + 1).drop_last() =~= peers@.take(i as int));
            }
            let (id, addr) = peers[i];
            match addr {
                Some(a) => v.push((id, a)),
                None => {},
            }
            i = i + 1;
        }
        proof {
            assert(peers@.take(peers@.len() as int) =~= peers@);
        }
        StoffelServerBuilder { peers: v, ..self }
    }

    /// Sets the signaling server.
    pub fn with_signaling_server(self, address: &str) -> (b: Self)
        ensures
            b.signaling_server matches Some(s) && s@ == address@,
            b == (StoffelServerBuilder { signaling_server: b.signaling_server, ..self }),
    {
        StoffelServerBuilder { signaling_server: Some(owned(address)), ..self }
    }

    /// Sets the STUN server.
    pub fn with_stun_server(self, address: &str) -> (b: Self)
        ensures
            b.stun_server matches Some(s) && s@ == address@,
            b == (StoffelServerBuilder { stun_server: b.stun_server, ..self }),
    {
        StoffelServerBuilder { stun_server: Some(owned(address)), ..self }
    }

    /// Sets the program.
    pub fn with_program(self, program: Program) -> (b: Self)
        ensures
            b == (StoffelServerBuilder { program: Some(program), ..self }),
    {
        StoffelServerBuilder { program: Some(program), ..self }
    }

    /// Sets the amounts of preprocessing material.
    pub fn with_preprocessing(self, n_triples: usize, n_random_shares: usize) -> (b: Self)
        ensures
            b == (StoffelServerBuilder { n_triples, n_random_shares, ..self }),
    {
        StoffelServerBuilder { n_triples, n_random_shares, ..self }
    }

    /// Sets the instance id.
    pub fn with_instance_id(self, id: u64) -> (b: Self)
        ensures
            b == (StoffelServerBuilder { instance_id: Some(id), ..self }),
    {
        StoffelServerBuilder { instance_id: Some(id), ..self }
    }

    /// Sets the Unix time at which preprocessing starts.
    pub fn with_preprocessing_start_time(self, epoch: u64) -> (b: Self)
        ensures
            b == (StoffelServerBuilder { preprocessing_start_epoch: Some(epoch), ..self }),
    {
        StoffelServerBuilder { preprocessing_start_epoch: Some(epoch), ..self }
    }

    /// Checks the settings and fixes the derived ones; the instance id, when
    /// none was set, is the current Unix time in seconds (0 before the
    /// epoch). See [`Self::build_at`].
    pub fn build(self) -> (r: Result<ServerSettings, Error>)
        requires
            self.peers@.len() + 1 <= usize::MAX,
        ensures
            build_outcome(self, r),
            r matches Ok(s) ==> (self.instance_id is Some ==> s.instance_id == self.instance_id->Some_0),
    {
        let now = match unix_time() {
            Some((secs, _)) => Some(secs),
            None => None,
        };
        self.build_at(now)
    }

    /// Checks the settings: a bind address is needed; then a signaling
    /// server, or else at least one peer; then a program. The network has
    /// the peers plus this server as parties, threshold 1, and the instance
    /// id set, or `now` (0 when unknown).
    pub fn build_at(self, now: Option<u64>) -> (r: Result<ServerSettings, Error>)
        requires
            self.peers@.len() + 1 <= usize::MAX,
        ensures
            build_outcome(self, r),
            r matches Ok(s) ==> s.instance_id == (match self.instance_id {
                Some(id) => id,
                None => match now {
                    Some(t) => t,
                    None => 0,
                },
            }),
    {
        let bind_address = match self.bind_address {
            Some(a) => a,
            None => {
                return Err(Error::Configuration(owned("No bind address specified")));
            },
        };
        let n_parties = self.peers.len() + 1;
        let discovery = match self.signaling_server {
            Some(address) => DiscoveryMode::SignalingServer { address, stun: self.stun_server },
            None => {
                if self.peers.len() == 0 {
                    return Err(
                        Error::Configuration(owned("Either peers or signaling server must be specified")),
                    );
                }
                DiscoveryMode::Explicit(self.peers)
            },
        };
        let program = match self.program {
            Some(p) => p,
            None => {
                return Err(Error::Configuration(owned("No program specified")));
            },
        };
        let instance_id = match self.instance_id {
            Some(id) => id,
            None => match now {
                Some(t) => t,
                None => 0,
            },
        };
        Ok(ServerSettings {
            party_id: self.party_id,
            bind_address,
            discovery,
            program,
            n_parties,
            threshold: 1,
            n_triples: self.n_triples,
            n_random_shares: self.n_random_shares,
            instance_id,
            preprocessing_start_epoch: self.preprocessing_start_epoch,
        })
    }
}

/// What building gives, but for the instance id.
pub open spec fn build_outcome(b: StoffelServerBuilder, r: Result<ServerSettings, Error>) -> bool {
    if b.bind_address is None {
        rview(r) == Err::<ServerSettings, ErrorView>(ErrorView::Configuration("No bind address specified"@))
    } else if b.signaling_server is None && b.peers@.len() == 0 {
        rview(r) == Err::<ServerSettings, ErrorView>(
            ErrorView::Configuration("Either peers or signaling server must be specified"@),
        )
    } else if b.program is None {
        rview(r) == Err::<ServerSettings, ErrorView>(ErrorView::Configuration("No program specified"@))
    } else {
        r matches Ok(s) && {
            &&& s.party_id == b.party_id
            &&& Some(s.bind_address) == b.bind_address
            &&& Some(s.program) == b.program
            &&& s.n_parties == b.peers@.len() + 1
            &&& s.threshold == 1
            &&& s.n_triples == b.n_triples
            &&& s.n_random_shares == b.n_random_shares
            &&& s.preprocessing_start_epoch == b.preprocessing_start_epoch
            &&& match b.signaling_server {
                Some(a) => s.discovery matches DiscoveryMode::SignalingServer { address, stun } && address
                    == a && stun == b.stun_server,
                None => s.discovery matches DiscoveryMode::Explicit(list) && list@ == b.peers@,
            }
        }
    }
}

/// The settings of a built server.
pub struct ServerSettings {
    /// This server's party id.
    pub party_id: usize,
    /// The address it listens on.
    pub bind_address: SocketAddress,
    /// How it finds its peers.
    pub discovery: DiscoveryMode,
    /// The program it runs.
    pub program: Program,
    /// Number of parties: the peers and this server.
    pub n_parties: usize,
    /// Threshold of the network.
    pub threshold: usize,
    /// Beaver triples to generate.
    pub n_triples: usize,
    /// Random shares to generate.
    pub n_random_shares: usize,
    /// Identifier shared by all servers of one computation.
    pub instance_id: u64,
    /// Unix time (seconds) at which preprocessing starts.
    pub preprocessing_start_epoch: Option<u64>,
}

impl ServerSettings {
    /// The greeting sent to each client that connects.
    pub fn server_info(&self) -> (m: MPCaaSMessage)
        ensures
            m == (MPCaaSMessage::ServerInfo {
                n_parties: self.n_parties,
                threshold: self.threshold,
                instance_id: self.instance_id,
                party_id: self.party_id,
            }),
    {
        MPCaaSMessage::ServerInfo {
            n_parties: self.n_parties,
            threshold: self.threshold,
            instance_id: self.instance_id,
            party_id: self.party_id,
        }
    }
}

// ---------------------------------------------------------------------------
// Peer connection schedule
// ---------------------------------------------------------------------------

/// Whether this server dials `peer` (it dials the peers with higher ids and
/// waits for those with lower ids).
pub open spec fn dials(me: usize, peer: usize) -> bool {
    peer > me
}

/// Whether this server dials the peer `peer`.
pub fn should_dial(me: usize, peer: usize) -> (b: bool)
    ensures
        b == dials(me, peer),
{
    peer > me
}

/// The connections this server dials and the ones it accepts, in a network
/// of `n_parties` parties with ids `0..n_parties`.
pub fn connection_counts(me: usize, n_parties: usize) -> (r: (usize, usize))
    requires
        me < n_parties,
    ensures
        r.0 == n_parties - 1 - me,
        r.1 == me,
        r.0 + r.1 + 1 == n_parties,
{
    (n_parties - 1 - me, me)
}

/// Two servers agree on who dials: of any two distinct parties exactly one
/// dials the other.
pub proof fn lemma_exactly_one_dials(a: usize, b: usize)
    requires
        a != b,
    ensures
        dials(a, b) != dials(b, a),
{
}

/// The port of the MPC endpoint of party `party_id`: 20200 plus its id.
pub fn mpc_port(party_id: u16) -> (p: u16)
    requires
        party_id <= 65535 - 20200,
    ensures
        p == 20200 + party_id,
{
    19200 + 1000 + party_id
}

/// The port of a peer's MPC endpoint: its port plus 1000.
pub fn peer_mpc_port(port: u16) -> (p: u16)
    requires
        port <= 65535 - 1000,
    ensures
        p == port + 1000,
{
    port + 1000
}

/// How long party `party_id` waits before connecting its MPC endpoint:
/// 3000 ms plus 200 ms per party id.
pub fn initial_delay(party_id: u64) -> (d: Duration)
    requires
        200 * party_id <= u64::MAX,
    ensures
        d.total_nanos() == (3000 + 200 * party_id) * 1_000_000,
{
    let base = Duration::from_millis(3000);
    let stagger = Duration::from_millis(200 * party_id);
    assert((200 * party_id) * 1_000_000 + 3000 * 1_000_000 < (u64::MAX as nat + 1) * 1_000_000_000)
        by (nonlinear_arith)
        requires
            200 * party_id <= u64::MAX,
    ;
    base.plus(&stagger)
}

/// The number of attempts to reach a peer's MPC endpoint.
pub open spec fn max_dial_attempts() -> u32 {
    5
}

/// Two to the power `n`.
pub open spec fn two_pow(n: nat) -> nat
    decreases n,
{
    if n == 0 {
        1
    } else {
        2 * two_pow((n - 1) as nat)
    }
}

/// The pause before retry number `retry` (1 to 4): 200 ms times `2^retry`.
pub fn retry_backoff(retry: u32) -> (d: Duration)
    requires
        1 <= retry < max_dial_attempts(),
    ensures
        d == Duration::from_millis_spec((200 * two_pow(retry as nat)) as u64),
{
    let mut m: u64 = 200;
    let mut k: u32 = 0;
    while k < retry
        invariant
            k <= retry,
            retry < 5,
            m == 200 * two_pow(k as nat),
            two_pow(k as nat) <= 16,
        decreases retry - k,
    {
        proof {
            reveal_with_fuel(two_pow, 5);
        }
        m = m * 2;
        k = k + 1;
        proof {
            reveal_with_fuel(two_pow, 5);
        }
    }
    Duration::from_millis(m)
}

/// Whether to try the peer's MPC endpoint again after `attempts` failed
/// attempts.
pub fn should_retry(attempts: u32) -> (b: bool)
    ensures
        b == (attempts < max_dial_attempts()),
{
    attempts < 5
}

/// How long to wait before preprocessing: until the agreed start time when
/// one is set (nothing when it has passed, `now` being the current Unix time
/// in seconds), else 5 seconds.
pub fn preprocessing_wait(start_epoch: Option<u64>, now: u64) -> (d: Duration)
    ensures
        d == (match start_epoch {
            Some(s) => if now < s {
                Duration::from_secs_spec((s - now) as u64)
            } else {
                Duration::from_secs_spec(0)
            },
            None => Duration::from_millis_spec(5000),
        }),
{
    match start_epoch {
        Some(s) => {
            if now < s {
                Duration::from_secs(s - now)
            } else {
                Duration::from_secs(0)
            }
        },
        None => Duration::from_millis(5000),
    }
}

// ---------------------------------------------------------------------------
// Client session
// ---------------------------------------------------------------------------

/// Where a session with one client stands.
#[derive(Clone, Copy, Debug, PartialEq, Eq, Structural)]
pub enum SessionPhase {
    /// Nothing sent yet.
    Start,
    /// Greeting sent; waiting for the client to be ready.
    AwaitingReady,
    /// Client ready; waiting for preprocessing to finish.
    AwaitingPreprocessing { client_id: usize, num_inputs: usize },
    /// Mask shares sent; waiting for the masked inputs.
    AwaitingMaskedInput { client_id: usize },
    /// Running the program for the client.
    Executing { client_id: usize },
    /// The session is over.
    Done,
}

/// What happened in a session.
pub enum SessionEvent {
    /// The client connected.
    Connected,
    /// A message arrived from the client.
    Received(MPCaaSMessage),
    /// A check of preprocessing: whether it finished, whether the engine is
    /// there, and how long the client has waited.
    PreprocessingStatus { complete: bool, engine_ready: bool, waited: Duration },
    /// The program ran; the session id to report.
    Executed { session_id: u64 },
}

/// What the server does next in a session.
#[derive(Debug)]
pub enum SessionAction {
    /// Send this message to the client.
    Send(MPCaaSMessage),
    /// Register the client and wait for preprocessing.
    RegisterClient { client_id: usize, num_inputs: usize },
    /// Check again later.
    Wait,
    /// Take `count` random shares and send them to the client as its masks.
    SendMaskShares { client_id: usize, count: usize },
    /// Hand the masked-input payload to the engine, then run the program.
    ProcessMaskedInput(Vec<u8>),
    /// Run the program.
    Execute,
    /// Close the session quietly.
    Close,
    /// End the session with this error.
    Fail(Error),
}

/// How long a client may wait for preprocessing.
pub open spec fn preprocessing_timeout() -> Duration {
    Duration::from_secs_spec(30)
}

/// One step of a session: the phase after `event` in `phase`, and the
/// action. The greeting comes first; only a ready client goes on; it waits
/// for preprocessing (at most 30 s, and the engine must be there); then its
/// mask shares go out, its masked inputs come in, the program runs, and
/// completion is reported.
pub open spec fn session_step(
    phase: SessionPhase,
    info: MPCaaSMessage,
    event: SessionEvent,
) -> (SessionPhase, SessionActionView) {
    match (phase, event) {
        (SessionPhase::Start, SessionEvent::Connected) => (
            SessionPhase::AwaitingReady,
            SessionActionView::Send(info),
        ),
        (SessionPhase::AwaitingReady, SessionEvent::Received(
            MPCaaSMessage::ClientReady { client_id, num_inputs },
        )) => (
            SessionPhase::AwaitingPreprocessing { client_id, num_inputs },
            SessionActionView::RegisterClient { client_id, num_inputs },
        ),
        (SessionPhase::AwaitingPreprocessing { client_id, num_inputs }, SessionEvent::PreprocessingStatus {
            complete,
            engine_ready,
            waited,
        }) => if complete {
            if engine_ready {
                (
                    SessionPhase::AwaitingMaskedInput { client_id },
                    SessionActionView::SendMaskShares { client_id, count: num_inputs },
                )
            } else {
                (
                    SessionPhase::Done,
                    SessionActionView::Fail(ErrorView::Preprocessing("MPC engine not initialized"@)),
                )
            }
        } else if preprocessing_timeout().total_nanos() < waited.total_nanos() {
            (
                SessionPhase::Done,
                SessionActionView::Fail(
                    ErrorView::Runtime(
                        "Server preprocessing timeout after 30s - MPC engine not ready"@,
                    ),
                ),
            )
        } else {
            (phase, SessionActionView::Wait)
        },
        (SessionPhase::AwaitingMaskedInput { client_id }, SessionEvent::Received(
            MPCaaSMessage::HoneyBadger(data),
        )) => (SessionPhase::Executing { client_id }, SessionActionView::ProcessMaskedInput(data@)),
        (SessionPhase::AwaitingMaskedInput { client_id }, SessionEvent::Received(_)) => (
            SessionPhase::Executing { client_id },
            SessionActionView::Execute,
        ),
        (SessionPhase::Executing { .. }, SessionEvent::Executed { session_id }) => (
            SessionPhase::Done,
            SessionActionView::Send(MPCaaSMessage::ComputationComplete { session_id }),
        ),
        _ => (SessionPhase::Done, SessionActionView::Close),
    }
}

/// A session action as plain values.
pub enum SessionActionView {
    Send(MPCaaSMessage),
    RegisterClient { client_id: usize, num_inputs: usize },
    Wait,
    SendMaskShares { client_id: usize, count: usize },
    ProcessMaskedInput(Seq<u8>),
    Execute,
    Close,
    Fail(ErrorView),
}

/// An action as plain values.
pub open spec fn action_view(a: SessionAction) -> SessionActionView {
    match a {
        SessionAction::Send(m) => SessionActionView::Send(m),
        SessionAction::RegisterClient { client_id, num_inputs } => SessionActionView::RegisterClient {
            client_id,
            num_inputs,
        },
        SessionAction::Wait => SessionActionView::Wait,
        SessionAction::SendMaskShares { client_id, count } => SessionActionView::SendMaskShares {
            client_id,
            count,
        },
        SessionAction::ProcessMaskedInput(d) => SessionActionView::ProcessMaskedInput(d@),
        SessionAction::Execute => SessionActionView::Execute,
        SessionAction::Close => SessionActionView::Close,
        SessionAction::Fail(e) => SessionActionView::Fail(rview(Err::<(), Error>(e))->Err_0),
    }
}

/// A session with one client.
pub struct ClientSession {
    /// Where the session stands.
    pub phase: SessionPhase,
}

impl ClientSession {
    /// A session that has not started.
    pub fn new() -> (s: Self)
        ensures
            s.phase == SessionPhase::Start,
    {
        ClientSession { phase: SessionPhase::Start }
    }

    /// Takes one event (see [`session_step`]); `info` is the greeting of
    /// this server.
    pub fn step(&mut self, info: MPCaaSMessage, event: SessionEvent) -> (a: SessionAction)
        ensures
            (final(self).phase, action_view(a)) == session_step(old(self).phase, info, event),
    {
        let phase = self.phase;
        match (phase, event) {
            (SessionPhase::Start, SessionEvent::Connected) => {
                self.phase = SessionPhase::AwaitingReady;
                SessionAction::Send(info)
            },
            (SessionPhase::AwaitingReady, SessionEvent::Received(
                MPCaaSMessage::ClientReady { client_id, num_inputs },
            )) => {
                self.phase = SessionPhase::AwaitingPreprocessing { client_id, num_inputs };
                SessionAction::RegisterClient { client_id, num_inputs }
            },
            (SessionPhase::AwaitingPreprocessing { client_id, num_inputs }, SessionEvent::PreprocessingStatus {
                complete,
                engine_ready,
                waited,
            }) => {
                if complete {
                    if engine_ready {
                        self.phase = SessionPhase::AwaitingMaskedInput { client_id };
                        SessionAction::SendMaskShares { client_id, count: num_inputs }
                    } else {
                        self.phase = SessionPhase::Done;
                        SessionAction::Fail(Error::Preprocessing(owned("MPC engine not initialized")))
                    }
                } else if Duration::from_secs(30).shorter_than(&waited) {
                    self.phase = SessionPhase::Done;
                    SessionAction::Fail(
                        Error::Runtime(
                            owned("Server preprocessing timeout after 30s - MPC engine not ready"),
                        ),
                    )
                } else {
                    SessionAction::Wait
                }
            },
            (SessionPhase::AwaitingMaskedInput { client_id }, SessionEvent::Received(
                MPCaaSMessage::HoneyBadger(data),
            )) => {
                self.phase = SessionPhase::Executing { client_id };
                SessionAction::ProcessMaskedInput(data)
            },
            (SessionPhase::AwaitingMaskedInput { client_id }, SessionEvent::Received(_)) => {
                self.phase = SessionPhase::Executing { client_id };
                SessionAction::Execute
            },
            (SessionPhase::Executing { .. }, SessionEvent::Executed { session_id }) => {
                self.phase = SessionPhase::Done;
                SessionAction::Send(MPCaaSMessage::ComputationComplete { session_id })
            },
            _ => {
                self.phase = SessionPhase::Done;
                SessionAction::Close
            },
        }
    }
}

/// A finished session stays finished, whatever happens next.
pub proof fn lemma_done_is_final(info: MPCaaSMessage, event: SessionEvent)
    ensures
        session_step(SessionPhase::Done, info, event).0 == SessionPhase::Done,
{
}

/// No mask shares are sent before the client said it is ready: from the
/// start, and while waiting for readiness, no event leads to sending them.
pub proof fn lemma_masks_only_after_ready(phase: SessionPhase, info: MPCaaSMessage, event: SessionEvent)
    requires
        phase is Start || phase is AwaitingReady,
    ensures
        !(session_step(phase, info, event).1 is SendMaskShares),
{
}

// ---------------------------------------------------------------------------
// Message pumps
// ---------------------------------------------------------------------------

/// What one poll of a peer connection gave.
pub enum ReceiveOutcome {
    /// A message arrived.
    Received(Vec<u8>),
    /// The receive failed with this error text.
    Failed(String),
    /// Nothing arrived within the poll interval.
    TimedOut,
}

/// What a peer reader does next.
pub enum ReaderAction {
    /// Forward the message to the processing queue (and stop if the queue
    /// refuses it).
    Forward(Vec<u8>),
    /// Stop reading from this peer.
    Stop,
    /// Poll the connection again.
    KeepPolling,
}

/// Whether a receive error says that the connection was closed.
pub open spec fn closed_connection_error(text: Seq<char>) -> bool {
    contains_text(text, "closed"@) || contains_text(text, "Closed"@)
}

/// One iteration of a peer reader. `shutdown` is the flag read at the start
/// of the iteration; when it is set the reader stops without looking at
/// `outcome`. A message is forwarded; an error that mentions a closed
/// connection stops the reader, any other error is passed over; a timeout
/// leads to another poll.
pub fn reader_step(shutdown: bool, outcome: ReceiveOutcome) -> (a: ReaderAction)
    ensures
        shutdown ==> a is Stop,
        !shutdown ==> match outcome {
            ReceiveOutcome::Received(m) => a matches ReaderAction::Forward(f) && f@ == m@,
            ReceiveOutcome::Failed(t) => if closed_connection_error(t@) {
                a is Stop
            } else {
                a is KeepPolling
            },
            ReceiveOutcome::TimedOut => a is KeepPolling,
        },
{
    if shutdown {
        return ReaderAction::Stop;
    }
    match outcome {
        ReceiveOutcome::Received(m) => ReaderAction::Forward(m),
        ReceiveOutcome::Failed(t) => {
            if str_contains(t.as_str(), "closed") || str_contains(t.as_str(), "Closed") {
                ReaderAction::Stop
            } else {
                ReaderAction::KeepPolling
            }
        },
        ReceiveOutcome::TimedOut => ReaderAction::KeepPolling,
    }
}

/// What one poll of the processing queue gave.
pub enum QueueOutcome {
    /// A message from this peer.
    Item(usize, Vec<u8>),
    /// Every reader is gone and the queue is empty.
    Closed,
    /// Nothing arrived within the poll interval.
    TimedOut,
}

/// What the single message processor does next.
pub enum ProcessorAction {
    /// Hand this message from this peer to the MPC engine.
    Process(usize, Vec<u8>),
    /// Stop processing.
    Stop,
    /// Poll the queue again.
    KeepPolling,
}

/// One iteration of the message processor: stop on shutdown or when the
/// queue is closed, process each message in the order it was queued, and
/// poll again after a timeout.
pub fn processor_step(shutdown: bool, outcome: QueueOutcome) -> (a: ProcessorAction)
    ensures
        shutdown ==> a is Stop,
        !shutdown ==> match outcome {
            QueueOutcome::Item(peer, m) => a matches ProcessorAction::Process(q, f) && q == peer && f@
                == m@,
            QueueOutcome::Closed => a is Stop,
            QueueOutcome::TimedOut => a is KeepPolling,
        },
{
    if shutdown {
        return ProcessorAction::Stop;
    }
    match outcome {
        QueueOutcome::Item(peer, m) => ProcessorAction::Process(peer, m),
        QueueOutcome::Closed => ProcessorAction::Stop,
        QueueOutcome::TimedOut => ProcessorAction::KeepPolling,
    }
}

} // verus!
