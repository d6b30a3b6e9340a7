//! A server's lifecycle (`Initialized -> Starting -> Preprocessing -> Ready ->
//! Computing -> ShuttingDown -> Stopped`), its builder, counters and health.

use vstd::prelude::*;
use crate::config::PreprocessingConfig;
use crate::error::{Error, ErrorView, rview};
use crate::program::Program;
use crate::text::{concat_str, decimal, owned, usize_to_decimal};
use crate::types::{Duration, PartyId, SocketAddress};

verus! {

/// Lifecycle state of a server.
#[derive(Clone, Copy, Debug, PartialEq, Eq, Structural)]
pub enum ServerState {
    /// Built, not started.
    Initialized,
    /// Binding and connecting to peers.
    Starting,
    /// Generating preprocessing material.
    Preprocessing,
    /// Accepting computations.
    Ready,
    /// Executing a computation.
    Computing,
    /// Draining connections.
    ShuttingDown,
    /// Stopped for good.
    Stopped,
}

/// The `Debug` name of a state.
pub open spec fn state_name(s: ServerState) -> Seq<char> {
    match s {
        ServerState::Initialized => "Initialized"@,
        ServerState::Starting => "Starting"@,
        ServerState::Preprocessing => "Preprocessing"@,
        ServerState::Ready => "Ready"@,
        ServerState::Computing => "Computing"@,
        ServerState::ShuttingDown => "ShuttingDown"@,
        ServerState::Stopped => "Stopped"@,
    }
}

impl ServerState {
    /// The state's name.
    pub fn name(&self) -> (s: String)
        ensures
            s@ == state_name(*self),
    {
        match self {
            ServerState::Initialized => owned("Initialized"),
            ServerState::Starting => owned("Starting"),
            ServerState::Preprocessing => owned("Preprocessing"),
            ServerState::Ready => owned("Ready"),
            ServerState::Computing => owned("Computing"),
            ServerState::ShuttingDown => owned("ShuttingDown"),
            ServerState::Stopped => owned("Stopped"),
        }
    }
}

/// Health of a server.
#[derive(Clone, Debug, PartialEq, Eq)]
pub enum HealthStatus {
    /// All subsystems normal.
    Healthy,
    /// Operational with issues.
    Degraded { reason: String },
    /// Cannot process requests.
    Unhealthy { reason: String },
}

/// The view of a health status.
pub enum HealthView {
    Healthy,
    Degraded(Seq<char>),
    Unhealthy(Seq<char>),
}

impl View for HealthStatus {
    type V = HealthView;

    open spec fn view(&self) -> HealthView {
        match *self {
            HealthStatus::Healthy => HealthView::Healthy,
            HealthStatus::Degraded { reason } => HealthView::Degraded(reason@),
            HealthStatus::Unhealthy { reason } => HealthView::Unhealthy(reason@),
        }
    }
}

impl HealthStatus {
    /// Whether the status is `Healthy`.
    pub fn is_healthy(&self) -> (b: bool)
        ensures
            b == (*self is Healthy),
    {
        match self {
            HealthStatus::Healthy => true,
            _ => false,
        }
    }

    /// Whether requests can be processed: healthy or degraded.
    pub fn is_operational(&self) -> (b: bool)
        ensures
            b == (*self is Healthy || *self is Degraded),
    {
        match self {
            HealthStatus::Healthy | HealthStatus::Degraded { .. } => true,
            _ => false,
        }
    }
}

// ---------------------------------------------------------------------------
// ServerBuilder
// ---------------------------------------------------------------------------

/// Builder of a [`StoffelServer`].
#[derive(Debug)]
pub struct ServerBuilder {
    /// The party identifier.
    pub party_id: PartyId,
    /// The bind address, if set.
    pub bind_addr: Option<SocketAddress>,
    /// The MPC port, if set.
    pub mpc_port: Option<u16>,
    /// Known peers (party, address text).
    pub peers: Vec<(PartyId, String)>,
    /// The program, if set.
    pub program: Option<Program>,
    /// Expected clients, if set.
    pub expected_clients: Option<usize>,
    /// Preprocessing settings.
    pub preprocessing: PreprocessingConfig,
    /// Consensus timeout.
    pub consensus_timeout: Duration,
}

impl ServerBuilder {
    /// A builder for party `party_id`: no bind address or port, no peers,
    /// no program, default preprocessing and a 30-second consensus timeout.
    pub fn new(party_id: usize) -> (b: Self)
        ensures
            b.party_id == PartyId(party_id),
            b.bind_addr is None,
            b.mpc_port is None,
            b.peers@.len() == 0,
            b.program is None,
            b.expected_clients is None,
            b.preprocessing == (PreprocessingConfig {
                triples: 1000, random_shares: 500, min_triples: 100, generate_on_startup: true,
            }),
            b.consensus_timeout == Duration::from_secs_spec(30),
    {
        ServerBuilder {
            party_id: PartyId(party_id),
            bind_addr: None,
            mpc_port: None,
            peers: Vec::new(),
            program: None,
            expected_clients: None,
            preprocessing: PreprocessingConfig::default(),
            consensus_timeout: Duration::from_secs(30),
        }
    }

    /// Sets the bind address to the first address the caller's address
    /// resolved to; when it resolved to none, the bind address stays.
    pub fn bind(self, resolved: Option<SocketAddress>) -> (b: Self)
        ensures
            b.bind_addr == (match resolved { Some(a) => Some(a), None => self.bind_addr }),
            b.party_id == self.party_id, b.mpc_port == self.mpc_port, b.peers == self.peers,
            b.program == self.program, b.expected_clients == self.expected_clients,
            b.preprocessing == self.preprocessing, b.consensus_timeout == self.consensus_timeout,
    {
        let mut b = self;
        if let Some(a) = resolved {
            b.bind_addr = Some(a);
        }
        b
    }

    /// Sets the MPC port.
    pub fn mpc_port(self, port: u16) -> (b: Self)
        ensures
            b == (ServerBuilder { mpc_port: Some(port), ..self }),
    {
        ServerBuilder { mpc_port: Some(port), ..self }
    }

    /// Replaces the peers by `peers` (party, address), in order.
    pub fn with_peers(self, peers: &[(usize, &str)]) -> (b: Self)
        ensures
            b.peers@.len() == peers@.len(),
            forall|i: int| 0 <= i < peers@.len() ==> b.peers@[i].0 == PartyId(peers@[i].0)
                && b.peers@[i].1@ == peers@[i].1@,
            b.party_id == self.party_id, b.bind_addr == self.bind_addr, b.mpc_port == self.mpc_port,
            b.program == self.program, b.expected_clients == self.expected_clients,
            b.preprocessing == self.preprocessing, b.consensus_timeout == self.consensus_timeout,
    {
        let mut v: Vec<(PartyId, String)> = Vec::new();
        let mut i: usize = 0;
        while i < peers.len()
            invariant
                i <= peers@.len(),
                v@.len() == i,
                forall|k: int| 0 <= k < i ==> v@[k].0 == PartyId(peers@[k].0) && v@[k].1@ == peers@[k].1@,
            decreases peers@.len() - i,
        {
            let (id, addr) = peers[i];
            v.push((PartyId(id), owned(addr)));
            i = i + 1;
        }
        ServerBuilder { peers: v, ..self }
    }

    /// Sets the program.
    pub fn with_program(self, program: Program) -> (b: Self)
        ensures
            b == (ServerBuilder { program: Some(program), ..self }),
    {
        ServerBuilder { program: Some(program), ..self }
    }

    /// Sets the numbers of triples and random shares to generate.
    pub fn with_preprocessing(self, triples: usize, random_shares: usize) -> (b: Self)
        ensures
            b == (ServerBuilder {
                preprocessing: PreprocessingConfig { triples, random_shares, ..self.preprocessing },
                ..self
            }),
    {
        let mut b = self;
        b.preprocessing.triples = triples;
        b.preprocessing.random_shares = random_shares;
        b
    }

    /// Sets the number of expected clients.
    pub fn expected_clients(self, n: usize) -> (b: Self)
        ensures
            b == (ServerBuilder { expected_clients: Some(n), ..self }),
    {
        ServerBuilder { expected_clients: Some(n), ..self }
    }

    /// Adds the coordinator's address, kept as a peer with party identifier
    /// `usize::MAX`.
    pub fn coordinator(self, addr: &str) -> (b: Self)
        ensures
            b.peers@.len() == self.peers@.len() + 1,
            b.peers@.drop_last() == self.peers@,
            b.peers@.last().0 == PartyId(usize::MAX),
            b.peers@.last().1@ == addr@,
            b.party_id == self.party_id, b.bind_addr == self.bind_addr, b.mpc_port == self.mpc_port,
            b.program == self.program, b.expected_clients == self.expected_clients,
            b.preprocessing == self.preprocessing, b.consensus_timeout == self.consensus_timeout,
    {
        let mut b = self;
        b.peers.push((PartyId(usize::MAX), owned(addr)));
        assert(b.peers@.drop_last() =~= self.peers@);
        b
    }

    /// Sets the consensus timeout.
    pub fn consensus_timeout(self, duration: Duration) -> (b: Self)
        ensures
            b == (ServerBuilder { consensus_timeout: duration, ..self }),
    {
        ServerBuilder { consensus_timeout: duration, ..self }
    }

    /// Builds the server: `0.0.0.0:9000` and port 9100 unless set, state
    /// `Initialized`, all counters at zero. Building never fails.
    pub fn build(self) -> (r: Result<StoffelServer, Error>)
        ensures
            r matches Ok(s) && s.party_id == self.party_id
                && s.bind_addr == (match self.bind_addr {
                    Some(a) => a,
                    None => SocketAddress::V4 { ip: 0, port: 9000 },
                })
                && s.mpc_port == (match self.mpc_port { Some(p) => p, None => 9100u16 })
                && s.peers == self.peers && s.program == self.program
                && s.preprocessing == self.preprocessing
                && s.consensus_timeout == self.consensus_timeout
                && s.expected_clients == self.expected_clients
                && s.coordinator_addr is None
                && s.state == ServerState::Initialized
                && s.connected_peers == 0 && s.connected_clients == 0
                && s.computations_completed == 0,
    {
        let bind_addr = match self.bind_addr {
            Some(a) => a,
            None => SocketAddress::V4 { ip: 0, port: 9000 },
        };
        let mpc_port = match self.mpc_port {
            Some(p) => p,
            None => 9100,
        };
        Ok(StoffelServer {
            party_id: self.party_id,
            state: ServerState::Initialized,
            bind_addr,
            mpc_port,
            peers: self.peers,
            program: self.program,
            preprocessing: self.preprocessing,
            consensus_timeout: self.consensus_timeout,
            expected_clients: self.expected_clients,
            coordinator_addr: None,
            connected_peers: 0,
            connected_clients: 0,
            computations_completed: 0,
        })
    }
}

// ---------------------------------------------------------------------------
// StoffelServer
// ---------------------------------------------------------------------------

/// An MPC compute server.
#[derive(Debug)]
pub struct StoffelServer {
    /// The party identifier.
    pub party_id: PartyId,
    /// The lifecycle state.
    pub state: ServerState,
    /// The bind address.
    pub bind_addr: SocketAddress,
    /// The MPC port.
    pub mpc_port: u16,
    /// Known peers.
    pub peers: Vec<(PartyId, String)>,
    /// The program, if any.
    pub program: Option<Program>,
    /// Preprocessing settings.
    pub preprocessing: PreprocessingConfig,
    /// Consensus timeout.
    pub consensus_timeout: Duration,
    /// Expected clients, if known.
    pub expected_clients: Option<usize>,
    /// Coordinator address, if any.
    pub coordinator_addr: Option<String>,
    /// Peers connected.
    pub connected_peers: usize,
    /// Clients connected.
    pub connected_clients: usize,
    /// Computations completed.
    pub computations_completed: usize,
}

/// The message of starting a server that is not freshly built.
pub open spec fn cannot_start_text(s: ServerState) -> Seq<char> {
    "Cannot start server in state "@ + state_name(s) + " (expected Initialized)"@
}

/// A server is healthy exactly when it is ready or computing and every
/// configured peer is connected; ready or computing with fewer peers it is
/// degraded, naming how many of them are connected.
pub proof fn lemma_healthy_iff_all_peers_connected(state: ServerState, peers: usize, expected: usize)
    ensures
        health_of(state, peers, expected) is Healthy <==> ((state == ServerState::Ready || state
            == ServerState::Computing) && peers >= expected),
        ((state == ServerState::Ready || state == ServerState::Computing) && peers < expected) ==> health_of(
            state,
            peers,
            expected,
        ) == HealthView::Degraded(
            "Only "@ + decimal(peers as nat) + "/"@ + decimal(expected as nat) + " peers connected"@,
        ),
{
}

/// The health of a server in state `state` with `peers` of `expected` peers
/// connected.
pub open spec fn health_of(state: ServerState, peers: usize, expected: usize) -> HealthView {
    match state {
        ServerState::Ready | ServerState::Computing => if peers >= expected {
            HealthView::Healthy
        } else {
            HealthView::Degraded(
                "Only "@ + decimal(peers as nat) + "/"@ + decimal(expected as nat) + " peers connected"@,
            )
        },
        ServerState::Stopped | ServerState::ShuttingDown => HealthView::Unhealthy(
            "Server is in "@ + state_name(state) + " state"@,
        ),
        _ => HealthView::Degraded("Server is in "@ + state_name(state) + " state (not yet ready)"@),
    }
}

impl StoffelServer {
    /// A builder for party `party_id`.
    pub fn builder(party_id: usize) -> (b: ServerBuilder)
        ensures
            b.party_id == PartyId(party_id),
            b.bind_addr is None,
            b.peers@.len() == 0,
            b.program is None,
    {
        ServerBuilder::new(party_id)
    }

    /// The lifecycle state.
    pub fn state(&self) -> (s: ServerState)
        ensures
            s == self.state,
    {
        self.state
    }

    /// The party identifier.
    pub fn party_id(&self) -> (p: PartyId)
        ensures
            p == self.party_id,
    {
        self.party_id
    }

    /// Whether the server is `Ready`.
    pub fn ready(&self) -> (b: bool)
        ensures
            b == (self.state == ServerState::Ready),
    {
        self.state == ServerState::Ready
    }

    /// Starts a freshly built server, which passes through `Starting` and
    /// `Preprocessing` to `Ready`. Any other state is refused and stays.
    pub fn start(&mut self) -> (r: Result<(), Error>)
        ensures
            old(self).state == ServerState::Initialized ==> r is Ok
                && *final(self) == (StoffelServer { state: ServerState::Ready, ..*old(self) }),
            old(self).state != ServerState::Initialized ==> *final(self) == *old(self)
                && rview(r) == Err::<(), ErrorView>(ErrorView::Computation(cannot_start_text(old(self).state))),
    {
        if self.state != ServerState::Initialized {
            let m = concat_str(owned("Cannot start server in state "), self.state.name().as_str());
            let m = concat_str(m, " (expected Initialized)");
            return Err(Error::Computation(m));
        }
        self.state = ServerState::Starting;
        self.state = ServerState::Preprocessing;
        self.state = ServerState::Ready;
        Ok(())
    }

    /// Starts the server if it is freshly built, then fails: serving
    /// requests is not available.
    pub fn run_forever(self) -> (r: Result<(), Error>)
        ensures
            self.state == ServerState::Initialized ==> rview(r) == Err::<(), ErrorView>(
                ErrorView::Computation("run_forever: not yet implemented"@),
            ),
            self.state != ServerState::Initialized ==> rview(r) == Err::<(), ErrorView>(
                ErrorView::Computation("run_forever: not yet implemented"@),
            ),
    {
        let mut s = self;
        if s.state == ServerState::Initialized {
            let r = s.start();
            if r.is_err() {
                return r;
            }
        }
        Err(Error::Computation(owned("run_forever: not yet implemented")))
    }

    /// Shuts the server down; it passes through `ShuttingDown` to `Stopped`.
    pub fn shutdown(self) -> (r: Result<(), Error>)
        ensures
            r is Ok,
    {
        let mut s = self;
        s.state = ServerState::ShuttingDown;
        s.state = ServerState::Stopped;
        Ok(())
    }

    /// Peers connected.
    pub fn connected_peers(&self) -> (n: usize)
        ensures
            n == self.connected_peers,
    {
        self.connected_peers
    }

    /// Clients connected.
    pub fn connected_clients(&self) -> (n: usize)
        ensures
            n == self.connected_clients,
    {
        self.connected_clients
    }

    /// Computations completed.
    pub fn computations_completed(&self) -> (n: usize)
        ensures
            n == self.computations_completed,
    {
        self.computations_completed
    }

    /// The health: healthy when ready or computing with every known peer
    /// connected, degraded when some peer is missing or the server is not
    /// ready yet, unhealthy when shutting down or stopped.
    pub fn health(&self) -> (h: HealthStatus)
        ensures
            h@ == health_of(self.state, self.connected_peers, self.peers@.len() as usize),
            h is Healthy <==> ((self.state == ServerState::Ready || self.state == ServerState::Computing)
                && self.connected_peers >= self.peers@.len()),
    {
        match self.state {
            ServerState::Ready | ServerState::Computing => {
                let peers = self.connected_peers;
                let expected = self.peers.len();
                if peers >= expected {
                    HealthStatus::Healthy
                } else {
                    let m = concat_str(owned("Only "), usize_to_decimal(peers).as_str());
                    let m = concat_str(concat_str(m, "/"), usize_to_decimal(expected).as_str());
                    let m = concat_str(m, " peers connected");
                    assert(m@ =~= "Only "@ + decimal(peers as nat) + "/"@ + decimal(expected as nat)
                        + " peers connected"@);
                    HealthStatus::Degraded { reason: m }
                }
            },
            ServerState::Stopped | ServerState::ShuttingDown => {
                let m = concat_str(concat_str(owned("Server is in "), self.state.name().as_str()), " state");
                HealthStatus::Unhealthy { reason: m }
            },
            other => {
                let m = concat_str(concat_str(owned("Server is in "), other.name().as_str()), " state (not yet ready)");
                HealthStatus::Degraded { reason: m }
            },
        }
    }
}

} // verus!
