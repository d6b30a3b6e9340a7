//! The decisions of an MPC-as-a-service client: its builder, the handshake
//! with the servers, and the progress of one computation as server messages
//! arrive.
//!
//! The connections and the share arithmetic are the caller's; each function
//! here takes what arrived and says what to do next.

use vstd::prelude::*;
use crate::error::{duration_debug, duration_text, Error, ErrorView, NetworkError, rview};
use crate::mpcaas::protocol::ErrorCode;
use crate::text::{concat_str, decimal, owned, str_contains_char, usize_to_decimal};
use crate::types::{unix_time, Duration, SocketAddress};

verus! {

/// State of an MPC-as-a-service client.
#[derive(Clone, Copy, Debug, PartialEq, Eq, Structural)]
pub enum ClientState {
    /// Connected and ready to submit inputs.
    Connected,
    /// Submitting inputs to the servers.
    Submitting,
    /// Waiting for the result.
    Computing,
    /// Disconnected.
    Disconnected,
}

/// The display text of a client state.
pub open spec fn client_state_text(s: ClientState) -> Seq<char> {
    match s {
        ClientState::Connected => "Connected"@,
        ClientState::Submitting => "Submitting"@,
        ClientState::Computing => "Computing"@,
        ClientState::Disconnected => "Disconnected"@,
    }
}

impl ClientState {
    /// The display text of the state.
    pub fn to_text(&self) -> (s: String)
        ensures
            s@ == client_state_text(*self),
    {
        match self {
            ClientState::Connected => owned("Connected"),
            ClientState::Submitting => owned("Submitting"),
            ClientState::Computing => owned("Computing"),
            ClientState::Disconnected => owned("Disconnected"),
        }
    }
}

/// The port added to a server address that has none.
pub open spec fn default_server_port_text() -> Seq<char> {
    ":19200"@
}

/// A server address with the default port added when it names none (when
/// it holds no `:`).
pub open spec fn with_default_port(addr: Seq<char>) -> Seq<char> {
    if addr.contains(':') {
        addr
    } else {
        addr + default_server_port_text()
    }
}

/// Builder of a client: the servers to connect to and the timeouts.
pub struct StoffelClientBuilder {
    /// Server addresses, in order.
    pub servers: Vec<String>,
    /// The client id, when chosen.
    pub client_id: Option<usize>,
    /// How long to wait for each server's greeting.
    pub connection_timeout: Duration,
    /// How long a computation may take.
    pub computation_timeout: Duration,
}

impl StoffelClientBuilder {
    /// No servers, no client id, 10 s to connect and 60 s to compute.
    pub fn new() -> (b: Self)
        ensures
            b.servers@.len() == 0,
            b.client_id is None,
            b.connection_timeout == Duration::from_secs_spec(10),
            b.computation_timeout == Duration::from_secs_spec(60),
    {
        StoffelClientBuilder {
            servers: Vec::new(),
            client_id: None,
            connection_timeout: Duration::from_secs(10),
            computation_timeout: Duration::from_secs(60),
        }
    }

    /// Adds one server address after those already there.
    pub fn add_server(self, address: &str) -> (b: Self)
        ensures
            b.servers@.len() == self.servers@.len() + 1,
            forall|i: int| 0 <= i < self.servers@.len() ==> b.servers@[i] == self.servers@[i],
            b.servers@[self.servers@.len() as int]@ == address@,
            b.client_id == self.client_id,
            b.connection_timeout == self.connection_timeout,
            b.computation_timeout == self.computation_timeout,
    {
        let mut b = self;
        b.servers.push(owned(address));
        b
    }

    /// Replaces the server addresses with these, in order.
    pub fn with_servers(self, servers: &[&str]) -> (b: Self)
        ensures
            b.servers@.len() == servers@.len(),
            forall|i: int| 0 <= i < servers@.len() ==> #[trigger] b.servers@[i]@ == servers@[i]@,
            b.client_id == self.client_id,
            b.connection_timeout == self.connection_timeout,
            b.computation_timeout == self.computation_timeout,
    {
        let mut v: Vec<String> = Vec::new();
        let mut i: usize = 0;
        while i < servers.len()
            invariant
                i <= servers@.len(),
                v@.len() == i,
                forall|j: int| 0 <= j < i ==> #[trigger] v@[j]@ == servers@[j]@,
            decreases servers@.len() - i,
        {
            v.push(owned(servers[i]));
            i = i + 1;
        }
        StoffelClientBuilder { servers: v, ..self }
    }

    /// Chooses the client id.
    pub fn client_id(self, id: usize) -> (b: Self)
        ensures
            b.servers == self.servers,
            b.client_id == Some(id),
            b.connection_timeout == self.connection_timeout,
            b.computation_timeout == self.computation_timeout,
    {
        StoffelClientBuilder { client_id: Some(id), ..self }
    }

    /// Sets the connection timeout.
    pub fn connection_timeout(self, timeout: Duration) -> (b: Self)
        ensures
            b.servers == self.servers,
            b.client_id == self.client_id,
            b.connection_timeout == timeout,
            b.computation_timeout == self.computation_timeout,
    {
        StoffelClientBuilder { connection_timeout: timeout, ..self }
    }

    /// Sets the computation timeout.
    pub fn computation_timeout(self, timeout: Duration) -> (b: Self)
        ensures
            b.servers == self.servers,
            b.client_id == self.client_id,
            b.connection_timeout == self.connection_timeout,
            b.computation_timeout == timeout,
    {
        StoffelClientBuilder { computation_timeout: timeout, ..self }
    }

    /// The addresses to connect to, each with the default port added when it
    /// has none; an error when no server was named.
    pub fn server_addresses(&self) -> (r: Result<Vec<String>, Error>)
        ensures
            self.servers@.len() == 0 <==> r is Err,
            r is Err ==> rview(r) == Err::<Vec<String>, ErrorView>(
                ErrorView::InvalidInput("No server addresses provided"@),
            ),
            r matches Ok(v) ==> v@.len() == self.servers@.len() && forall|i: int|
                0 <= i < v@.len() ==> #[trigger] v@[i]@ == with_default_port(self.servers@[i]@),
    {
        if self.servers.len() == 0 {
            return Err(Error::InvalidInput(owned("No server addresses provided")));
        }
        let mut v: Vec<String> = Vec::new();
        let mut i: usize = 0;
        while i < self.servers.len()
            invariant
                i <= self.servers@.len(),
                v@.len() == i,
                forall|j: int| 0 <= j < i ==> #[trigger] v@[j]@ == with_default_port(self.servers@[j]@),
            decreases self.servers@.len() - i,
        {
            let a = self.servers[i].as_str();
            if str_contains_char(a, ':') {
                v.push(owned(a));
            } else {
                v.push(concat_str(owned(a), ":19200"));
            }
            i = i + 1;
        }
        Ok(v)
    }

    /// The socket addresses of the servers, from what reading each address
    /// of [`StoffelClientBuilder::server_addresses`] gave: a socket address
    /// (a literal one, or the first one a host name such as `localhost`
    /// resolves to), or `None` when it names none. Every address that was
    /// read is accepted; the first one that was not is an invalid-input error
    /// naming the address as it was given.
    pub fn parsed_server_addresses(&self, parsed: &[Option<SocketAddress>]) -> (r: Result<
        Vec<SocketAddress>,
        Error,
    >)
        requires
            parsed@.len() == self.servers@.len(),
        ensures
            r is Ok <==> forall|i: int| 0 <= i < parsed@.len() ==> #[trigger] parsed@[i] is Some,
            r matches Ok(v) ==> v@.len() == parsed@.len() && forall|i: int| 0 <= i < v@.len() ==> Some(
                #[trigger] v@[i],
            ) == parsed@[i],
            r is Err ==> exists|i: int| {
                &&& 0 <= i < parsed@.len()
                &&& #[trigger] parsed@[i] is None
                &&& forall|j: int| 0 <= j < i ==> parsed@[j] is Some
                &&& rview(r) == Err::<Vec<SocketAddress>, ErrorView>(
                    ErrorView::InvalidInput(invalid_server_text(self.servers@[i]@)),
                )
            },
    {
        let mut v: Vec<SocketAddress> = Vec::new();
        let mut i: usize = 0;
        while i < parsed.len()
            invariant
                i <= parsed@.len(),
                parsed@.len() == self.servers@.len(),
                v@.len() == i,
                forall|j: int| 0 <= j < i ==> Some(#[trigger] v@[j]) == parsed@[j],
            decreases parsed@.len() - i,
        {
            match parsed[i] {
                Some(a) => {
                    v.push(a);
                },
                None => {
                    let m = concat_str(owned("Invalid server address '"), self.servers[i].as_str());
                    let m = concat_str(m, "': invalid socket address syntax");
                    let r: Result<Vec<SocketAddress>, Error> = Err(Error::InvalidInput(m));
                    assert(parsed@[i as int] is None);
                    assert(forall|j: int| 0 <= j < i ==> parsed@[j] is Some) by {
                        assert forall|j: int| 0 <= j < i implies parsed@[j] is Some by {
                            assert(Some(v@[j]) == parsed@[j]);
                        }
                    }
                    return r;
                },
            }
            i = i + 1;
        }
        assert forall|j: int| 0 <= j < parsed@.len() implies #[trigger] parsed@[j] is Some by {
            assert(Some(v@[j]) == parsed@[j]);
        }
        Ok(v)
    }

    /// The client id: the one chosen, else one made from the current time
    /// (see [`generated_client_id`]).
    pub fn resolved_client_id(&self) -> (id: usize)
        ensures
            self.client_id matches Some(c) ==> id == c,
            self.client_id is None ==> 1000 <= id < 1_001_000,
    {
        match self.client_id {
            Some(c) => c,
            None => {
                let nanos: Option<u128> = match unix_time() {
                    Some((secs, sub)) => Some(secs as u128 * 1_000_000_000 + sub as u128),
                    None => None,
                };
                generated_client_id(nanos)
            },
        }
    }
}

impl Default for StoffelClientBuilder {
    fn default() -> (b: Self)
        ensures
            b.servers@.len() == 0,
            b.client_id is None,
            b.connection_timeout == Duration::from_secs_spec(10),
            b.computation_timeout == Duration::from_secs_spec(60),
    {
        StoffelClientBuilder::new()
    }
}

/// A client id made from the time in nanoseconds since the Unix epoch: its
/// remainder modulo one million, plus 1000; 1000 when the time is unknown.
pub fn generated_client_id(nanos: Option<u128>) -> (id: usize)
    ensures
        id == (match nanos {
            Some(n) => (n % 1_000_000) + 1000,
            None => 1000,
        }),
        1000 <= id < 1_001_000,
{
    match nanos {
        Some(n) => ((n % 1_000_000) as usize) + 1000,
        None => 1000,
    }
}

/// The message for a server address that is not a socket address.
pub open spec fn invalid_server_text(addr: Seq<char>) -> Seq<char> {
    "Invalid server address '"@ + addr + "': invalid socket address syntax"@
}

/// The message for servers that disagree on the parameters.
pub open spec fn inconsistent_servers_text(
    prev_n: usize,
    prev_t: usize,
    party_id: usize,
    n: usize,
    t: usize,
) -> Seq<char> {
    "Inconsistent server configuration: expected n="@ + decimal(prev_n as nat) + ", t="@ + decimal(
        prev_t as nat,
    ) + ", but server "@ + decimal(party_id as nat) + " has n="@ + decimal(n as nat) + ", t="@
        + decimal(t as nat)
}

/// Takes a server's greeting (`n` parties, threshold `t`, from `party_id`)
/// into the parameters agreed so far: the first greeting sets them, later
/// ones must repeat them.
pub fn record_server_info(
    agreed: Option<(usize, usize)>,
    n: usize,
    t: usize,
    party_id: usize,
) -> (r: Result<(usize, usize), Error>)
    ensures
        match agreed {
            None => r == Ok::<(usize, usize), Error>((n, t)),
            Some((pn, pt)) => if pn == n && pt == t {
                r == Ok::<(usize, usize), Error>((pn, pt))
            } else {
                rview(r) == Err::<(usize, usize), ErrorView>(
                    ErrorView::Configuration(inconsistent_servers_text(pn, pt, party_id, n, t)),
                )
            },
        },
{
    match agreed {
        None => Ok((n, t)),
        Some((pn, pt)) => {
            if pn == n && pt == t {
                Ok((pn, pt))
            } else {
                let m = concat_str(
                    owned("Inconsistent server configuration: expected n="),
                    usize_to_decimal(pn).as_str(),
                );
                let m = concat_str(concat_str(m, ", t="), usize_to_decimal(pt).as_str());
                let m = concat_str(concat_str(m, ", but server "), usize_to_decimal(party_id).as_str());
                let m = concat_str(concat_str(m, " has n="), usize_to_decimal(n).as_str());
                let m = concat_str(concat_str(m, ", t="), usize_to_decimal(t).as_str());
                assert(m@ =~= inconsistent_servers_text(pn, pt, party_id, n, t));
                Err(Error::Configuration(m))
            }
        },
    }
}

/// The parameters after all greetings: an error when none arrived.
pub fn finish_handshake(agreed: Option<(usize, usize)>) -> (r: Result<(usize, usize), Error>)
    ensures
        match agreed {
            Some(p) => r == Ok::<(usize, usize), Error>(p),
            None => r matches Err(Error::Network(NetworkError::Message(m))) && m@
                == "No ServerInfo received from any server"@,
        },
{
    match agreed {
        Some(p) => Ok(p),
        None => Err(Error::Network(NetworkError::Message(owned("No ServerInfo received from any server")))),
    }
}

/// The `Debug` name of an error code.
pub open spec fn error_code_name(c: ErrorCode) -> Seq<char> {
    match c {
        ErrorCode::InvalidMessage => "InvalidMessage"@,
        ErrorCode::ConfigurationMismatch => "ConfigurationMismatch"@,
        ErrorCode::TooManyClients => "TooManyClients"@,
        ErrorCode::NotReady => "NotReady"@,
        ErrorCode::Timeout => "Timeout"@,
        ErrorCode::InternalError => "InternalError"@,
        ErrorCode::ClientDisconnected => "ClientDisconnected"@,
        ErrorCode::PreprocessingExhausted => "PreprocessingExhausted"@,
    }
}

/// The `Debug` name of an error code.
pub fn error_code_text(c: ErrorCode) -> (s: String)
    ensures
        s@ == error_code_name(c),
{
    match c {
        ErrorCode::InvalidMessage => owned("InvalidMessage"),
        ErrorCode::ConfigurationMismatch => owned("ConfigurationMismatch"),
        ErrorCode::TooManyClients => owned("TooManyClients"),
        ErrorCode::NotReady => owned("NotReady"),
        ErrorCode::Timeout => owned("Timeout"),
        ErrorCode::InternalError => owned("InternalError"),
        ErrorCode::ClientDisconnected => owned("ClientDisconnected"),
        ErrorCode::PreprocessingExhausted => owned("PreprocessingExhausted"),
    }
}

/// What arrived from a server during a computation, as far as the client's
/// decisions go.
pub enum ServerEvent {
    /// The computation finished.
    ComputationComplete { session_id: u64 },
    /// Mask shares for the client's inputs, from server `sender`.
    MaskShares { sender: usize },
    /// Output shares, from server `sender`.
    OutputShares { sender: usize },
    /// Server number `server` (in connection order) reported an error.
    ServerError { server: usize, code: ErrorCode, message: String },
    /// Anything else: nothing to do.
    Other,
}

/// What the client does after an event.
#[derive(Debug)]
pub enum ClientStep {
    /// Keep polling.
    Continue,
    /// Enough output shares: reconstruct the result from them.
    ReconstructOutput,
    /// Too few output shares: the inputs are handed back as the result.
    ReturnInputs,
    /// Stop with this error.
    Fail(Error),
}

/// The message of a server's error report.
pub open spec fn server_error_text(server: usize, code: ErrorCode, message: Seq<char>) -> Seq<char> {
    "Server "@ + decimal(server as nat) + " error: "@ + error_code_name(code) + " - "@ + message
}

/// The message when the computation runs out of time.
pub open spec fn computation_timeout_text(timeout: Duration, masks: nat, outputs: nat, required: nat) -> Seq<char> {
    "MPC computation timed out after "@ + duration_text(timeout.total_nanos()) + " (received "@
        + decimal(masks) + "/"@ + decimal(required) + " MaskShares, "@ + decimal(outputs) + "/"@
        + decimal(required) + " OutputShares)"@
}

/// Records `s` in a list of distinct values.
fn insert_distinct(v: &mut Vec<usize>, s: usize)
    requires
        old(v)@.no_duplicates(),
    ensures
        final(v)@.no_duplicates(),
        final(v)@.to_set() == old(v)@.to_set().insert(s),
        final(v)@.len() == (if old(v)@.contains(s) { old(v)@.len() } else { old(v)@.len() + 1 }),
{
    let mut i: usize = 0;
    while i < v.len()
        invariant
            i <= v@.len(),
            v@ == old(v)@,
            old(v)@.no_duplicates(),
            forall|j: int| 0 <= j < i ==> v@[j] != s,
        decreases v@.len() - i,
    {
        if v[i] == s {
            proof {
                assert(v@.to_set().insert(s) =~= v@.to_set());
            }
            return;
        }
        i = i + 1;
    }
    proof {
        assert(!v@.contains(s));
    }
    let ghost before = v@;
    v.push(s);
    proof {
        assert(v@ == before.push(s));
        assert(v@.to_set() =~= before.to_set().insert(s)) by {
            assert forall|x: usize| v@.to_set().contains(x) <==> before.to_set().insert(s).contains(x) by {
                if x == s {
                    assert(v@[before.len() as int] == s);
                } else if before.contains(x) {
                    let k = choose|k: int| 0 <= k < before.len() && before[k] == x;
                    assert(v@[k] == x);
                } else if v@.contains(x) {
                    let k = choose|k: int| 0 <= k < v@.len() && v@[k] == x;
                    assert(k < before.len());
                }
            }
        }
    }
}

/// Progress of one computation on the client's side: which servers sent mask
/// shares and output shares, and whether the masked inputs went out.
pub struct ComputationProgress {
    threshold: usize,
    mask_senders: Vec<usize>,
    output_senders: Vec<usize>,
    masked_input_sent: bool,
}

impl ComputationProgress {
    /// The servers whose mask shares arrived.
    pub closed spec fn mask_set(&self) -> Set<usize> {
        self.mask_senders@.to_set()
    }

    /// The servers whose output shares arrived.
    pub closed spec fn output_set(&self) -> Set<usize> {
        self.output_senders@.to_set()
    }

    /// Whether the masked inputs went out.
    pub closed spec fn sent(&self) -> bool {
        self.masked_input_sent
    }

    /// The number of shares needed to reconstruct: `2t + 1`.
    pub closed spec fn required(&self) -> nat {
        2 * self.threshold as nat + 1
    }

    /// The threshold of the network.
    pub closed spec fn threshold_spec(&self) -> usize {
        self.threshold
    }

    /// The counts agree with the sets: each server is counted once.
    pub closed spec fn wf(&self) -> bool {
        &&& self.mask_senders@.no_duplicates()
        &&& self.output_senders@.no_duplicates()
        &&& 2 * self.threshold + 1 <= usize::MAX
    }

    /// The number of servers whose mask shares arrived.
    pub closed spec fn mask_count(&self) -> nat {
        self.mask_senders@.len()
    }

    /// The number of servers whose output shares arrived.
    pub closed spec fn output_count(&self) -> nat {
        self.output_senders@.len()
    }

    /// Reconstruction and the masked inputs both wait for shares from
    /// `2t + 1` distinct servers, `t` being the network's threshold.
    pub proof fn lemma_required_is_two_t_plus_one(&self)
        ensures
            self.required() == 2 * self.threshold_spec() + 1,
    {
    }

    /// Each count is the size of its set.
    pub proof fn lemma_counts_are_set_sizes(&self)
        requires
            self.wf(),
        ensures
            self.mask_count() == self.mask_set().len(),
            self.output_count() == self.output_set().len(),
    {
        self.mask_senders@.unique_seq_to_set();
        self.output_senders@.unique_seq_to_set();
    }

    /// Nothing received yet, for a network of threshold `threshold`.
    pub fn new(threshold: usize) -> (p: Self)
        requires
            2 * threshold + 1 <= usize::MAX,
        ensures
            p.wf(),
            p.threshold_spec() == threshold,
            p.mask_set() == Set::<usize>::empty(),
            p.output_set() == Set::<usize>::empty(),
            p.mask_count() == 0,
            p.output_count() == 0,
            !p.sent(),
    {
        let p = ComputationProgress {
            threshold,
            mask_senders: Vec::new(),
            output_senders: Vec::new(),
            masked_input_sent: false,
        };
        assert(p.mask_senders@.to_set() =~= Set::<usize>::empty());
        assert(p.output_senders@.to_set() =~= Set::<usize>::empty());
        p
    }

    /// Number of shares needed: `2t + 1`.
    pub fn required_shares(&self) -> (n: usize)
        requires
            self.wf(),
        ensures
            n == self.required(),
            n == 2 * self.threshold_spec() + 1,
    {
        2 * self.threshold + 1
    }

    /// Takes one event: shares are recorded per server (a server counts
    /// once however often it sends); completion reconstructs when `2t + 1`
    /// output shares are there and hands the inputs back otherwise; a
    /// server's error ends the computation.
    pub fn on_event(&mut self, event: ServerEvent) -> (step: ClientStep)
        requires
            old(self).wf(),
        ensures
            final(self).wf(),
            final(self).threshold_spec() == old(self).threshold_spec(),
            final(self).sent() == old(self).sent(),
            match event {
                ServerEvent::ComputationComplete { .. } => {
                    &&& final(self).mask_set() == old(self).mask_set()
                    &&& final(self).output_set() == old(self).output_set()
                    &&& final(self).mask_count() == old(self).mask_count()
                    &&& final(self).output_count() == old(self).output_count()
                    &&& if old(self).output_count() >= 2 * old(self).threshold_spec() + 1 {
                        step is ReconstructOutput
                    } else {
                        step is ReturnInputs
                    }
                },
                ServerEvent::MaskShares { sender } => {
                    &&& final(self).mask_set() == old(self).mask_set().insert(sender)
                    &&& final(self).output_set() == old(self).output_set()
                    &&& final(self).output_count() == old(self).output_count()
                    &&& step is Continue
                },
                ServerEvent::OutputShares { sender } => {
                    &&& final(self).output_set() == old(self).output_set().insert(sender)
                    &&& final(self).mask_set() == old(self).mask_set()
                    &&& final(self).mask_count() == old(self).mask_count()
                    &&& step is Continue
                },
                ServerEvent::ServerError { server, code, message } => {
                    &&& final(self).mask_set() == old(self).mask_set()
                    &&& final(self).output_set() == old(self).output_set()
                    &&& final(self).mask_count() == old(self).mask_count()
                    &&& final(self).output_count() == old(self).output_count()
                    &&& step matches ClientStep::Fail(e) && e matches Error::Computation(m)
                        && m@ == server_error_text(server, code, message@)
                },
                ServerEvent::Other => {
                    &&& final(self).mask_set() == old(self).mask_set()
                    &&& final(self).output_set() == old(self).output_set()
                    &&& final(self).mask_count() == old(self).mask_count()
                    &&& final(self).output_count() == old(self).output_count()
                    &&& step is Continue
                },
            },
    {
        match event {
            ServerEvent::ComputationComplete { .. } => {
                if self.output_senders.len() >= 2 * self.threshold + 1 {
                    ClientStep::ReconstructOutput
                } else {
                    ClientStep::ReturnInputs
                }
            },
            ServerEvent::MaskShares { sender } => {
                insert_distinct(&mut self.mask_senders, sender);
                ClientStep::Continue
            },
            ServerEvent::OutputShares { sender } => {
                insert_distinct(&mut self.output_senders, sender);
                ClientStep::Continue
            },
            ServerEvent::ServerError { server, code, message } => {
                let m = concat_str(owned("Server "), usize_to_decimal(server).as_str());
                let m = concat_str(concat_str(m, " error: "), error_code_text(code).as_str());
                let m = concat_str(concat_str(m, " - "), message.as_str());
                assert(m@ =~= server_error_text(server, code, message@));
                ClientStep::Fail(Error::Computation(m))
            },
            ServerEvent::Other => ClientStep::Continue,
        }
    }

    /// Whether the masked inputs are due: not sent yet, and mask shares from
    /// `2t + 1` servers are there.
    pub fn masked_input_due(&self) -> (b: bool)
        requires
            self.wf(),
        ensures
            b == (!self.sent() && self.mask_count() >= self.required()),
            b == (!self.sent() && self.mask_count() >= 2 * self.threshold_spec() + 1),
    {
        !self.masked_input_sent && self.mask_senders.len() >= 2 * self.threshold + 1
    }

    /// Records that the masked inputs went out.
    pub fn mark_masked_input_sent(&mut self)
        requires
            old(self).wf(),
        ensures
            final(self).wf(),
            final(self).sent(),
            final(self).threshold_spec() == old(self).threshold_spec(),
            final(self).mask_set() == old(self).mask_set(),
            final(self).output_set() == old(self).output_set(),
            final(self).mask_count() == old(self).mask_count(),
            final(self).output_count() == old(self).output_count(),
    {
        self.masked_input_sent = true;
    }

    /// The error to stop with when `elapsed` exceeds `timeout`, naming how
    /// many shares of each kind arrived; `None` while there is time.
    pub fn check_timeout(&self, elapsed: &Duration, timeout: &Duration) -> (r: Option<Error>)
        requires
            self.wf(),
        ensures
            timeout.total_nanos() < elapsed.total_nanos() ==> (r matches Some(Error::Runtime(m)) && m@
                == computation_timeout_text(*timeout, self.mask_count(), self.output_count(), self.required())),
            elapsed.total_nanos() <= timeout.total_nanos() ==> r is None,
    {
        if timeout.shorter_than(elapsed) {
            let req = usize_to_decimal(2 * self.threshold + 1);
            let m = concat_str(owned("MPC computation timed out after "), duration_debug(timeout).as_str());
            let m = concat_str(concat_str(m, " (received "), usize_to_decimal(self.mask_senders.len()).as_str());
            let m = concat_str(concat_str(m, "/"), req.as_str());
            let m = concat_str(concat_str(m, " MaskShares, "), usize_to_decimal(self.output_senders.len()).as_str());
            let m = concat_str(concat_str(m, "/"), req.as_str());
            let m = concat_str(m, " OutputShares)");
            assert(m@ =~= computation_timeout_text(*timeout, self.mask_count(), self.output_count(), self.required()));
            Some(Error::Runtime(m))
        } else {
            None
        }
    }
}

} // verus!
