//! The client side of a computation: a builder that checks its server list,
//! the client's lifecycle states and the handle of a submitted computation.

use vstd::prelude::*;
use crate::error::{Error, ErrorView, RetryLimits, rview};
use crate::text::owned;
use crate::types::{ClientId, ComputationId, Duration, Value};

verus! {

/// Lifecycle of a client.
#[derive(Clone, Copy, Debug, PartialEq, Eq, Structural)]
pub enum ClientState {
    Disconnected,
    Connecting,
    Connected,
    AwaitingConsensus,
    Ready,
    Computing,
}

/// Builder for a [`StoffelClient`].
pub struct ClientBuilder {
    /// Server addresses, in the order they were added.
    pub servers: Vec<String>,
    /// The client id, when one was chosen.
    pub client_id: Option<ClientId>,
    /// How long to wait for the servers.
    pub timeout: Duration,
    /// How often, and with what pauses, transient failures are retried.
    pub retry: RetryLimits,
}

/// The message of the error given when no server was named.
pub open spec fn no_server_text() -> Seq<char> {
    "at least one server address is required"@
}

/// The message of the error given by operations not available yet.
pub open spec fn not_implemented_text() -> Seq<char> {
    "not yet implemented"@
}

impl ClientBuilder {
    /// A builder with no servers, no client id, a 30 second timeout and the
    /// default retry limits (3 attempts, see [`RetryLimits::exponential_backoff`]).
    pub fn new() -> (b: Self)
        ensures
            b.servers@.len() == 0,
            b.client_id.is_none(),
            b.timeout == Duration::from_secs_spec(30),
            b.retry.max_attempts == 3,
            b.retry.initial_delay == Duration::from_millis_spec(100),
            b.retry.max_delay == Duration::from_secs_spec(30),
    {
        ClientBuilder {
            servers: Vec::new(),
            client_id: None,
            timeout: Duration::from_secs(30),
            retry: RetryLimits::exponential_backoff(3),
        }
    }

    /// Adds one server address.
    pub fn server(self, addr: &str) -> (b: Self)
        ensures
            b.servers@.len() == self.servers@.len() + 1,
            forall|i: int| 0 <= i < self.servers@.len() ==> b.servers@[i] == self.servers@[i],
            b.servers@[self.servers@.len() as int]@ == addr@,
            b.client_id == self.client_id,
            b.timeout == self.timeout,
            b.retry == self.retry,
    {
        let mut b = self;
        b.servers.push(owned(addr));
        b
    }

    /// Adds several server addresses, in order, after those already there.
    pub fn servers(self, addrs: &[&str]) -> (b: Self)
        ensures
            b.servers@.len() == self.servers@.len() + addrs@.len(),
            forall|i: int| 0 <= i < self.servers@.len() ==> b.servers@[i] == self.servers@[i],
            forall|j: int|
                0 <= j < addrs@.len() ==> #[trigger] b.servers@[self.servers@.len() + j]@
                    == addrs@[j]@,
            b.client_id == self.client_id,
            b.timeout == self.timeout,
            b.retry == self.retry,
    {
        let mut b = self;
        let n = b.servers.len();
        for k in 0..addrs.len()
            invariant
                b.servers@.len() == n + k,
                n == self.servers@.len(),
                forall|i: int| 0 <= i < n ==> b.servers@[i] == self.servers@[i],
                forall|j: int| 0 <= j < k ==> #[trigger] b.servers@[n + j]@ == addrs@[j]@,
                b.client_id == self.client_id,
                b.timeout == self.timeout,
                b.retry == self.retry,
        {
            b.servers.push(owned(addrs[k]));
        }
        b
    }

    /// Chooses the client id.
    pub fn client_id(self, id: ClientId) -> (b: Self)
        ensures
            b.servers == self.servers,
            b.client_id == Some(id),
            b.timeout == self.timeout,
            b.retry == self.retry,
    {
        let mut b = self;
        b.client_id = Some(id);
        b
    }

    /// Sets the timeout.
    pub fn timeout(self, duration: Duration) -> (b: Self)
        ensures
            b.servers == self.servers,
            b.client_id == self.client_id,
            b.timeout == duration,
            b.retry == self.retry,
    {
        let mut b = self;
        b.timeout = duration;
        b
    }

    /// Sets the retry limits for transient failures.
    pub fn retry(self, limits: RetryLimits) -> (b: Self)
        ensures
            b.servers == self.servers,
            b.client_id == self.client_id,
            b.timeout == self.timeout,
            b.retry == limits,
    {
        let mut b = self;
        b.retry = limits;
        b
    }

    /// Connects: fails with a configuration error when no server was named,
    /// else gives a ready client with the chosen id, or id 0.
    pub fn connect(self) -> (r: Result<StoffelClient, Error>)
        ensures
            self.servers@.len() == 0 <==> r.is_err(),
            r.is_err() ==> rview(r) == Err::<StoffelClient, ErrorView>(
                ErrorView::Configuration(no_server_text()),
            ),
            r matches Ok(c) ==> c.state() == ClientState::Ready && c.client_id() == (match self.client_id {
                Some(id) => id,
                None => ClientId(0),
            }) && c.servers() == self.servers@,
    {
        if self.servers.len() == 0 {
            return Err(Error::Configuration(owned("at least one server address is required")));
        }
        let client_id = match self.client_id {
            Some(id) => id,
            None => ClientId(0),
        };
        Ok(StoffelClient { client_id, state: ClientState::Ready, servers: self.servers })
    }
}

impl Default for ClientBuilder {
    fn default() -> (b: Self)
        ensures
            b.servers@.len() == 0,
            b.client_id.is_none(),
            b.timeout == Duration::from_secs_spec(30),
            b.retry.max_attempts == 3,
    {
        ClientBuilder::new()
    }
}

/// A client connected to the servers of an MPC network.
pub struct StoffelClient {
    client_id: ClientId,
    state: ClientState,
    servers: Vec<String>,
}

impl StoffelClient {
    /// The state of the client.
    pub closed spec fn state_spec(&self) -> ClientState {
        self.state
    }

    /// The id of the client.
    pub closed spec fn client_id_spec(&self) -> ClientId {
        self.client_id
    }

    /// The servers the client was built with.
    pub closed spec fn servers(&self) -> Seq<String> {
        self.servers@
    }

    /// A builder for a client.
    pub fn builder() -> (b: ClientBuilder)
        ensures
            b.servers@.len() == 0,
            b.client_id.is_none(),
            b.timeout == Duration::from_secs_spec(30),
            b.retry.max_attempts == 3,
    {
        ClientBuilder::new()
    }

    /// The state of the client.
    #[verifier::when_used_as_spec(state_spec)]
    pub fn state(&self) -> (s: ClientState)
        ensures
            s == self.state_spec(),
    {
        self.state
    }

    /// The id of the client.
    #[verifier::when_used_as_spec(client_id_spec)]
    pub fn client_id(&self) -> (id: ClientId)
        ensures
            id == self.client_id_spec(),
    {
        self.client_id
    }

    /// Whether the client is ready to submit.
    pub fn is_ready(&self) -> (r: bool)
        ensures
            r == (self.state() == ClientState::Ready),
    {
        self.state == ClientState::Ready
    }

    /// Submits inputs and waits for the result; submission is not available
    /// yet, so this gives its error.
    pub fn run(&self, inputs: &[i64]) -> (r: Result<Vec<Value>, Error>)
        ensures
            rview(r) == Err::<Vec<Value>, ErrorView>(ErrorView::Computation(not_implemented_text())),
    {
        match self.submit(inputs) {
            Ok(handle) => handle.await_result(),
            Err(e) => Err(e),
        }
    }

    /// Runs a named function of the program on the inputs; as [`Self::run`].
    pub fn run_function(&self, name: &str, inputs: &[i64]) -> (r: Result<Vec<Value>, Error>)
        ensures
            rview(r) == Err::<Vec<Value>, ErrorView>(ErrorView::Computation(not_implemented_text())),
    {
        self.run(inputs)
    }

    /// Submits inputs without waiting; not available yet, so this gives its
    /// error.
    pub fn submit(&self, inputs: &[i64]) -> (r: Result<ComputationHandle, Error>)
        ensures
            rview(r) == Err::<ComputationHandle, ErrorView>(
                ErrorView::Computation(not_implemented_text()),
            ),
    {
        Err(Error::Computation(owned("not yet implemented")))
    }

    /// Disconnects from the servers.
    pub fn disconnect(self) -> (r: Result<(), Error>)
        ensures
            r.is_ok(),
    {
        Ok(())
    }
}

/// Status of a submitted computation.
#[derive(Clone, Copy, Debug, PartialEq, Eq, Structural)]
pub enum ComputationStatus {
    Pending,
    InputsSubmitted,
    Computing,
    Completed,
    Failed,
    Cancelled,
}

/// Handle of a submitted computation.
pub struct ComputationHandle {
    computation_id: ComputationId,
    status: ComputationStatus,
}

impl ComputationHandle {
    /// The status of the computation.
    pub closed spec fn status_spec(&self) -> ComputationStatus {
        self.status
    }

    /// The id of the computation.
    pub closed spec fn computation_id_spec(&self) -> ComputationId {
        self.computation_id
    }

    /// The status of the computation.
    #[verifier::when_used_as_spec(status_spec)]
    pub fn status(&self) -> (s: ComputationStatus)
        ensures
            s == self.status_spec(),
    {
        self.status
    }

    /// The id of the computation.
    #[verifier::when_used_as_spec(computation_id_spec)]
    pub fn computation_id(&self) -> (id: ComputationId)
        ensures
            id == self.computation_id_spec(),
    {
        self.computation_id
    }

    /// Waits for the result; not available yet, so this gives its error.
    pub fn await_result(self) -> (r: Result<Vec<Value>, Error>)
        ensures
            rview(r) == Err::<Vec<Value>, ErrorView>(ErrorView::Computation(not_implemented_text())),
    {
        Err(Error::Computation(owned("not yet implemented")))
    }

    /// Cancels the computation; this gives up the handle.
    pub fn cancel(self) {
    }
}

} // verus!
