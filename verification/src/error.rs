//! Error types of the SDK: a top-level [`Error`] with the specialised
//! [`NetworkError`] and [`ConsensusError`], their messages and cause chains,
//! and the [`ResultExt`] trait for adding context.

use vstd::prelude::*;
use vstd::std_specs::convert::FromSpecImpl;
use crate::text::{concat_str, decimal, owned, u64_to_decimal, usize_to_decimal};
use crate::types::Duration;

verus! {

/// Errors of the networking layer.
#[derive(Clone, Debug, PartialEq, Eq)]
pub enum NetworkError {
    /// Failed to bind a listener; `source` is the message of the I/O failure.
    BindFailed { addr: String, source: String },
    /// Could not connect to a peer server.
    PeerConnectionFailed { party_id: u64, addr: String, reason: String },
    /// Timed out while connecting to a server.
    ConnectionTimeout { server: String, timeout: Duration },
    /// None of the attempted servers could be reached.
    AllServersUnreachable { attempted: usize },
    /// A connected peer went away.
    PeerDisconnected { party_id: u64, reason: String },
    /// TLS handshake or certificate failure.
    Tls(String),
    /// Wire (de)serialisation failure.
    Serialization(String),
    /// A network failure told by its message alone.
    Message(String),
}

/// Errors of the consensus layer.
#[derive(Clone, Debug, PartialEq, Eq)]
pub enum ConsensusError {
    /// A node reported a different participant list.
    NodeListMismatch { node_address: String },
    /// A client-list digest differs from the expected one.
    ClientListDigestMismatch { party_id: u64 },
    /// Not enough clients connected before the deadline.
    ClientReadinessTimeout { expected: usize, connected: usize },
    /// The consensus round did not complete in time.
    ConsensusTimeout { missing_count: usize },
    /// A party disconnected during the round.
    PartyDisconnected { party_id: u64 },
    /// A malformed protocol message arrived.
    InvalidMessage { party_id: u64, reason: String },
}

/// The kind of an I/O failure, named as `std::io::ErrorKind` names it.
#[derive(Clone, Copy, Debug, PartialEq, Eq, Structural)]
pub enum IoErrorKind {
    NotFound,
    PermissionDenied,
    ConnectionRefused,
    ConnectionReset,
    HostUnreachable,
    NetworkUnreachable,
    ConnectionAborted,
    NotConnected,
    AddrInUse,
    AddrNotAvailable,
    NetworkDown,
    BrokenPipe,
    AlreadyExists,
    WouldBlock,
    NotADirectory,
    IsADirectory,
    DirectoryNotEmpty,
    ReadOnlyFilesystem,
    StaleNetworkFileHandle,
    InvalidInput,
    InvalidData,
    TimedOut,
    WriteZero,
    StorageFull,
    NotSeekable,
    QuotaExceeded,
    FileTooLarge,
    ResourceBusy,
    ExecutableFileBusy,
    Deadlock,
    CrossesDevices,
    TooManyLinks,
    InvalidFilename,
    ArgumentListTooLong,
    Interrupted,
    Unsupported,
    UnexpectedEof,
    OutOfMemory,
    Other,
    /// A kind that none of the names above stands for.
    Unlisted,
}

/// An I/O failure: its kind and the message of the I/O error.
#[derive(Clone, Debug, PartialEq, Eq)]
pub struct IoFailure {
    pub kind: IoErrorKind,
    pub message: String,
}

/// Top-level error of every SDK operation.
#[derive(Clone, Debug, PartialEq, Eq)]
pub enum Error {
    /// Program compilation failure.
    Compilation(String),
    /// Invalid SDK or MPC configuration.
    Configuration(String),
    /// Network-layer failure.
    Network(NetworkError),
    /// Consensus-layer failure.
    Consensus(ConsensusError),
    /// Preprocessing failure.
    Preprocessing(String),
    /// Failure during secure evaluation.
    Computation(String),
    /// A requested function is missing from the bytecode.
    FunctionNotFound(String),
    /// Invalid input from the caller.
    InvalidInput(String),
    /// Virtual-machine failure.
    Runtime(String),
    /// I/O failure: the kind and message of the underlying I/O error.
    Io(IoFailure),
}

/// An error with its messages as character sequences.
pub enum ErrorView {
    Compilation(Seq<char>),
    Configuration(Seq<char>),
    Network(NetworkError),
    Consensus(ConsensusError),
    Preprocessing(Seq<char>),
    Computation(Seq<char>),
    FunctionNotFound(Seq<char>),
    InvalidInput(Seq<char>),
    Runtime(Seq<char>),
    Io(IoErrorKind, Seq<char>),
}

impl View for Error {
    type V = ErrorView;

    open spec fn view(&self) -> ErrorView {
        match *self {
            Error::Compilation(m) => ErrorView::Compilation(m@),
            Error::Configuration(m) => ErrorView::Configuration(m@),
            Error::Network(n) => ErrorView::Network(n),
            Error::Consensus(c) => ErrorView::Consensus(c),
            Error::Preprocessing(m) => ErrorView::Preprocessing(m@),
            Error::Computation(m) => ErrorView::Computation(m@),
            Error::FunctionNotFound(m) => ErrorView::FunctionNotFound(m@),
            Error::InvalidInput(m) => ErrorView::InvalidInput(m@),
            Error::Runtime(m) => ErrorView::Runtime(m@),
            Error::Io(f) => ErrorView::Io(f.kind, f.message@),
        }
    }
}

/// A result with its error taken by its view.
pub open spec fn rview<T>(r: Result<T, Error>) -> Result<T, ErrorView> {
    match r {
        Ok(v) => Ok(v),
        Err(e) => Err(e@),
    }
}

/// Result with [`Error`] as the default error.
pub type Result<T, E = Error> = core::result::Result<T, E>;

// ---------------------------------------------------------------------------
// Rendering of durations (as their `Debug` text)
// ---------------------------------------------------------------------------

/// `digits` without its trailing zeros.
pub open spec fn trim_trailing_zeros(digits: Seq<char>) -> Seq<char>
    decreases digits.len(),
{
    if digits.len() > 0 && digits.last() == '0' {
        trim_trailing_zeros(digits.drop_last())
    } else {
        digits
    }
}

/// `frac` written with exactly `width` digits (leading zeros kept).
pub open spec fn padded(frac: nat, width: nat) -> Seq<char>
    decreases width,
{
    if width == 0 {
        Seq::empty()
    } else {
        padded(frac / 10, (width - 1) as nat).push(crate::text::digit_char(frac % 10))
    }
}

/// An integer part followed, when the fraction is not zero, by a point and
/// the fraction's digits without trailing zeros, then the unit.
pub open spec fn decimal_with_fraction(int_part: nat, frac: nat, width: nat, unit: Seq<char>) -> Seq<char> {
    if frac == 0 {
        decimal(int_part) + unit
    } else {
        decimal(int_part) + seq!['.'] + trim_trailing_zeros(padded(frac, width)) + unit
    }
}

/// The `Debug` text of a duration of `n` nanoseconds: seconds when at least
/// one second, else milliseconds, microseconds or nanoseconds.
pub open spec fn duration_text(n: nat) -> Seq<char> {
    if n >= 1_000_000_000 {
        decimal_with_fraction(n / 1_000_000_000, n % 1_000_000_000, 9, seq!['s'])
    } else if n >= 1_000_000 {
        decimal_with_fraction(n / 1_000_000, n % 1_000_000, 6, seq!['m', 's'])
    } else if n >= 1_000 {
        decimal_with_fraction(n / 1_000, n % 1_000, 3, seq!['\u{b5}', 's'])
    } else {
        decimal(n) + seq!['n', 's']
    }
}

fn padded_exec(frac: u64, width: u64) -> (s: String)
    requires
        width <= 9,
    ensures
        s@ == padded(frac as nat, width as nat),
    decreases width,
{
    if width == 0 {
        String::new()
    } else {
        let mut s = padded_exec(frac / 10, width - 1);
        let d = frac % 10;
        let mut one = u64_to_decimal(d);
        proof {
            reveal_with_fuel(decimal, 1);
        }
        assert(one@ == seq![crate::text::digit_char(d as nat)]);
        let c = one.as_str().get_char(0);
        crate::text::push_char(&mut s, c);
        s
    }
}

fn trim_zeros_exec(s: String) -> (r: String)
    ensures
        r@ == trim_trailing_zeros(s@),
{
    let n = s.as_str().unicode_len();
    let mut end: usize = n;
    assert(s@.subrange(0, n as int) =~= s@);
    while end > 0 && s.as_str().get_char(end - 1) == '0'
        invariant
            n == s@.len(),
            end <= n,
            trim_trailing_zeros(s@) == trim_trailing_zeros(s@.subrange(0, end as int)),
        decreases end,
    {
        proof {
            let t = s@.subrange(0, end as int);
            assert(t.drop_last() =~= s@.subrange(0, end - 1));
        }
        end = end - 1;
    }
    let mut r = String::new();
    let mut i: usize = 0;
    while i < end
        invariant
            n == s@.len(),
            end <= n,
            i <= end,
            r@ =~= s@.subrange(0, i as int),
        decreases end - i,
    {
        crate::text::push_char(&mut r, s.as_str().get_char(i));
        i = i + 1;
    }
    proof {
        let t = s@.subrange(0, end as int);
        assert(!(t.len() > 0 && t.last() == '0'));
    }
    r
}

fn decimal_with_fraction_exec(int_part: u64, frac: u64, width: u64, unit: &str) -> (s: String)
    requires
        width <= 9,
    ensures
        s@ == decimal_with_fraction(int_part as nat, frac as nat, width as nat, unit@),
{
    let s = u64_to_decimal(int_part);
    if frac == 0 {
        concat_str(s, unit)
    } else {
        let s = concat_str(s, ".");
        let digits = trim_zeros_exec(padded_exec(frac, width));
        let s = concat_str(s, digits.as_str());
        proof {
            reveal_strlit(".");
        }
        let r = concat_str(s, unit);
        assert(r@ =~= decimal_with_fraction(int_part as nat, frac as nat, width as nat, unit@));
        r
    }
}

/// The `Debug` text of a duration, such as `30s`, `1.5s` or `100ms`.
pub fn duration_debug(d: &Duration) -> (s: String)
    ensures
        s@ == duration_text(d.total_nanos()),
{
    let secs = d.as_secs();
    let nanos = d.subsec_nanos() as u64;
    proof {
        reveal_strlit("s");
        reveal_strlit("ms");
        reveal_strlit("\u{b5}s");
        reveal_strlit("ns");
    }
    if secs > 0 {
        decimal_with_fraction_exec(secs, nanos, 9, "s")
    } else if nanos >= 1_000_000 {
        decimal_with_fraction_exec(nanos / 1_000_000, nanos % 1_000_000, 6, "ms")
    } else if nanos >= 1_000 {
        decimal_with_fraction_exec(nanos / 1_000, nanos % 1_000, 3, "\u{b5}s")
    } else {
        concat_str(u64_to_decimal(nanos), "ns")
    }
}


// ---------------------------------------------------------------------------
// Messages
// ---------------------------------------------------------------------------

/// The message of a network error.
pub open spec fn network_text(e: NetworkError) -> Seq<char> {
    match e {
        NetworkError::BindFailed { addr, source } =>
            "Failed to bind to "@ + addr@ + ": "@ + source@,
        NetworkError::PeerConnectionFailed { party_id, addr, reason } =>
            "Failed to connect to party "@ + decimal(party_id as nat) + " at "@ + addr@ + ": "@ + reason@,
        NetworkError::ConnectionTimeout { server, timeout } =>
            "Connection to "@ + server@ + " timed out after "@ + duration_text(timeout.total_nanos()),
        NetworkError::AllServersUnreachable { attempted } =>
            "All "@ + decimal(attempted as nat) + " servers unreachable"@,
        NetworkError::PeerDisconnected { party_id, reason } =>
            "Party "@ + decimal(party_id as nat) + " disconnected: "@ + reason@,
        NetworkError::Tls(m) => "TLS error: "@ + m@,
        NetworkError::Serialization(m) => "Serialization error: "@ + m@,
        NetworkError::Message(m) => "Network error: "@ + m@,
    }
}

/// The message of a consensus error.
pub open spec fn consensus_text(e: ConsensusError) -> Seq<char> {
    match e {
        ConsensusError::NodeListMismatch { node_address } =>
            "Node list mismatch from "@ + node_address@,
        ConsensusError::ClientListDigestMismatch { party_id } =>
            "Client list digest mismatch for party "@ + decimal(party_id as nat),
        ConsensusError::ClientReadinessTimeout { expected, connected } =>
            "Client readiness timeout: expected "@ + decimal(expected as nat) + ", got "@ + decimal(connected as nat),
        ConsensusError::ConsensusTimeout { missing_count } =>
            "Consensus timeout: "@ + decimal(missing_count as nat) + " parties missing"@,
        ConsensusError::PartyDisconnected { party_id } =>
            "Party "@ + decimal(party_id as nat) + " disconnected during consensus"@,
        ConsensusError::InvalidMessage { party_id, reason } =>
            "Invalid message from party "@ + decimal(party_id as nat) + ": "@ + reason@,
    }
}

/// The message of an error (network and consensus errors show their own).
pub open spec fn error_text(e: Error) -> Seq<char> {
    match e {
        Error::Compilation(m) => "Compilation error: "@ + m@,
        Error::Configuration(m) => "Configuration error: "@ + m@,
        Error::Network(n) => network_text(n),
        Error::Consensus(c) => consensus_text(c),
        Error::Preprocessing(m) => "Preprocessing error: "@ + m@,
        Error::Computation(m) => "Computation error: "@ + m@,
        Error::FunctionNotFound(m) => "Function not found: "@ + m@,
        Error::InvalidInput(m) => "Invalid input: "@ + m@,
        Error::Runtime(m) => "Runtime error: "@ + m@,
        Error::Io(f) => "IO error: "@ + f.message@,
    }
}

/// The message of the error's cause, when it has one: the I/O failure of an
/// I/O error or of a failed bind.
pub open spec fn error_cause(e: Error) -> Option<Seq<char>> {
    match e {
        Error::Io(f) => Some(f.message@),
        Error::Network(NetworkError::BindFailed { source, .. }) => Some(source@),
        _ => None,
    }
}

/// The error's message followed by its cause, one per line.
pub open spec fn chain_text(e: Error) -> Seq<char> {
    match error_cause(e) {
        Some(c) => error_text(e) + "\n  caused by: "@ + c,
        None => error_text(e),
    }
}

fn cat(a: String, b: &str) -> (s: String)
    ensures
        s@ == a@ + b@,
{
    concat_str(a, b)
}

impl NetworkError {
    /// The message of this error.
    pub fn message(&self) -> (s: String)
        ensures
            s@ == network_text(*self),
    {
        match self {
            NetworkError::BindFailed { addr, source } => {
                proof { reveal_strlit("Failed to bind to "); reveal_strlit(": "); }
                let s = cat(cat(cat(owned("Failed to bind to "), addr.as_str()), ": "), source.as_str());
                assert(s@ =~= network_text(*self));
                s
            },
            NetworkError::PeerConnectionFailed { party_id, addr, reason } => {
                let s = cat(owned("Failed to connect to party "), u64_to_decimal(*party_id).as_str());
                let s = cat(cat(cat(cat(s, " at "), addr.as_str()), ": "), reason.as_str());
                assert(s@ =~= network_text(*self));
                s
            },
            NetworkError::ConnectionTimeout { server, timeout } => {
                let s = cat(cat(owned("Connection to "), server.as_str()), " timed out after ");
                let s = cat(s, duration_debug(timeout).as_str());
                assert(s@ =~= network_text(*self));
                s
            },
            NetworkError::AllServersUnreachable { attempted } => {
                let s = cat(cat(owned("All "), usize_to_decimal(*attempted).as_str()), " servers unreachable");
                assert(s@ =~= network_text(*self));
                s
            },
            NetworkError::PeerDisconnected { party_id, reason } => {
                let s = cat(cat(cat(owned("Party "), u64_to_decimal(*party_id).as_str()), " disconnected: "), reason.as_str());
                assert(s@ =~= network_text(*self));
                s
            },
            NetworkError::Tls(m) => cat(owned("TLS error: "), m.as_str()),
            NetworkError::Serialization(m) => cat(owned("Serialization error: "), m.as_str()),
            NetworkError::Message(m) => cat(owned("Network error: "), m.as_str()),
        }
    }
}

impl ConsensusError {
    /// The message of this error.
    pub fn message(&self) -> (s: String)
        ensures
            s@ == consensus_text(*self),
    {
        match self {
            ConsensusError::NodeListMismatch { node_address } =>
                cat(owned("Node list mismatch from "), node_address.as_str()),
            ConsensusError::ClientListDigestMismatch { party_id } =>
                cat(owned("Client list digest mismatch for party "), u64_to_decimal(*party_id).as_str()),
            ConsensusError::ClientReadinessTimeout { expected, connected } => {
                let s = cat(owned("Client readiness timeout: expected "), usize_to_decimal(*expected).as_str());
                let s = cat(cat(s, ", got "), usize_to_decimal(*connected).as_str());
                assert(s@ =~= consensus_text(*self));
                s
            },
            ConsensusError::ConsensusTimeout { missing_count } => {
                let s = cat(cat(owned("Consensus timeout: "), usize_to_decimal(*missing_count).as_str()), " parties missing");
                assert(s@ =~= consensus_text(*self));
                s
            },
            ConsensusError::PartyDisconnected { party_id } => {
                let s = cat(cat(owned("Party "), u64_to_decimal(*party_id).as_str()), " disconnected during consensus");
                assert(s@ =~= consensus_text(*self));
                s
            },
            ConsensusError::InvalidMessage { party_id, reason } => {
                let s = cat(cat(cat(owned("Invalid message from party "), u64_to_decimal(*party_id).as_str()), ": "), reason.as_str());
                assert(s@ =~= consensus_text(*self));
                s
            },
        }
    }
}

impl Error {
    /// An I/O error of the given failure (older name of [`Error::Io`]).
    #[allow(non_snake_case)]
    pub fn IoError(source: IoFailure) -> (e: Error)
        ensures
            e == Error::Io(source),
    {
        Error::Io(source)
    }

    /// A runtime error (older name of [`Error::Runtime`]).
    #[allow(non_snake_case)]
    pub fn RuntimeError(msg: String) -> (e: Error)
        ensures
            e == Error::Runtime(msg),
    {
        Error::Runtime(msg)
    }

    /// A compilation error (older name of [`Error::Compilation`]).
    #[allow(non_snake_case)]
    pub fn CompilationError(msg: String) -> (e: Error)
        ensures
            e == Error::Compilation(msg),
    {
        Error::Compilation(msg)
    }

    /// A network error told by its message alone (the older form of
    /// [`Error::Network`], which wrapped a plain string).
    #[allow(non_snake_case)]
    pub fn MPCError(msg: String) -> (e: Error)
        ensures
            e == Error::Network(NetworkError::Message(msg)),
    {
        Error::Network(NetworkError::Message(msg))
    }

    /// The message of this error, as its `Display` text.
    pub fn message(&self) -> (s: String)
        ensures
            s@ == error_text(*self),
    {
        match self {
            Error::Compilation(m) => cat(owned("Compilation error: "), m.as_str()),
            Error::Configuration(m) => cat(owned("Configuration error: "), m.as_str()),
            Error::Network(n) => n.message(),
            Error::Consensus(c) => c.message(),
            Error::Preprocessing(m) => cat(owned("Preprocessing error: "), m.as_str()),
            Error::Computation(m) => cat(owned("Computation error: "), m.as_str()),
            Error::FunctionNotFound(m) => cat(owned("Function not found: "), m.as_str()),
            Error::InvalidInput(m) => cat(owned("Invalid input: "), m.as_str()),
            Error::Runtime(m) => cat(owned("Runtime error: "), m.as_str()),
            Error::Io(f) => cat(owned("IO error: "), f.message.as_str()),
        }
    }

    /// The full error chain as one string, one cause per line.
    pub fn chain(&self) -> (s: String)
        ensures
            s@ == chain_text(*self),
    {
        let text = self.message();
        match self {
            Error::Io(f) => cat(cat(text, "\n  caused by: "), f.message.as_str()),
            Error::Network(NetworkError::BindFailed { source, .. }) =>
                cat(cat(text, "\n  caused by: "), source.as_str()),
            _ => text,
        }
    }
}

impl From<NetworkError> for Error {
    fn from(e: NetworkError) -> (r: Error) {
        Error::Network(e)
    }
}

impl FromSpecImpl<NetworkError> for Error {
    open spec fn obeys_from_spec() -> bool {
        true
    }

    open spec fn from_spec(e: NetworkError) -> Error {
        Error::Network(e)
    }
}

impl From<ConsensusError> for Error {
    fn from(e: ConsensusError) -> (r: Error) {
        Error::Consensus(e)
    }
}

impl FromSpecImpl<ConsensusError> for Error {
    open spec fn obeys_from_spec() -> bool {
        true
    }

    open spec fn from_spec(e: ConsensusError) -> Error {
        Error::Consensus(e)
    }
}

impl From<String> for Error {
    fn from(msg: String) -> (r: Error) {
        Error::Runtime(msg)
    }
}

impl FromSpecImpl<String> for Error {
    open spec fn obeys_from_spec() -> bool {
        true
    }

    open spec fn from_spec(msg: String) -> Error {
        Error::Runtime(msg)
    }
}


// ---------------------------------------------------------------------------
// Context
// ---------------------------------------------------------------------------

/// Adds context to failures, producing [`Error::Runtime`].
pub trait ResultExt<T>: Sized {
    /// On failure, a runtime error with the context `msg`.
    fn context(self, msg: &str) -> Result<T>;

    /// On failure, a runtime error with the context that `f` produces.
    fn with_context<F: FnOnce() -> String>(self, f: F) -> Result<T>
        requires
            call_requires(f, ()),
    ;
}

/// The runtime message for context `msg` on an error whose message is `inner`.
pub open spec fn context_text(msg: Seq<char>, inner: Seq<char>) -> Seq<char> {
    msg + ": "@ + inner
}

fn runtime_with_context(msg: String, inner: String) -> (e: Error)
    ensures
        e matches Error::Runtime(m) && m@ == context_text(msg@, inner@),
{
    Error::Runtime(cat(cat(msg, ": "), inner.as_str()))
}

impl<T> ResultExt<T> for Option<T> {
    fn context(self, msg: &str) -> (r: Result<T>)
        ensures
            match self {
                Some(v) => r == Ok::<T, Error>(v),
                None => r matches Err(Error::Runtime(m)) && m@ == msg@,
            },
    {
        match self {
            Some(v) => Ok(v),
            None => Err(Error::Runtime(owned(msg))),
        }
    }

    fn with_context<F: FnOnce() -> String>(self, f: F) -> (r: Result<T>)
        ensures
            match self {
                Some(v) => r == Ok::<T, Error>(v),
                None => r matches Err(Error::Runtime(m)) && call_ensures(f, (), m),
            },
    {
        match self {
            Some(v) => Ok(v),
            None => Err(Error::Runtime(f())),
        }
    }
}

impl<T> ResultExt<T> for Result<T> {
    fn context(self, msg: &str) -> (r: Result<T>)
        ensures
            match self {
                Ok(v) => r == Ok::<T, Error>(v),
                Err(e) => r matches Err(Error::Runtime(m)) && m@ == context_text(msg@, error_text(e)),
            },
    {
        match self {
            Ok(v) => Ok(v),
            Err(e) => Err(runtime_with_context(owned(msg), e.message())),
        }
    }

    fn with_context<F: FnOnce() -> String>(self, f: F) -> (r: Result<T>)
        ensures
            match self {
                Ok(v) => r == Ok::<T, Error>(v),
                Err(e) => r matches Err(Error::Runtime(m))
                    && exists|c: String| call_ensures(f, (), c) && m@ == context_text(c@, error_text(e)),
            },
    {
        match self {
            Ok(v) => Ok(v),
            Err(e) => {
                let c = f();
                Err(runtime_with_context(c, e.message()))
            },
        }
    }
}

impl<T> ResultExt<T> for Result<T, NetworkError> {
    fn context(self, msg: &str) -> (r: Result<T>)
        ensures
            match self {
                Ok(v) => r == Ok::<T, Error>(v),
                Err(e) => r matches Err(Error::Runtime(m)) && m@ == context_text(msg@, network_text(e)),
            },
    {
        match self {
            Ok(v) => Ok(v),
            Err(e) => Err(runtime_with_context(owned(msg), e.message())),
        }
    }

    fn with_context<F: FnOnce() -> String>(self, f: F) -> (r: Result<T>)
        ensures
            match self {
                Ok(v) => r == Ok::<T, Error>(v),
                Err(e) => r matches Err(Error::Runtime(m))
                    && exists|c: String| call_ensures(f, (), c) && m@ == context_text(c@, network_text(e)),
            },
    {
        match self {
            Ok(v) => Ok(v),
            Err(e) => {
                let c = f();
                Err(runtime_with_context(c, e.message()))
            },
        }
    }
}

impl<T> ResultExt<T> for Result<T, ConsensusError> {
    fn context(self, msg: &str) -> (r: Result<T>)
        ensures
            match self {
                Ok(v) => r == Ok::<T, Error>(v),
                Err(e) => r matches Err(Error::Runtime(m)) && m@ == context_text(msg@, consensus_text(e)),
            },
    {
        match self {
            Ok(v) => Ok(v),
            Err(e) => Err(runtime_with_context(owned(msg), e.message())),
        }
    }

    fn with_context<F: FnOnce() -> String>(self, f: F) -> (r: Result<T>)
        ensures
            match self {
                Ok(v) => r == Ok::<T, Error>(v),
                Err(e) => r matches Err(Error::Runtime(m))
                    && exists|c: String| call_ensures(f, (), c) && m@ == context_text(c@, consensus_text(e)),
            },
    {
        match self {
            Ok(v) => Ok(v),
            Err(e) => {
                let c = f();
                Err(runtime_with_context(c, e.message()))
            },
        }
    }
}

impl<T> ResultExt<T> for Result<T, String> {
    fn context(self, msg: &str) -> (r: Result<T>)
        ensures
            match self {
                Ok(v) => r == Ok::<T, Error>(v),
                Err(e) => r matches Err(Error::Runtime(m))
                    && m@ == context_text(msg@, "Runtime error: "@ + e@),
            },
    {
        match self {
            Ok(v) => Ok(v),
            Err(e) => Err(runtime_with_context(owned(msg), Error::Runtime(e).message())),
        }
    }

    fn with_context<F: FnOnce() -> String>(self, f: F) -> (r: Result<T>)
        ensures
            match self {
                Ok(v) => r == Ok::<T, Error>(v),
                Err(e) => r matches Err(Error::Runtime(m))
                    && exists|c: String| call_ensures(f, (), c)
                    && m@ == context_text(c@, "Runtime error: "@ + e@),
            },
    {
        match self {
            Ok(v) => Ok(v),
            Err(e) => {
                let c = f();
                Err(runtime_with_context(c, Error::Runtime(e).message()))
            },
        }
    }
}

/// The whole-number part of a retry policy: how many attempts are made in
/// all (the first one included), and the first and the largest pause between
/// two attempts. The factor by which the pause grows is a float and stays
/// with the caller.
#[derive(Clone, Copy, Debug, PartialEq, Eq, Structural)]
pub struct RetryLimits {
    /// Attempts in all, the first one included.
    pub max_attempts: u32,
    /// The pause before the first retry.
    pub initial_delay: Duration,
    /// The largest pause between two attempts.
    pub max_delay: Duration,
}

impl RetryLimits {
    /// Up to `max_attempts` attempts, pausing from 100 ms up to 30 s.
    pub fn exponential_backoff(max_attempts: u32) -> (r: Self)
        ensures
            r.max_attempts == max_attempts,
            r.initial_delay == Duration::from_millis_spec(100),
            r.max_delay == Duration::from_secs_spec(30),
    {
        RetryLimits {
            max_attempts,
            initial_delay: Duration::from_millis(100),
            max_delay: Duration::from_secs(30),
        }
    }

    /// A single attempt, without pauses.
    pub fn none() -> (r: Self)
        ensures
            r.max_attempts == 1,
            r.initial_delay == Duration::from_secs_spec(0),
            r.max_delay == Duration::from_secs_spec(0),
    {
        RetryLimits { max_attempts: 1, initial_delay: Duration::from_secs(0), max_delay: Duration::from_secs(0) }
    }

    /// Whether retry number `n` (counted from 0) may be made: only while
    /// `n + 1` attempts leave one more within the limit.
    pub fn retry_allowed(&self, n: u32) -> (b: bool)
        ensures
            b == (n + 1 < self.max_attempts),
    {
        n < self.max_attempts && n + 1 < self.max_attempts
    }
}

impl Default for RetryLimits {
    fn default() -> (r: Self)
        ensures
            r.max_attempts == 3,
            r.initial_delay == Duration::from_millis_spec(100),
            r.max_delay == Duration::from_secs_spec(30),
    {
        RetryLimits::exponential_backoff(3)
    }
}

} // verus!
