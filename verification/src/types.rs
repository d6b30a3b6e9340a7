//! Identifiers and plain value types shared across the SDK.

use vstd::prelude::*;
use vstd::std_specs::convert::FromSpecImpl;

verus! {

/// Identifier of an MPC server party.
#[derive(Clone, Copy, Debug, PartialEq, Eq, Hash, Structural)]
pub struct PartyId(pub usize);

impl From<usize> for PartyId {
    fn from(v: usize) -> (r: PartyId) {
        PartyId(v)
    }
}

impl FromSpecImpl<usize> for PartyId {
    open spec fn obeys_from_spec() -> bool {
        true
    }

    open spec fn from_spec(v: usize) -> PartyId {
        PartyId(v)
    }
}

impl From<PartyId> for usize {
    fn from(p: PartyId) -> (r: usize) {
        p.0
    }
}

impl FromSpecImpl<PartyId> for usize {
    open spec fn obeys_from_spec() -> bool {
        true
    }

    open spec fn from_spec(p: PartyId) -> usize {
        p.0
    }
}

/// Identifier of a client that provides inputs.
#[derive(Clone, Copy, Debug, PartialEq, Eq, Hash, Structural)]
pub struct ClientId(pub u64);

impl From<u64> for ClientId {
    fn from(v: u64) -> (r: ClientId) {
        ClientId(v)
    }
}

impl FromSpecImpl<u64> for ClientId {
    open spec fn obeys_from_spec() -> bool {
        true
    }

    open spec fn from_spec(v: u64) -> ClientId {
        ClientId(v)
    }
}

/// Identifier of one computation.
#[derive(Clone, Copy, Debug, PartialEq, Eq, Hash, Structural)]
pub struct ComputationId(pub u64);

/// A named input or output value.
#[derive(Clone, Copy, Debug, PartialEq, Eq, Structural)]
pub enum Value {
    /// A signed 64-bit integer.
    Int64(i64),
    /// A boolean.
    Bool(bool),
}

impl From<i64> for Value {
    fn from(v: i64) -> (r: Value) {
        Value::Int64(v)
    }
}

impl FromSpecImpl<i64> for Value {
    open spec fn obeys_from_spec() -> bool {
        true
    }

    open spec fn from_spec(v: i64) -> Value {
        Value::Int64(v)
    }
}

/// Calls `std::time::SystemTime::now().duration_since(UNIX_EPOCH)` and
/// gives the whole seconds and the nanoseconds below one second, or `None`
/// when the clock is before the epoch. Claimed: the nanoseconds are below one
/// second, as `Duration::subsec_nanos` documents; nothing else, since the
/// value is the time of the call.
#[verifier::external_body]
pub(crate) fn unix_time() -> (t: Option<(u64, u32)>)
    ensures
        t matches Some((s, n)) ==> n < 1_000_000_000,
{
    std::time::SystemTime::now().duration_since(std::time::UNIX_EPOCH).ok().map(|d| (d.as_secs(), d.subsec_nanos()))
}

/// A span of time, kept as whole seconds and the nanoseconds below one
/// second, as `std::time::Duration` keeps it.
#[derive(Clone, Copy, Debug, PartialEq, Eq, Structural)]
pub struct Duration {
    secs: u64,
    nanos: u32,
}

impl Duration {
    /// The whole span in nanoseconds.
    pub closed spec fn total_nanos(self) -> nat {
        self.secs as nat * 1_000_000_000 + self.nanos as nat
    }

    /// Whether the sub-second part is below one second.
    pub closed spec fn wf(self) -> bool {
        self.nanos < 1_000_000_000
    }

    #[verifier::type_invariant]
    spec fn nanos_below_one_second(self) -> bool {
        self.nanos < 1_000_000_000
    }

    /// The span of `secs` whole seconds.
    pub closed spec fn from_secs_spec(secs: u64) -> Duration {
        Duration { secs, nanos: 0 }
    }

    /// The span of `millis` milliseconds.
    pub closed spec fn from_millis_spec(millis: u64) -> Duration {
        Duration { secs: millis / 1000, nanos: ((millis % 1000) * 1_000_000) as u32 }
    }

    /// The zero span.
    pub fn zero() -> (d: Duration)
        ensures
            d.total_nanos() == 0,
            d.wf(),
    {
        Duration { secs: 0, nanos: 0 }
    }

    /// A span of `secs` seconds and `nanos` nanoseconds, the whole seconds
    /// in `nanos` carried into the seconds (`std::time::Duration::new`, which
    /// panics when the carry overflows).
    pub fn new(secs: u64, nanos: u32) -> (d: Duration)
        requires
            secs + nanos / 1_000_000_000 <= u64::MAX,
        ensures
            d.total_nanos() == secs as nat * 1_000_000_000 + nanos as nat,
    {
        let extra: u64 = (nanos / 1_000_000_000) as u64;
        let rest: u32 = nanos % 1_000_000_000;
        let d = Duration { secs: secs + extra, nanos: rest };
        assert(d.total_nanos() == secs as nat * 1_000_000_000 + nanos as nat) by (nonlinear_arith)
            requires
                d.secs == secs + extra,
                d.nanos == rest,
                extra == nanos / 1_000_000_000,
                rest == nanos % 1_000_000_000,
                d.total_nanos() == d.secs * 1_000_000_000 + d.nanos,
        ;
        d
    }

    /// A span of `secs` seconds.
    pub fn from_secs(secs: u64) -> (d: Duration)
        ensures
            d.total_nanos() == secs as nat * 1_000_000_000,
            d.wf(),
            d == Duration::from_secs_spec(secs),
    {
        Duration { secs, nanos: 0 }
    }

    /// A span of `millis` milliseconds.
    pub fn from_millis(millis: u64) -> (d: Duration)
        ensures
            d.total_nanos() == millis as nat * 1_000_000,
            d.wf(),
            d == Duration::from_millis_spec(millis),
    {
        let d = Duration { secs: millis / 1000, nanos: ((millis % 1000) * 1_000_000) as u32 };
        assert(d.total_nanos() == millis as nat * 1_000_000) by (nonlinear_arith)
            requires
                d.secs == millis / 1000,
                d.nanos == (millis % 1000) * 1_000_000,
        ;
        d
    }

    /// The whole seconds of the span.
    pub fn as_secs(&self) -> (s: u64)
        ensures
            s as nat == self.total_nanos() / 1_000_000_000,
    {
        proof { use_type_invariant(self); }
        self.secs
    }

    /// The nanoseconds below one second.
    pub fn subsec_nanos(&self) -> (n: u32)
        ensures
            n as nat == self.total_nanos() % 1_000_000_000,
    {
        proof { use_type_invariant(self); }
        self.nanos
    }

    /// The whole span in milliseconds, rounded down.
    pub fn as_millis(&self) -> (m: u128)
        ensures
            m as nat == self.total_nanos() / 1_000_000,
    {
        let m = self.secs as u128 * 1000 + (self.nanos / 1_000_000) as u128;
        assert(m as nat == self.total_nanos() / 1_000_000) by (nonlinear_arith)
            requires
                m == self.secs as u128 * 1000 + (self.nanos / 1_000_000) as u128,
        ;
        m
    }

    /// Whether this span is shorter than `other`.
    pub fn shorter_than(&self, other: &Duration) -> (r: bool)
        ensures
            r == (self.total_nanos() < other.total_nanos()),
    {
        let (sa, na) = (self.as_secs(), self.subsec_nanos());
        let (sb, nb) = (other.as_secs(), other.subsec_nanos());
        proof {
            let ta = self.total_nanos();
            let tb = other.total_nanos();
            assert(ta == (ta / 1_000_000_000) * 1_000_000_000 + ta % 1_000_000_000) by (nonlinear_arith);
            assert(tb == (tb / 1_000_000_000) * 1_000_000_000 + tb % 1_000_000_000) by (nonlinear_arith);
            assert(sa < sb ==> ta < tb) by (nonlinear_arith)
                requires
                    ta == sa * 1_000_000_000 + na,
                    tb == sb * 1_000_000_000 + nb,
                    na < 1_000_000_000,
            ;
            assert(sa > sb ==> ta > tb) by (nonlinear_arith)
                requires
                    ta == sa * 1_000_000_000 + na,
                    tb == sb * 1_000_000_000 + nb,
                    nb < 1_000_000_000,
            ;
        }
        sa < sb || (sa == sb && na < nb)
    }

    /// The sum of two spans (`Duration + Duration`), which must stay within
    /// the largest span (`u64::MAX` seconds and just under one more).
    pub fn plus(&self, other: &Duration) -> (d: Duration)
        requires
            self.total_nanos() + other.total_nanos() < (u64::MAX as nat + 1) * 1_000_000_000,
        ensures
            d.total_nanos() == self.total_nanos() + other.total_nanos(),
    {
        proof { use_type_invariant(self); use_type_invariant(other); }
        let n: u32 = self.nanos + other.nanos;
        let ghost s1 = self.secs as nat;
        let ghost s2 = other.secs as nat;
        if n >= 1_000_000_000 {
            assert(s1 + s2 + 1 <= u64::MAX) by (nonlinear_arith)
                requires
                    s1 * 1_000_000_000 + self.nanos + s2 * 1_000_000_000 + other.nanos < (u64::MAX as nat
                        + 1) * 1_000_000_000,
                    self.nanos + other.nanos >= 1_000_000_000,
            ;
            let d = Duration { secs: self.secs + other.secs + 1, nanos: n - 1_000_000_000 };
            assert(d.total_nanos() == self.total_nanos() + other.total_nanos()) by (nonlinear_arith)
                requires
                    d.secs == s1 + s2 + 1,
                    d.nanos == self.nanos + other.nanos - 1_000_000_000,
                    self.total_nanos() == s1 * 1_000_000_000 + self.nanos,
                    other.total_nanos() == s2 * 1_000_000_000 + other.nanos,
                    d.total_nanos() == d.secs * 1_000_000_000 + d.nanos,
            ;
            d
        } else {
            assert(s1 + s2 <= u64::MAX) by (nonlinear_arith)
                requires
                    s1 * 1_000_000_000 + self.nanos + s2 * 1_000_000_000 + other.nanos < (u64::MAX as nat
                        + 1) * 1_000_000_000,
            ;
            let d = Duration { secs: self.secs + other.secs, nanos: n };
            assert(d.total_nanos() == self.total_nanos() + other.total_nanos()) by (nonlinear_arith)
                requires
                    d.secs == s1 + s2,
                    d.nanos == self.nanos + other.nanos,
                    self.total_nanos() == s1 * 1_000_000_000 + self.nanos,
                    other.total_nanos() == s2 * 1_000_000_000 + other.nanos,
                    d.total_nanos() == d.secs * 1_000_000_000 + d.nanos,
            ;
            d
        }
    }

    /// Whether two spans are equal.
    pub fn same_as(&self, other: &Duration) -> (r: bool)
        ensures
            r == (*self == *other),
            r == (self.total_nanos() == other.total_nanos()),
    {
        proof { use_type_invariant(self); use_type_invariant(other); }
        self.secs == other.secs && self.nanos == other.nanos
    }
}

/// An IP socket address, as plain values.
#[derive(Clone, Copy, Debug, PartialEq, Eq, Structural)]
pub enum SocketAddress {
    /// An IPv4 address (its four octets read as one big-endian number) and port.
    V4 { ip: u32, port: u16 },
    /// An IPv6 address (its sixteen octets read as one big-endian number),
    /// port, flow information and scope.
    V6 { segments: u128, port: u16, flowinfo: u32, scope_id: u32 },
}

impl SocketAddress {
    /// An IPv4 socket address.
    pub fn v4(a: u8, b: u8, c: u8, d: u8, port: u16) -> (s: SocketAddress)
        ensures
            s == (SocketAddress::V4 {
                ip: (a as nat * 16777216 + b as nat * 65536 + c as nat * 256 + d as nat) as u32,
                port,
            }),
    {
        let ip: u32 = (a as u32) * 16777216 + (b as u32) * 65536 + (c as u32) * 256 + d as u32;
        SocketAddress::V4 { ip, port }
    }

    /// The port of this address.
    pub fn port(&self) -> (p: u16)
        ensures
            p == match *self {
                SocketAddress::V4 { port, .. } => port,
                SocketAddress::V6 { port, .. } => port,
            },
    {
        match self {
            SocketAddress::V4 { port, .. } => *port,
            SocketAddress::V6 { port, .. } => *port,
        }
    }
}

} // verus!
