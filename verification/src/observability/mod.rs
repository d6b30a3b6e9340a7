//! Metrics and health: counters, gauges and a three-way health status.

pub mod otel;

use vstd::prelude::*;
use crate::text::{concat_str, owned};

verus! {

/// A counter's value after one increment from `v` (wrapping past `u64::MAX`).
pub open spec fn counter_step(v: nat) -> nat {
    (v + 1) % 0x1_0000_0000_0000_0000
}

/// A counter's value after `k` increments from `v`.
pub open spec fn counter_after(v: nat, k: nat) -> nat
    decreases k,
{
    if k == 0 {
        v
    } else {
        counter_step(counter_after(v, (k - 1) as nat))
    }
}

/// No increment is lost: `k` increments from `v` give `v + k` while that
/// fits in a `u64`.
pub proof fn lemma_counter_increments(v: nat, k: nat)
    requires
        v + k <= u64::MAX,
    ensures
        counter_after(v, k) == v + k,
    decreases k,
{
    if k > 0 {
        lemma_counter_increments(v, (k - 1) as nat);
    }
}

/// A gauge's value after one decrement from `v`: one less, or 0 at 0.
pub open spec fn gauge_dec_step(v: nat) -> nat {
    if v == 0 {
        0
    } else {
        (v - 1) as nat
    }
}

/// A gauge's value after `k` decrements from `v`.
pub open spec fn gauge_after_decs(v: nat, k: nat) -> nat
    decreases k,
{
    if k == 0 {
        v
    } else {
        gauge_dec_step(gauge_after_decs(v, (k - 1) as nat))
    }
}

/// `k` decrements from `v` give `v - k`, or 0 when `k` exceeds `v`: the
/// gauge never wraps below zero.
pub proof fn lemma_gauge_decrements(v: nat, k: nat)
    ensures
        gauge_after_decs(v, k) == (if v >= k { (v - k) as nat } else { 0 }),
    decreases k,
{
    if k > 0 {
        lemma_gauge_decrements(v, (k - 1) as nat);
    }
}

/// A counter that only goes up (wrapping at `u64::MAX`, as an atomic add does).
#[derive(Debug)]
pub struct Counter {
    value: u64,
    name: String,
}

impl Counter {
    /// The current value.
    pub closed spec fn value_of(&self) -> u64 {
        self.value
    }

    /// The metric name.
    pub closed spec fn name_of(&self) -> Seq<char> {
        self.name@
    }

    /// A counter named `name` at zero.
    pub fn new(name: String) -> (c: Self)
        ensures
            c.value_of() == 0,
            c.name_of() == name@,
    {
        Counter { value: 0, name }
    }

    /// Adds one.
    pub fn inc(&mut self)
        ensures
            final(self).value_of() == counter_step(old(self).value_of() as nat),
            final(self).name_of() == old(self).name_of(),
    {
        self.value = self.value.wrapping_add(1);
    }

    /// Adds `amount`.
    pub fn inc_by(&mut self, amount: u64)
        ensures
            final(self).value_of() == (old(self).value_of() + amount) % 0x1_0000_0000_0000_0000,
            final(self).name_of() == old(self).name_of(),
    {
        self.value = self.value.wrapping_add(amount);
    }

    /// The current value.
    pub fn get(&self) -> (v: u64)
        ensures
            v == self.value_of(),
    {
        self.value
    }

    /// The metric name.
    pub fn name(&self) -> (s: &str)
        ensures
            s@ == self.name_of(),
    {
        self.name.as_str()
    }
}

/// A value that goes up and down; it never goes below zero.
#[derive(Debug)]
pub struct Gauge {
    value: usize,
    name: String,
}

impl Gauge {
    /// The current value.
    pub closed spec fn value_of(&self) -> usize {
        self.value
    }

    /// The metric name.
    pub closed spec fn name_of(&self) -> Seq<char> {
        self.name@
    }

    /// A gauge named `name` at zero.
    pub fn new(name: String) -> (g: Self)
        ensures
            g.value_of() == 0,
            g.name_of() == name@,
    {
        Gauge { value: 0, name }
    }

    /// Sets the value.
    pub fn set(&mut self, value: usize)
        ensures
            final(self).value_of() == value,
            final(self).name_of() == old(self).name_of(),
    {
        self.value = value;
    }

    /// The current value.
    pub fn get(&self) -> (v: usize)
        ensures
            v == self.value_of(),
    {
        self.value
    }

    /// Adds one (wrapping at `usize::MAX`, as an atomic add does).
    pub fn inc(&mut self)
        ensures
            final(self).value_of() == (if old(self).value_of() == usize::MAX { 0 } else {
                old(self).value_of() + 1
            }),
            final(self).name_of() == old(self).name_of(),
    {
        self.value = if self.value == usize::MAX { 0 } else { self.value + 1 };
    }

    /// Subtracts one, staying at zero.
    pub fn dec(&mut self)
        ensures
            final(self).value_of() == gauge_dec_step(old(self).value_of() as nat),
            final(self).name_of() == old(self).name_of(),
    {
        if self.value > 0 {
            self.value = self.value - 1;
        }
    }

    /// The metric name.
    pub fn name(&self) -> (s: &str)
        ensures
            s@ == self.name_of(),
    {
        self.name.as_str()
    }
}

/// Health of a component.
#[derive(Clone, Debug, PartialEq, Eq)]
pub enum HealthStatus {
    /// Fully operational.
    Healthy,
    /// Operational with issues.
    Degraded { reason: String },
    /// Unable to serve requests.
    Unhealthy { reason: String },
}

/// The text of a health status.
pub open spec fn health_text(h: HealthStatus) -> Seq<char> {
    match h {
        HealthStatus::Healthy => "Healthy"@,
        HealthStatus::Degraded { reason } => "Degraded: "@ + reason@,
        HealthStatus::Unhealthy { reason } => "Unhealthy: "@ + reason@,
    }
}

impl HealthStatus {
    /// Whether the status is `Healthy`.
    pub fn is_healthy(&self) -> (b: bool)
        ensures
            b == (*self is Healthy),
    {
        match self {
            HealthStatus::Healthy => true,
            _ => false,
        }
    }

    /// Whether requests can be served: healthy or degraded.
    pub fn is_operational(&self) -> (b: bool)
        ensures
            b == !(*self is Unhealthy),
    {
        match self {
            HealthStatus::Unhealthy { .. } => false,
            _ => true,
        }
    }

    /// The display text: `Healthy`, `Degraded: <reason>` or `Unhealthy: <reason>`.
    pub fn to_text(&self) -> (s: String)
        ensures
            s@ == health_text(*self),
    {
        match self {
            HealthStatus::Healthy => owned("Healthy"),
            HealthStatus::Degraded { reason } => concat_str(owned("Degraded: "), reason.as_str()),
            HealthStatus::Unhealthy { reason } => concat_str(owned("Unhealthy: "), reason.as_str()),
        }
    }
}

/// Every healthy status is operational.
pub proof fn lemma_healthy_is_operational(h: HealthStatus)
    ensures
        h is Healthy ==> !(h is Unhealthy),
{
}

} // verus!
