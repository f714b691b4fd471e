//! Probes: questions about the machine that only the caller can answer.
//!
//! The evaluator never probes the machine itself. It names the probe it
//! needs; the caller carries it out and hands back a record of what it found.

use vstd::prelude::*;

verus! {

/// A property of a network interface that the system reports as a short text.
#[derive(Clone, Copy, Debug, PartialEq, Eq, Structural)]
pub enum InterfaceAttribute {
    /// The operational state: `up`, `down` and others.
    OperState,
    /// The carrier flag: `1` or `0`.
    Carrier,
}

/// A question about the machine that only the caller can answer.
#[derive(Clone, Debug, PartialEq, Eq)]
pub enum ProbeRequest {
    /// Ping `host` once and wait at most `timeout_secs` seconds.
    Ping { host: String, timeout_secs: u32 },
    /// Read `attribute` of the interface `interface`.
    InterfaceAttribute { interface: String, attribute: InterfaceAttribute },
    /// Ask the system for its overall connectivity status.
    NetworkStatus,
}

/// What a probe found.
#[derive(Clone, Debug, PartialEq, Eq)]
pub enum Observation {
    /// Whether the ping was answered.
    Ping(bool),
    /// The text read, or `None` where it could not be read.
    InterfaceAttribute(Option<String>),
    /// The status text, or `None` where it could not be had.
    NetworkStatus(Option<String>),
}

/// A probe that was made, with what it found.
#[derive(Clone, Debug, PartialEq, Eq)]
pub struct ProbeRecord {
    pub request: ProbeRequest,
    pub observation: Observation,
}

/// `a` and `b` ask the same question.
pub open spec fn same_request(a: ProbeRequest, b: ProbeRequest) -> bool {
    match (a, b) {
        (
            ProbeRequest::Ping { host: h1, timeout_secs: t1 },
            ProbeRequest::Ping { host: h2, timeout_secs: t2 },
        ) => h1@ == h2@ && t1 == t2,
        (
            ProbeRequest::InterfaceAttribute { interface: i1, attribute: a1 },
            ProbeRequest::InterfaceAttribute { interface: i2, attribute: a2 },
        ) => i1@ == i2@ && a1 == a2,
        (ProbeRequest::NetworkStatus, ProbeRequest::NetworkStatus) => true,
        _ => false,
    }
}

/// What the first record for `request` in `facts` found, if there is one.
pub open spec fn find_fact(facts: Seq<ProbeRecord>, request: ProbeRequest) -> Option<Observation>
    decreases facts.len(),
{
    if facts.len() == 0 {
        None
    } else if same_request(facts[0].request, request) {
        Some(facts[0].observation)
    } else {
        find_fact(facts.skip(1), request)
    }
}

/// Whether `a` and `b` ask the same question.
pub fn requests_equal(a: &ProbeRequest, b: &ProbeRequest) -> (r: bool)
    ensures
        r == same_request(*a, *b),
{
    match (a, b) {
        (
            ProbeRequest::Ping { host: h1, timeout_secs: t1 },
            ProbeRequest::Ping { host: h2, timeout_secs: t2 },
        ) => *h1 == *h2 && *t1 == *t2,
        (
            ProbeRequest::InterfaceAttribute { interface: i1, attribute: a1 },
            ProbeRequest::InterfaceAttribute { interface: i2, attribute: a2 },
        ) => *i1 == *i2 && *a1 == *a2,
        (ProbeRequest::NetworkStatus, ProbeRequest::NetworkStatus) => true,
        _ => false,
    }
}

/// What the first record for `request` in `facts` found, if there is one.
pub fn find_observation<'a>(facts: &'a [ProbeRecord], request: &ProbeRequest) -> (r: Option<
    &'a Observation,
>)
    ensures
        match r {
            Some(observation) => find_fact(facts@, *request) == Some(*observation),
            None => find_fact(facts@, *request) is None,
        },
{
    let mut i: usize = 0;
    assert(facts@.skip(0) =~= facts@);
    while i < facts.len()
        invariant
            i <= facts.len(),
            find_fact(facts@, *request) == find_fact(facts@.skip(i as int), *request),
        decreases facts.len() - i,
    {
        if requests_equal(&facts[i].request, request) {
            return Some(&facts[i].observation);
        }
        assert(facts@.skip(i as int).skip(1) =~= facts@.skip(i + 1));
        i += 1;
    }
    None
}

} // verus!
