use crate::packet::{build, echo_request_bytes};
use crate::Family;
use vstd::prelude::*;

verus! {

/// The hop budget: the sender escalates the hop limit from 1 up to this
/// value, one probe per second, and then stops regardless of replies.
pub const MAX_TTL: u8 = 30;

/// The hop-limit escalation plan of one sender run: exactly the values
/// `1, 2, …, 30`, strictly increasing by one, no repeats, no skips. The
/// sender sets them on the transport in this order.
pub fn probe_schedule() -> (r: Vec<u8>)
    ensures
        r@.len() == MAX_TTL,
        forall|i: int| 0 <= i < r@.len() ==> r@[i] as int == i + 1,
{
    let mut schedule: Vec<u8> = Vec::new();
    let mut ttl: u8 = 1;
    while ttl <= MAX_TTL
        invariant
            1 <= ttl <= MAX_TTL + 1,
            schedule@.len() == ttl - 1,
            forall|i: int| 0 <= i < schedule@.len() ==> schedule@[i] as int == i + 1,
        decreases MAX_TTL + 1 - ttl,
    {
        schedule.push(ttl);
        ttl = ttl + 1;
    }
    schedule
}

/// Relies on `rand::random`: a value drawn from the thread-local
/// generator. Nothing is promised of it — every identifier is a
/// possible outcome.
#[verifier::external_body]
fn fresh_identifier() -> u16 {
    rand::random::<u16>()
}

/// One probe run's fixed data: the protocol family of the target and the
/// run-wide identifier. The identifier is drawn once, at random, when the
/// session is created; every probe the session builds carries it, so the
/// pair (identifier, sequence) correlates a reply to this run's probe.
pub struct ProbeSession {
    pub family: Family,
    pub identifier: u16,
}

impl ProbeSession {
    /// Opens a probe session for a target family, drawing the run-wide
    /// random identifier.
    pub fn new(family: Family) -> (s: ProbeSession)
        ensures
            s.family == family,
    {
        ProbeSession { family, identifier: fresh_identifier() }
    }

    /// Builds the echo request for one hop: the sequence number is the
    /// hop limit itself, tying sequence numbering to hop count, and the
    /// identifier is the session's.
    pub fn build_probe(&self, ttl: u8) -> (r: Vec<u8>)
        ensures
            r@ == echo_request_bytes(self.family, self.identifier, ttl as u16),
    {
        build(ttl as u16, self.identifier, self.family)
    }
}

/// One planned probe: the hop limit to set on the transport before the
/// send, and the packet to send with it.
#[derive(Clone, PartialEq, Eq, Debug)]
pub struct PlannedProbe {
    pub ttl: u8,
    pub packet: Vec<u8>,
}

/// The whole send plan of one session, in send order: thirty probes with
/// hop limits `1, 2, …, 30`, each packet an echo request carrying the
/// session's identifier and its own hop limit as sequence number.
pub fn probe_plan(session: &ProbeSession) -> (r: Vec<PlannedProbe>)
    ensures
        r@.len() == MAX_TTL,
        forall|i: int| 0 <= i < r@.len() ==> (#[trigger] r@[i]).ttl as int == i + 1,
        forall|i: int|
            0 <= i < r@.len() ==> (#[trigger] r@[i]).packet@ == echo_request_bytes(
                session.family,
                session.identifier,
                (i + 1) as u16,
            ),
{
    let mut plan: Vec<PlannedProbe> = Vec::new();
    let mut ttl: u8 = 1;
    while ttl <= MAX_TTL
        invariant
            1 <= ttl <= MAX_TTL + 1,
            plan@.len() == ttl - 1,
            forall|i: int| 0 <= i < plan@.len() ==> (#[trigger] plan@[i]).ttl as int == i + 1,
            forall|i: int|
                0 <= i < plan@.len() ==> (#[trigger] plan@[i]).packet@ == echo_request_bytes(
                    session.family,
                    session.identifier,
                    (i + 1) as u16,
                ),
        decreases MAX_TTL + 1 - ttl,
    {
        let packet = session.build_probe(ttl);
        plan.push(PlannedProbe { ttl, packet });
        ttl = ttl + 1;
    }
    plan
}

} // verus!
