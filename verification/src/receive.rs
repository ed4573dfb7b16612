use crate::classify::{classify, classify_spec, Classification, ReplyKind};
use crate::{Family, HostAddr};
use vstd::prelude::*;

verus! {

/// One classified inbound message, as the receive loop reports it: its
/// kind and raw type tag, who sent it, the round-trip time measured from
/// the loop's reference instant, and — for an echo reply — the identifier
/// and sequence number it answers.
#[derive(Clone, Copy, PartialEq, Eq, Debug)]
pub struct ReplyEvent {
    pub kind: ReplyKind,
    pub type_code: u8,
    pub source: HostAddr,
    pub rtt_millis: u64,
    pub identifier: Option<u16>,
    pub sequence: Option<u16>,
}

/// What one blocking read of the transport's inbound side produced:
/// a packet with its source address and the instants around the read
/// (the loop's reference instant at entry, and the instant of receipt),
/// or a read failure.
#[derive(Clone, PartialEq, Eq, Debug)]
pub enum Inbound {
    Packet { data: Vec<u8>, source: HostAddr, entry_millis: u64, now_millis: u64 },
    ReadError,
}

/// The receive loop's decision on one inbound item: emit a classified
/// event and possibly stop (an echo reply ends the run), skip a malformed
/// packet and keep listening, or stop on a read failure.
#[derive(Clone, Copy, PartialEq, Eq, Debug)]
pub enum StepOutcome {
    Reply { event: ReplyEvent, stop: bool },
    MalformedPacket,
    ReadFailed,
}

/// Round-trip time as elapsed milliseconds since the reference instant,
/// zero if the clock read earlier than the reference.
pub open spec fn rtt_of(entry_millis: u64, now_millis: u64) -> u64 {
    if now_millis >= entry_millis {
        (now_millis - entry_millis) as u64
    } else {
        0
    }
}

/// The event a classification turns into, for a packet from `source`
/// with round-trip time `rtt`.
pub open spec fn event_of(c: Classification, source: HostAddr, rtt: u64) -> ReplyEvent {
    ReplyEvent {
        kind: c.kind,
        type_code: c.type_code,
        source,
        rtt_millis: rtt,
        identifier: c.identifier,
        sequence: c.sequence,
    }
}

/// The receive loop's whole per-iteration decision, as a function of the
/// inbound item: classify, compute the round-trip time, and stop exactly
/// on an echo reply or a read failure.
pub open spec fn step_spec(family: Family, inbound: Inbound) -> StepOutcome {
    match inbound {
        Inbound::ReadError => StepOutcome::ReadFailed,
        Inbound::Packet { data, source, entry_millis, now_millis } => match classify_spec(
            family,
            data@,
        ) {
            Err(_) => StepOutcome::MalformedPacket,
            Ok(c) => StepOutcome::Reply {
                event: event_of(c, source, rtt_of(entry_millis, now_millis)),
                stop: c.kind is EchoReply,
            },
        },
    }
}

/// Whether one inbound item ends the receive loop.
pub open spec fn stops(family: Family, inbound: Inbound) -> bool {
    match step_spec(family, inbound) {
        StepOutcome::ReadFailed => true,
        StepOutcome::Reply { event, stop } => stop,
        StepOutcome::MalformedPacket => false,
    }
}

/// The event one inbound item emits, if any.
pub open spec fn emitted(family: Family, inbound: Inbound) -> Option<ReplyEvent> {
    match step_spec(family, inbound) {
        StepOutcome::Reply { event, stop } => Some(event),
        _ => None,
    }
}

/// The events the receive loop emits for the first `n` inbound items,
/// in order: one per packet that classifies, none for malformed packets
/// or read failures.
pub open spec fn events_upto(family: Family, s: Seq<Inbound>, n: int) -> Seq<ReplyEvent>
    decreases n,
{
    if n <= 0 {
        Seq::empty()
    } else {
        events_upto(family, s, n - 1) + match emitted(family, s[n - 1]) {
            Some(e) => seq![e],
            None => Seq::<ReplyEvent>::empty(),
        }
    }
}

/// Executes the receive loop's decision on one inbound item.
pub fn receive_step(family: Family, inbound: &Inbound) -> (r: StepOutcome)
    ensures
        r == step_spec(family, *inbound),
{
    match inbound {
        Inbound::ReadError => StepOutcome::ReadFailed,
        Inbound::Packet { data, source, entry_millis, now_millis } => {
            match classify(family, data) {
                Err(_) => StepOutcome::MalformedPacket,
                Ok(c) => {
                    let rtt: u64 = if *now_millis >= *entry_millis {
                        *now_millis - *entry_millis
                    } else {
                        0
                    };
                    let stop = match c.kind {
                        ReplyKind::EchoReply => true,
                        _ => false,
                    };
                    StepOutcome::Reply {
                        event: ReplyEvent {
                            kind: c.kind,
                            type_code: c.type_code,
                            source: *source,
                            rtt_millis: rtt,
                            identifier: c.identifier,
                            sequence: c.sequence,
                        },
                        stop,
                    }
                },
            }
        },
    }
}

/// What one whole run of the receive loop produced: the events it
/// emitted, how many inbound items it consumed, and whether it stopped
/// of its own accord (echo reply or read failure) rather than running
/// out of input.
pub struct ReceiveOutcome {
    pub events: Vec<ReplyEvent>,
    pub consumed: usize,
    pub terminated: bool,
}

/// Drives the receive loop over a finite sequence of inbound items, as a
/// transport would hand them over: each item is classified and its event
/// emitted, until an echo reply or a read failure ends the loop or the
/// input runs out.
pub fn run_receive(family: Family, inputs: &Vec<Inbound>) -> (r: ReceiveOutcome)
    ensures
        r.consumed <= inputs@.len(),
        r.events@ == events_upto(family, inputs@, r.consumed as int),
        forall|j: int|
            0 <= j < r.consumed ==> (stops(family, inputs@[j]) <==> (r.terminated && j
                == r.consumed - 1)),
        r.terminated ==> r.consumed >= 1,
        !r.terminated ==> r.consumed == inputs@.len(),
{
    let mut events: Vec<ReplyEvent> = Vec::new();
    let mut i: usize = 0;
    let mut terminated = false;
    while i < inputs.len()
        invariant_except_break
            i <= inputs@.len(),
            events@ == events_upto(family, inputs@, i as int),
            forall|j: int| 0 <= j < i ==> !stops(family, inputs@[j]),
            !terminated,
        ensures
            i <= inputs@.len(),
            events@ == events_upto(family, inputs@, i as int),
            forall|j: int|
                0 <= j < i ==> (stops(family, inputs@[j]) <==> (terminated && j == i - 1)),
            terminated ==> i >= 1,
            !terminated ==> i == inputs@.len(),
        decreases inputs@.len() - i,
    {
        let step = receive_step(family, &inputs[i]);
        i = i + 1;
        match step {
            StepOutcome::Reply { event, stop } => {
                events.push(event);
                if stop {
                    terminated = true;
                    break ;
                }
            },
            StepOutcome::MalformedPacket => {},
            StepOutcome::ReadFailed => {
                terminated = true;
                break ;
            },
        }
    }
    ReceiveOutcome { events, consumed: i, terminated }
}

/// A run whose first inbound item answers the probe stops at once: any
/// outcome meeting the receive loop's contract, on input whose first item
/// classifies as an echo reply, has consumed exactly that one item,
/// terminated, and emitted exactly one event — an echo reply.
pub proof fn lemma_first_echo_reply_terminates(
    family: Family,
    s: Seq<Inbound>,
    consumed: int,
    terminated: bool,
    events: Seq<ReplyEvent>,
)
    requires
        s.len() >= 1,
        emitted(family, s[0]) is Some,
        emitted(family, s[0])->Some_0.kind is EchoReply,
        consumed <= s.len(),
        events == events_upto(family, s, consumed),
        forall|j: int| 0 <= j < consumed ==> (stops(family, s[j]) <==> (terminated && j == consumed - 1)),
        terminated ==> consumed >= 1,
        !terminated ==> consumed == s.len(),
    ensures
        terminated,
        consumed == 1,
        events.len() == 1,
        events[0].kind is EchoReply,
{
    assert(stops(family, s[0]));
    if consumed >= 1 {
        assert(stops(family, s[0]) <==> (terminated && 0 == consumed - 1));
    }
    reveal_with_fuel(events_upto, 2);
    assert(events_upto(family, s, 1) =~= Seq::<ReplyEvent>::empty() + seq![
        emitted(family, s[0])->Some_0,
    ]);
    assert(events[0] == emitted(family, s[0])->Some_0);
}

/// Over a lossy path the receive loop never stops of its own accord: if
/// every inbound item classifies to a non-terminating kind, any outcome
/// meeting the receive loop's contract consumed the whole input, did not
/// terminate, and emitted one event per item.
pub proof fn lemma_lossy_path_never_terminates(
    family: Family,
    s: Seq<Inbound>,
    consumed: int,
    terminated: bool,
    events: Seq<ReplyEvent>,
)
    requires
        forall|j: int|
            0 <= j < s.len() ==> (#[trigger] emitted(family, s[j]) is Some && !stops(family, s[j])),
        consumed <= s.len(),
        events == events_upto(family, s, consumed),
        forall|j: int| 0 <= j < consumed ==> (stops(family, s[j]) <==> (terminated && j == consumed - 1)),
        terminated ==> consumed >= 1,
        !terminated ==> consumed == s.len(),
    ensures
        !terminated,
        consumed == s.len(),
        events.len() == s.len(),
{
    if terminated {
        assert(stops(family, s[consumed - 1]));
    }
    lemma_events_upto_all_emit(family, s, consumed);
}

/// When every one of the first `n` inbound items emits an event, the
/// loop's output over them has exactly `n` events.
proof fn lemma_events_upto_all_emit(family: Family, s: Seq<Inbound>, n: int)
    requires
        n <= s.len(),
        forall|j: int| 0 <= j < n ==> #[trigger] emitted(family, s[j]) is Some,
    ensures
        events_upto(family, s, n).len() == if n >= 0 {
            n
        } else {
            0
        },
    decreases n,
{
    if n > 0 {
        lemma_events_upto_all_emit(family, s, n - 1);
    }
}

} // verus!
