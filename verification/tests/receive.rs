use icmp_probe::receive::{receive_step, run_receive, Inbound, ReplyEvent, StepOutcome};
use icmp_probe::classify::ReplyKind;
use icmp_probe::{Family, HostAddr};

fn hop(n: u8) -> HostAddr {
    HostAddr::V4([10, 0, 0, n])
}

fn packet(data: Vec<u8>, source: HostAddr, entry_millis: u64, now_millis: u64) -> Inbound {
    Inbound::Packet { data, source, entry_millis, now_millis }
}

fn echo_reply_v4(id: u16, seq: u16) -> Vec<u8> {
    vec![0, 0, 0, 0, (id >> 8) as u8, id as u8, (seq >> 8) as u8, seq as u8]
}

fn time_exceeded_v4() -> Vec<u8> {
    vec![11, 0, 0, 0, 0, 0, 0, 0]
}

#[test]
fn echo_reply_on_first_read_terminates_after_one_event() {
    let inputs = vec![
        packet(echo_reply_v4(0xbeef, 5), hop(9), 100, 135),
        packet(time_exceeded_v4(), hop(1), 200, 210),
        packet(time_exceeded_v4(), hop(2), 300, 310),
    ];
    let outcome = run_receive(Family::V4, &inputs);
    assert!(outcome.terminated);
    assert_eq!(outcome.consumed, 1);
    assert_eq!(outcome.events.len(), 1);
    let event = &outcome.events[0];
    assert_eq!(event.kind, ReplyKind::EchoReply);
    assert_eq!(event.identifier, Some(0xbeef));
    assert_eq!(event.sequence, Some(5));
    assert_eq!(event.source, hop(9));
    assert_eq!(event.rtt_millis, 35);
}

#[test]
fn lossy_path_emits_every_event_and_never_terminates() {
    let n = 5;
    let inputs: Vec<Inbound> = (0..n)
        .map(|i| packet(time_exceeded_v4(), hop(i as u8 + 1), 0, 10 * i as u64))
        .collect();
    let outcome = run_receive(Family::V4, &inputs);
    assert!(!outcome.terminated);
    assert_eq!(outcome.consumed, n);
    assert_eq!(outcome.events.len(), n);
    for (i, event) in outcome.events.iter().enumerate() {
        assert_eq!(event.kind, ReplyKind::TimeExceeded);
        assert_eq!(event.source, hop(i as u8 + 1));
    }
}

#[test]
fn read_error_terminates_without_an_event() {
    let inputs = vec![
        packet(time_exceeded_v4(), hop(1), 0, 4),
        Inbound::ReadError,
        packet(echo_reply_v4(1, 1), hop(2), 0, 5),
    ];
    let outcome = run_receive(Family::V4, &inputs);
    assert!(outcome.terminated);
    assert_eq!(outcome.consumed, 2);
    assert_eq!(outcome.events.len(), 1);
    assert_eq!(outcome.events[0].kind, ReplyKind::TimeExceeded);
}

#[test]
fn malformed_packets_are_skipped_not_fatal() {
    let inputs = vec![
        packet(vec![11, 0], hop(1), 0, 1),
        packet(time_exceeded_v4(), hop(2), 0, 2),
        packet(echo_reply_v4(7, 3), hop(3), 0, 3),
    ];
    let outcome = run_receive(Family::V4, &inputs);
    assert!(outcome.terminated);
    assert_eq!(outcome.consumed, 3);
    assert_eq!(outcome.events.len(), 2);
    assert_eq!(outcome.events[0].kind, ReplyKind::TimeExceeded);
    assert_eq!(outcome.events[1].kind, ReplyKind::EchoReply);
}

#[test]
fn empty_input_consumes_nothing() {
    let outcome = run_receive(Family::V6, &Vec::new());
    assert!(!outcome.terminated);
    assert_eq!(outcome.consumed, 0);
    assert!(outcome.events.is_empty());
}

#[test]
fn step_computes_rtt_from_reference_instant() {
    let step = receive_step(
        Family::V4,
        &packet(time_exceeded_v4(), hop(1), 1_000, 1_250),
    );
    match step {
        StepOutcome::Reply { event, stop } => {
            assert_eq!(event.rtt_millis, 250);
            assert!(!stop);
        }
        other => panic!("expected a reply outcome, got {:?}", other),
    }
}

#[test]
fn step_clamps_backwards_clock_to_zero() {
    let step = receive_step(Family::V4, &packet(time_exceeded_v4(), hop(1), 500, 400));
    match step {
        StepOutcome::Reply { event, .. } => assert_eq!(event.rtt_millis, 0),
        other => panic!("expected a reply outcome, got {:?}", other),
    }
}

#[test]
fn step_reports_malformed_and_read_failures() {
    let step = receive_step(Family::V6, &packet(vec![129, 0, 0], hop(1), 0, 1));
    assert_eq!(step, StepOutcome::MalformedPacket);
    assert_eq!(receive_step(Family::V6, &Inbound::ReadError), StepOutcome::ReadFailed);
}

#[test]
fn v6_echo_reply_terminates_too() {
    let source = HostAddr::V6([0xfe, 0x80, 0, 0, 0, 0, 0, 0, 0, 0, 0, 0, 0, 0, 0, 1]);
    let inputs = vec![Inbound::Packet {
        data: vec![129, 0, 0, 0, 0x12, 0x34, 0x00, 0x02],
        source,
        entry_millis: 10,
        now_millis: 18,
    }];
    let outcome = run_receive(Family::V6, &inputs);
    assert!(outcome.terminated);
    let event: &ReplyEvent = &outcome.events[0];
    assert_eq!(event.kind, ReplyKind::EchoReply);
    assert_eq!(event.identifier, Some(0x1234));
    assert_eq!(event.sequence, Some(2));
    assert_eq!(event.rtt_millis, 8);
}
