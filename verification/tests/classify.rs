use icmp_probe::classify::{
    classify, Classification, Malformed, ReplyKind, V6_NEIGHBOR_ADVERT, V6_NEIGHBOR_SOLICIT,
    V6_ROUTER_ADVERT,
};
use icmp_probe::Family;

fn kind_of(family: Family, buf: Vec<u8>) -> ReplyKind {
    classify(family, &buf).expect("well-formed buffer must classify").kind
}

#[test]
fn v4_dispatch_table() {
    assert_eq!(kind_of(Family::V4, vec![0, 0, 0, 0, 0, 0, 0, 0]), ReplyKind::EchoReply);
    assert_eq!(kind_of(Family::V4, vec![11, 0, 0, 0]), ReplyKind::TimeExceeded);
    assert_eq!(kind_of(Family::V4, vec![3, 1, 0, 0]), ReplyKind::DestinationUnreachable);
    assert_eq!(kind_of(Family::V4, vec![13, 0, 0, 0]), ReplyKind::Timestamp);
    assert_eq!(kind_of(Family::V4, vec![14, 0, 0, 0]), ReplyKind::Timestamp);
}

#[test]
fn v6_dispatch_table() {
    assert_eq!(kind_of(Family::V6, vec![129, 0, 0, 0, 0, 0, 0, 0]), ReplyKind::EchoReply);
    assert_eq!(kind_of(Family::V6, vec![3, 0, 0, 0]), ReplyKind::TimeExceeded);
    assert_eq!(kind_of(Family::V6, vec![1, 4, 0, 0]), ReplyKind::DestinationUnreachable);
}

#[test]
fn v6_neighbor_discovery_is_other() {
    assert_eq!(kind_of(Family::V6, vec![V6_ROUTER_ADVERT, 0, 0, 0]), ReplyKind::Other);
    assert_eq!(kind_of(Family::V6, vec![V6_NEIGHBOR_SOLICIT, 0, 0, 0]), ReplyKind::Other);
    assert_eq!(kind_of(Family::V6, vec![V6_NEIGHBOR_ADVERT, 0, 0, 0]), ReplyKind::Other);
}

#[test]
fn unknown_types_are_other_and_keep_their_tag() {
    for t in [5u8, 42, 128, 200, 255] {
        let c = classify(Family::V4, &vec![t, 0, 0, 0]);
        if t != 0 && t != 3 && t != 11 && t != 13 && t != 14 {
            let c = c.unwrap();
            assert_eq!(c.kind, ReplyKind::Other);
            assert_eq!(c.type_code, t);
        }
    }
    for t in [2u8, 100, 130, 133, 137, 255] {
        let c = classify(Family::V6, &vec![t, 0, 0, 0]).unwrap();
        assert_eq!(c.kind, ReplyKind::Other);
        assert_eq!(c.type_code, t);
    }
}

#[test]
fn echo_reply_fields_are_extracted() {
    let c = classify(Family::V4, &vec![0, 0, 0x12, 0x55, 0xab, 0xcd, 0x00, 0x2a]).unwrap();
    assert_eq!(
        c,
        Classification {
            kind: ReplyKind::EchoReply,
            type_code: 0,
            identifier: Some(0xabcd),
            sequence: Some(42),
        }
    );
    let c6 = classify(Family::V6, &vec![129, 0, 0, 0, 0x01, 0x02, 0x00, 0x07]).unwrap();
    assert_eq!(c6.identifier, Some(0x0102));
    assert_eq!(c6.sequence, Some(7));
}

#[test]
fn non_echo_kinds_carry_no_fields() {
    let c = classify(Family::V4, &vec![11, 0, 0, 0, 0xab, 0xcd, 0x00, 0x2a]).unwrap();
    assert_eq!(c.identifier, None);
    assert_eq!(c.sequence, None);
}

#[test]
fn short_buffers_are_malformed() {
    for len in 0..4usize {
        let buf = vec![11u8; len];
        assert_eq!(classify(Family::V4, &buf), Err(Malformed));
        assert_eq!(classify(Family::V6, &buf), Err(Malformed));
    }
}

#[test]
fn truncated_echo_reply_is_malformed() {
    for len in 4..8usize {
        let mut buf = vec![0u8; len];
        assert_eq!(classify(Family::V4, &buf), Err(Malformed));
        buf[0] = 129;
        assert_eq!(classify(Family::V6, &buf), Err(Malformed));
    }
    // At exactly the echo header length it classifies.
    assert!(classify(Family::V4, &vec![0u8; 8]).is_ok());
}

#[test]
fn minimum_length_buffers_classify_for_every_type() {
    for t in 0..=255u8 {
        let buf = vec![t, 0, 0, 0, 0, 0, 0, 0];
        assert!(classify(Family::V4, &buf).is_ok());
        assert!(classify(Family::V6, &buf).is_ok());
    }
}
