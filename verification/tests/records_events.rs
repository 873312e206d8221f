use ldk_node_boundary::builder::Builder;
use ldk_node_boundary::errors::{error_code, ErrorKind, MalformedKind, RuntimeErrorKind};
use ldk_node_boundary::errors::node_error;
use ldk_node_boundary::events::{event_from_raw, Event, RawEvent};
use ldk_node_boundary::node::Node;
use ldk_node_boundary::records::{
    channel_snapshots, payment_snapshots, ChannelDetails, PaymentDetails, PeerDetails,
    RawChannelDetails, RawPaymentDetails,
};
use ldk_node_boundary::values::{Network, OutPoint, PaymentDirection, PaymentStatus};

const GENERATOR_HEX: &str = "0279be667ef9dcbbac55a06295ce870b07029bfcdb2dce28d959f2815b16f81798";

fn raw_channel() -> RawChannelDetails {
    RawChannelDetails {
        channel_id: vec![9u8; 32],
        counterparty_node_id: GENERATOR_HEX.to_string(),
        funding_txo: Some(OutPoint::new("ff".repeat(32), 1)),
        channel_value_sats: 1_000_000,
        unspendable_punishment_reserve: Some(354),
        user_channel_id: "42".to_string(),
        feerate_sat_per_1000_weight: 253,
        balance_msat: 900_000_000,
        outbound_capacity_msat: 800_000_000,
        inbound_capacity_msat: 100_000_000,
        confirmations_required: Some(6),
        confirmations: Some(2),
        is_outbound: true,
        is_channel_ready: false,
        is_usable: false,
        is_public: true,
        cltv_expiry_delta: Some(72),
    }
}

fn raw_payment() -> RawPaymentDetails {
    RawPaymentDetails {
        hash: vec![1u8; 32],
        preimage: None,
        secret: Some(vec![2u8; 32]),
        amount_msat: Some(1_000),
        direction: PaymentDirection::Inbound,
        status: PaymentStatus::Pending,
    }
}

#[test]
fn channel_snapshot_keeps_every_field() {
    let c = ChannelDetails::new(raw_channel()).unwrap();
    assert_eq!(c.channel_id.to_bytes(), vec![9u8; 32]);
    assert_eq!(c.counterparty_node_id, GENERATOR_HEX);
    assert_eq!(c.funding_txo.as_ref().unwrap().vout, 1);
    assert_eq!(c.channel_value_sats, 1_000_000);
    assert_eq!(c.unspendable_punishment_reserve, Some(354));
    assert_eq!(c.user_channel_id.user_channel_id_hex, "42");
    assert_eq!(c.balance_msat, 900_000_000);
    assert_eq!(c.confirmations_required, Some(6));
    assert_eq!(c.cltv_expiry_delta, Some(72));
}

#[test]
fn channel_snapshot_rejects_oversized_amounts() {
    let mut raw = raw_channel();
    raw.balance_msat = u64::MAX;
    let e = ChannelDetails::new(raw).unwrap_err();
    assert_eq!(e.kind, ErrorKind::Malformed(MalformedKind::AmountOutOfRange));

    let mut raw = raw_channel();
    raw.unspendable_punishment_reserve = Some(u32::MAX as u64 + 1);
    let e = ChannelDetails::new(raw).unwrap_err();
    assert_eq!(e.kind, ErrorKind::Malformed(MalformedKind::AmountOutOfRange));
}

#[test]
fn channel_snapshot_rejects_short_ids_first() {
    let mut raw = raw_channel();
    raw.channel_id = vec![9u8; 31];
    raw.balance_msat = u64::MAX;
    let e = ChannelDetails::new(raw).unwrap_err();
    assert_eq!(e.kind, ErrorKind::Malformed(MalformedKind::WrongLength));
}

#[test]
fn channel_snapshot_preserves_absence() {
    let mut raw = raw_channel();
    raw.funding_txo = None;
    raw.unspendable_punishment_reserve = None;
    raw.confirmations_required = None;
    raw.cltv_expiry_delta = None;
    let c = ChannelDetails::new(raw).unwrap();
    assert_eq!(c.funding_txo, None);
    assert_eq!(c.unspendable_punishment_reserve, None);
    assert_eq!(c.confirmations_required, None);
    assert_eq!(c.cltv_expiry_delta, None);
}

#[test]
fn channel_list_converts_in_order_and_fails_on_first_bad() {
    let list = channel_snapshots(vec![raw_channel(), raw_channel()]).unwrap();
    assert_eq!(list.len(), 2);

    let mut bad = raw_channel();
    bad.channel_value_sats = u64::MAX;
    let e = channel_snapshots(vec![raw_channel(), bad]).unwrap_err();
    assert_eq!(e.kind, ErrorKind::Malformed(MalformedKind::AmountOutOfRange));
}

#[test]
fn payment_snapshot_keeps_fields_and_absence() {
    let p = PaymentDetails::new(raw_payment()).unwrap();
    assert_eq!(p.hash.to_bytes(), vec![1u8; 32]);
    assert!(p.preimage.is_none());
    assert_eq!(p.secret.as_ref().unwrap().to_bytes(), vec![2u8; 32]);
    assert_eq!(p.amount_msat, Some(1_000));
    assert_eq!(p.direction, PaymentDirection::Inbound);
    assert_eq!(p.status, PaymentStatus::Pending);
}

#[test]
fn payment_snapshot_rejects_bad_lengths_and_amounts() {
    let mut raw = raw_payment();
    raw.secret = Some(vec![2u8; 16]);
    let e = PaymentDetails::new(raw).unwrap_err();
    assert_eq!(e.kind, ErrorKind::Malformed(MalformedKind::WrongLength));

    let mut raw = raw_payment();
    raw.amount_msat = Some(u64::MAX);
    let e = PaymentDetails::new(raw).unwrap_err();
    assert_eq!(e.kind, ErrorKind::Malformed(MalformedKind::AmountOutOfRange));
}

#[test]
fn payment_list_converts_every_record() {
    let list = payment_snapshots(vec![raw_payment(), raw_payment(), raw_payment()]).unwrap();
    assert_eq!(list.len(), 3);
}

#[test]
fn peer_snapshot_keeps_fields() {
    let p = PeerDetails::new(GENERATOR_HEX.to_string(), "127.0.0.1:9735".to_string(), true, false);
    assert_eq!(p.node_id, GENERATOR_HEX);
    assert_eq!(p.address, "127.0.0.1:9735");
    assert!(p.is_persisted);
    assert!(!p.is_connected);
}

#[test]
fn events_convert_faithfully() {
    let e = event_from_raw(RawEvent::PaymentReceived { payment_hash: vec![3u8; 32], amount_msat: 777 })
        .unwrap();
    match e {
        Event::PaymentReceived(v) => {
            assert_eq!(v.payment_hash.to_bytes(), vec![3u8; 32]);
            assert_eq!(v.amount_msat, 777);
        }
        other => panic!("wrong variant: {:?}", other),
    }

    let e = event_from_raw(RawEvent::ChannelPending {
        channel_id: vec![4u8; 32],
        user_channel_id: "99".to_string(),
        former_temporary_channel_id: vec![5u8; 32],
        counterparty_node_id: GENERATOR_HEX.to_uppercase(),
        funding_txo: OutPoint::new("aa".repeat(32), 0),
    })
    .unwrap();
    match e {
        Event::ChannelPending(v) => {
            assert_eq!(v.channel_id.to_bytes(), vec![4u8; 32]);
            assert_eq!(v.former_temporary_channel_id.to_bytes(), vec![5u8; 32]);
            // The key is canonicalized, not copied.
            assert_eq!(v.counterparty_node_id.canonical, GENERATOR_HEX);
            assert_eq!(v.funding_txo.vout, 0);
        }
        other => panic!("wrong variant: {:?}", other),
    }

    let e = event_from_raw(RawEvent::ChannelClosed {
        channel_id: vec![6u8; 32],
        user_channel_id: "1".to_string(),
        counterparty_node_id: None,
    })
    .unwrap();
    match e {
        Event::ChannelClosed(v) => assert!(v.counterparty_node_id.is_none()),
        other => panic!("wrong variant: {:?}", other),
    }
}

#[test]
fn events_reject_malformed_input() {
    let e = event_from_raw(RawEvent::PaymentSuccessful { payment_hash: vec![1u8; 31] }).unwrap_err();
    assert_eq!(e.kind, ErrorKind::Malformed(MalformedKind::WrongLength));

    let e = event_from_raw(RawEvent::ChannelReady {
        channel_id: vec![1u8; 32],
        user_channel_id: "1".to_string(),
        counterparty_node_id: Some("nonsense".to_string()),
    })
    .unwrap_err();
    assert_eq!(e.kind, ErrorKind::Malformed(MalformedKind::BadPublicKey));
}

fn built_node() -> Node {
    let mut b = Builder::new();
    b.set_entropy_seed_bytes(vec![7u8; 64]).unwrap();
    b.set_storage_dir_path("/tmp/x".to_string()).unwrap();
    b.set_network(Network::Regtest).unwrap();
    b.build().unwrap()
}

#[test]
fn acknowledgment_is_keyed_to_the_delivered_event() {
    let mut node = built_node();
    // Nothing delivered yet: acknowledging is a no-op, nothing to ack.
    assert!(node.event_handled().is_none());

    let ev = event_from_raw(RawEvent::PaymentSuccessful { payment_hash: vec![8u8; 32] }).unwrap();
    node.record_delivered(Some(ev.clone()));
    // The acknowledgment names exactly the delivered event, once.
    assert_eq!(node.event_handled(), Some(ev));
    assert!(node.event_handled().is_none());
}

#[test]
fn at_most_one_wait_is_in_flight() {
    let mut node = built_node();
    assert!(node.begin_wait());
    assert!(!node.begin_wait());
    let ev = event_from_raw(RawEvent::PaymentFailed { payment_hash: vec![9u8; 32] }).unwrap();
    node.finish_wait(ev.clone());
    assert!(node.begin_wait());
    // The awaited event was delivered and can be acknowledged.
    node.finish_wait(ev.clone());
    assert_eq!(node.event_handled(), Some(ev));
}

#[test]
fn peer_failure_and_funds_failure_have_distinct_codes() {
    let peer = node_error(RuntimeErrorKind::ConnectionFailed, "Network connection closed.".to_string());
    let funds = node_error(
        RuntimeErrorKind::InsufficientFunds,
        "There are insufficient funds to complete the given operation.".to_string(),
    );
    assert_ne!(peer.code, funds.code);
    assert_eq!(peer.code, error_code(&ErrorKind::Runtime(RuntimeErrorKind::ConnectionFailed)));
    assert_eq!(peer.code, 303);
    assert_eq!(funds.code, 329);
    assert_eq!(peer.message, "Network connection closed.");
}
