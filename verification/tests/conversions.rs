use ldk_node_boundary::amounts::{narrow_amount, narrow_optional_amount, narrow_u64_to_u32, widen_u32_to_u64};
use ldk_node_boundary::errors::{ErrorKind, MalformedKind};
use ldk_node_boundary::values::{
    ChannelConfig, ChannelId, LogLevel, Network, OutPoint, PaymentHash, PaymentPreimage,
    PaymentSecret, Txid, UserChannelId,
};

#[test]
fn channel_id_round_trips_32_bytes() {
    let bytes: Vec<u8> = (0u8..32u8).collect();
    let id = ChannelId::from_bytes(bytes.clone()).unwrap();
    assert_eq!(id.to_bytes(), bytes);
    let again = ChannelId::from_bytes(id.to_bytes()).unwrap();
    assert_eq!(again, id);
}

#[test]
fn channel_id_rejects_wrong_length() {
    for len in [0usize, 1, 31, 33, 64] {
        let e = ChannelId::from_bytes(vec![7u8; len]).unwrap_err();
        assert_eq!(e.kind, ErrorKind::Malformed(MalformedKind::WrongLength));
        assert_eq!(e.code, 100);
    }
}

#[test]
fn payment_hash_round_trips_and_rejects() {
    let bytes = vec![0xabu8; 32];
    let h = PaymentHash::from_bytes(bytes.clone()).unwrap();
    assert_eq!(h.to_bytes(), bytes);
    let e = PaymentHash::from_bytes(vec![0xabu8; 20]).unwrap_err();
    assert_eq!(e.kind, ErrorKind::Malformed(MalformedKind::WrongLength));
}

#[test]
fn payment_preimage_round_trips_and_rejects() {
    let bytes = vec![0x01u8; 32];
    let p = PaymentPreimage::from_bytes(bytes.clone()).unwrap();
    assert_eq!(p.to_bytes(), bytes);
    assert!(PaymentPreimage::from_bytes(Vec::new()).is_err());
}

#[test]
fn payment_secret_round_trips_and_rejects() {
    let bytes = vec![0xffu8; 32];
    let s = PaymentSecret::from_bytes(bytes.clone()).unwrap();
    assert_eq!(s.to_bytes(), bytes);
    assert!(PaymentSecret::from_bytes(vec![0u8; 33]).is_err());
}

#[test]
fn narrowing_rejects_out_of_range_amounts() {
    assert_eq!(narrow_u64_to_u32(u32::MAX as u64), Some(u32::MAX));
    assert_eq!(narrow_u64_to_u32(u32::MAX as u64 + 1), None);
    assert_eq!(narrow_u64_to_u32(u64::MAX), None);
    let e = narrow_amount(5_000_000_000).unwrap_err();
    assert_eq!(e.kind, ErrorKind::Malformed(MalformedKind::AmountOutOfRange));
    assert_eq!(e.code, 106);
}

#[test]
fn narrowing_is_exact_in_range() {
    for v in [0u32, 1, 999, 100_000_000, u32::MAX] {
        let wide = widen_u32_to_u64(v);
        assert_eq!(narrow_amount(wide).unwrap(), v);
    }
}

#[test]
fn optional_narrowing_preserves_absence() {
    assert_eq!(narrow_optional_amount(&None).unwrap(), None);
    assert_eq!(narrow_optional_amount(&Some(42)).unwrap(), Some(42));
    assert!(narrow_optional_amount(&Some(u64::MAX)).is_err());
}

#[test]
fn invoice_prefix_per_network() {
    assert_eq!(Network::Bitcoin.invoice_prefix(), "lnbc");
    assert_eq!(Network::Regtest.invoice_prefix(), "lnbcrt");
    assert_eq!(Network::Signet.invoice_prefix(), "lntbs");
    assert_eq!(Network::Testnet.invoice_prefix(), "lntb");
}

#[test]
fn log_levels_keep_their_order() {
    let ordered = [
        LogLevel::Gossip,
        LogLevel::Trace,
        LogLevel::Debug,
        LogLevel::Info,
        LogLevel::Warn,
        LogLevel::Error,
    ];
    for pair in ordered.windows(2) {
        assert!(pair[0].rank() < pair[1].rank());
    }
}

#[test]
fn plain_value_constructors_keep_fields() {
    let o = OutPoint::new("txid".to_string(), 3);
    assert_eq!(o.txid, "txid");
    assert_eq!(o.vout, 3);
    let u = UserChannelId::from("12345".to_string());
    assert_eq!(u.user_channel_id_hex, "12345");
    let t = Txid::new("deadbeef".to_string());
    assert_eq!(t.field0, "deadbeef");
    let c = ChannelConfig::new(10, 1000, 72, 5000, 100);
    assert_eq!(c.forwarding_fee_proportional_millionths, 10);
    assert_eq!(c.forwarding_fee_base_msat, 1000);
    assert_eq!(c.cltv_expiry_delta, 72);
    assert_eq!(c.max_dust_htlc_exposure_msat, 5000);
    assert_eq!(c.force_close_avoidance_max_fee_satoshis, 100);
}
