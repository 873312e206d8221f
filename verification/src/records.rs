//! Read-only snapshots of engine state: peers, channels and payments.
//!
//! The engine hands the boundary its own records; the thin unverified rim
//! copies each into a raw form of plain values, and the verified
//! converters here turn the raw form into the boundary's snapshot types,
//! length-checking every fixed-length field and narrowing every amount
//! without truncation.

use vstd::prelude::*;

use crate::amounts::narrow_amount;
use crate::amounts::narrow_optional_amount;
use crate::errors::BoundaryError;
use crate::errors::ErrorKind;
use crate::errors::MalformedKind;
use crate::errors::error_wf;
use crate::values::ChannelId;
use crate::values::OutPoint;
use crate::values::PaymentDirection;
use crate::values::PaymentHash;
use crate::values::PaymentPreimage;
use crate::values::PaymentSecret;
use crate::values::PaymentStatus;
use crate::values::UserChannelId;

verus! {

/// A known peer, as last reported by the engine.
#[derive(Clone, Debug, PartialEq, Eq)]
pub struct PeerDetails {
    pub node_id: String,
    pub address: String,
    pub is_persisted: bool,
    pub is_connected: bool,
}

impl PeerDetails {
    /// A peer snapshot with the given fields.
    pub fn new(node_id: String, address: String, is_persisted: bool, is_connected: bool) -> (r:
        PeerDetails)
        ensures
            r.node_id@ == node_id@,
            r.address@ == address@,
            r.is_persisted == is_persisted,
            r.is_connected == is_connected,
    {
        PeerDetails { node_id, address, is_persisted, is_connected }
    }
}

/// A channel record exactly as the engine reports it, with the engine's
/// 64-bit amounts, before the boundary's checked narrowing.
pub struct RawChannelDetails {
    pub channel_id: Vec<u8>,
    pub counterparty_node_id: String,
    pub funding_txo: Option<OutPoint>,
    pub channel_value_sats: u64,
    pub unspendable_punishment_reserve: Option<u64>,
    pub user_channel_id: String,
    pub feerate_sat_per_1000_weight: u32,
    pub balance_msat: u64,
    pub outbound_capacity_msat: u64,
    pub inbound_capacity_msat: u64,
    pub confirmations_required: Option<u32>,
    pub confirmations: Option<u32>,
    pub is_outbound: bool,
    pub is_channel_ready: bool,
    pub is_usable: bool,
    pub is_public: bool,
    pub cltv_expiry_delta: Option<u16>,
}

/// Whether a raw channel record can be represented on the boundary: the
/// identifier has its exact length and every amount fits 32 bits.
pub open spec fn raw_channel_ok(raw: RawChannelDetails) -> bool {
    &&& raw.channel_id@.len() == 32
    &&& raw.channel_value_sats <= u32::MAX
    &&& raw.balance_msat <= u32::MAX
    &&& raw.outbound_capacity_msat <= u32::MAX
    &&& raw.inbound_capacity_msat <= u32::MAX
    &&& (raw.unspendable_punishment_reserve matches Some(v) ==> v <= u32::MAX)
}

/// An immutable snapshot of one channel, in boundary-safe form.
#[derive(Clone, Debug, PartialEq, Eq)]
pub struct ChannelDetails {
    pub channel_id: ChannelId,
    pub counterparty_node_id: String,
    pub funding_txo: Option<OutPoint>,
    pub channel_value_sats: u32,
    pub unspendable_punishment_reserve: Option<u32>,
    pub user_channel_id: UserChannelId,
    pub feerate_sat_per_1000_weight: u32,
    pub balance_msat: u32,
    pub outbound_capacity_msat: u32,
    pub inbound_capacity_msat: u32,
    pub confirmations_required: Option<u32>,
    pub confirmations: Option<u32>,
    pub is_outbound: bool,
    pub is_channel_ready: bool,
    pub is_usable: bool,
    pub is_public: bool,
    pub cltv_expiry_delta: Option<u16>,
}

/// The snapshot is the faithful conversion of the raw record: bytes and
/// strings are kept exactly, amounts are narrowed without change of value,
/// and an absent optional stays absent.
pub open spec fn channel_matches_raw(c: ChannelDetails, raw: RawChannelDetails) -> bool {
    &&& c.channel_id@ == raw.channel_id@
    &&& c.counterparty_node_id@ == raw.counterparty_node_id@
    &&& c.funding_txo == raw.funding_txo
    &&& c.channel_value_sats == raw.channel_value_sats as u32
    &&& (c.unspendable_punishment_reserve is None <==> raw.unspendable_punishment_reserve is None)
    &&& (raw.unspendable_punishment_reserve matches Some(v) ==> c.unspendable_punishment_reserve
        == Some(v as u32))
    &&& c.user_channel_id.user_channel_id_hex@ == raw.user_channel_id@
    &&& c.feerate_sat_per_1000_weight == raw.feerate_sat_per_1000_weight
    &&& c.balance_msat == raw.balance_msat as u32
    &&& c.outbound_capacity_msat == raw.outbound_capacity_msat as u32
    &&& c.inbound_capacity_msat == raw.inbound_capacity_msat as u32
    &&& c.confirmations_required == raw.confirmations_required
    &&& c.confirmations == raw.confirmations
    &&& c.is_outbound == raw.is_outbound
    &&& c.is_channel_ready == raw.is_channel_ready
    &&& c.is_usable == raw.is_usable
    &&& c.is_public == raw.is_public
    &&& c.cltv_expiry_delta == raw.cltv_expiry_delta
}

impl ChannelDetails {
    /// Convert a raw engine record: the channel identifier must be exactly
    /// 32 bytes and every amount must fit 32 bits; an absent optional stays
    /// absent and is never replaced by zero.
    pub fn new(raw: RawChannelDetails) -> (r: Result<ChannelDetails, BoundaryError>)
        ensures
            r is Ok <==> raw_channel_ok(raw),
            r matches Ok(c) ==> channel_matches_raw(c, raw),
            raw.channel_id@.len() != 32 ==> (r matches Err(e) && e.kind == ErrorKind::Malformed(
                MalformedKind::WrongLength,
            ) && error_wf(e)),
            (raw.channel_id@.len() == 32 && !raw_channel_ok(raw)) ==> (r matches Err(e) && e.kind
                == ErrorKind::Malformed(MalformedKind::AmountOutOfRange) && error_wf(e)),
    {
        let RawChannelDetails {
            channel_id,
            counterparty_node_id,
            funding_txo,
            channel_value_sats,
            unspendable_punishment_reserve,
            user_channel_id,
            feerate_sat_per_1000_weight,
            balance_msat,
            outbound_capacity_msat,
            inbound_capacity_msat,
            confirmations_required,
            confirmations,
            is_outbound,
            is_channel_ready,
            is_usable,
            is_public,
            cltv_expiry_delta,
        } = raw;
        let channel_id = match ChannelId::from_bytes(channel_id) {
            Ok(c) => c,
            Err(e) => {
                return Err(e);
            },
        };
        let channel_value_sats = match narrow_amount(channel_value_sats) {
            Ok(v) => v,
            Err(e) => {
                return Err(e);
            },
        };
        let unspendable_punishment_reserve = match narrow_optional_amount(
            &unspendable_punishment_reserve,
        ) {
            Ok(v) => v,
            Err(e) => {
                return Err(e);
            },
        };
        let balance_msat = match narrow_amount(balance_msat) {
            Ok(v) => v,
            Err(e) => {
                return Err(e);
            },
        };
        let outbound_capacity_msat = match narrow_amount(outbound_capacity_msat) {
            Ok(v) => v,
            Err(e) => {
                return Err(e);
            },
        };
        let inbound_capacity_msat = match narrow_amount(inbound_capacity_msat) {
            Ok(v) => v,
            Err(e) => {
                return Err(e);
            },
        };
        Ok(ChannelDetails {
            channel_id,
            counterparty_node_id,
            funding_txo,
            channel_value_sats,
            unspendable_punishment_reserve,
            user_channel_id: UserChannelId::from(user_channel_id),
            feerate_sat_per_1000_weight,
            balance_msat,
            outbound_capacity_msat,
            inbound_capacity_msat,
            confirmations_required,
            confirmations,
            is_outbound,
            is_channel_ready,
            is_usable,
            is_public,
            cltv_expiry_delta,
        })
    }
}

/// A payment record exactly as the engine reports it, before the
/// boundary's length checks and checked narrowing.
pub struct RawPaymentDetails {
    pub hash: Vec<u8>,
    pub preimage: Option<Vec<u8>>,
    pub secret: Option<Vec<u8>>,
    pub amount_msat: Option<u64>,
    pub direction: PaymentDirection,
    pub status: PaymentStatus,
}

/// Whether a raw payment record can be represented on the boundary: the
/// fixed-length fields have their exact length and the amount fits 32 bits.
pub open spec fn raw_payment_ok(raw: RawPaymentDetails) -> bool {
    &&& raw.hash@.len() == 32
    &&& (raw.preimage matches Some(p) ==> p@.len() == 32)
    &&& (raw.secret matches Some(s) ==> s@.len() == 32)
    &&& (raw.amount_msat matches Some(a) ==> a <= u32::MAX)
}

/// Whether the fixed-length fields of a raw payment record all have their
/// exact length.
pub open spec fn raw_payment_lengths_ok(raw: RawPaymentDetails) -> bool {
    &&& raw.hash@.len() == 32
    &&& (raw.preimage matches Some(p) ==> p@.len() == 32)
    &&& (raw.secret matches Some(s) ==> s@.len() == 32)
}

/// An immutable snapshot of one payment, in boundary-safe form.
#[derive(Clone, Debug, PartialEq, Eq)]
pub struct PaymentDetails {
    pub hash: PaymentHash,
    pub preimage: Option<PaymentPreimage>,
    pub secret: Option<PaymentSecret>,
    pub amount_msat: Option<u32>,
    pub direction: PaymentDirection,
    pub status: PaymentStatus,
}

/// The snapshot is the faithful conversion of the raw record: bytes are
/// kept exactly, the amount is narrowed without change of value, and an
/// absent optional stays absent.
pub open spec fn payment_matches_raw(p: PaymentDetails, raw: RawPaymentDetails) -> bool {
    &&& p.hash@ == raw.hash@
    &&& (p.preimage is None <==> raw.preimage is None)
    &&& (raw.preimage matches Some(pre) ==> (p.preimage matches Some(q) && q@ == pre@))
    &&& (p.secret is None <==> raw.secret is None)
    &&& (raw.secret matches Some(sec) ==> (p.secret matches Some(q) && q@ == sec@))
    &&& (p.amount_msat is None <==> raw.amount_msat is None)
    &&& (raw.amount_msat matches Some(a) ==> p.amount_msat == Some(a as u32))
    &&& p.direction == raw.direction
    &&& p.status == raw.status
}

impl PaymentDetails {
    /// Convert a raw engine record: the hash, and the preimage and secret
    /// where present, must be exactly 32 bytes, and the amount must fit 32
    /// bits; an absent optional stays absent and is never replaced by an
    /// empty value or zero.
    pub fn new(raw: RawPaymentDetails) -> (r: Result<PaymentDetails, BoundaryError>)
        ensures
            r is Ok <==> raw_payment_ok(raw),
            r matches Ok(p) ==> payment_matches_raw(p, raw),
            !raw_payment_lengths_ok(raw) ==> (r matches Err(e) && e.kind == ErrorKind::Malformed(
                MalformedKind::WrongLength,
            ) && error_wf(e)),
            (raw_payment_lengths_ok(raw) && !raw_payment_ok(raw)) ==> (r matches Err(e) && e.kind
                == ErrorKind::Malformed(MalformedKind::AmountOutOfRange) && error_wf(e)),
    {
        let RawPaymentDetails { hash, preimage, secret, amount_msat, direction, status } = raw;
        let hash = match PaymentHash::from_bytes(hash) {
            Ok(h) => h,
            Err(e) => {
                return Err(e);
            },
        };
        let preimage = match preimage {
            None => None,
            Some(p) => match PaymentPreimage::from_bytes(p) {
                Ok(q) => Some(q),
                Err(e) => {
                    return Err(e);
                },
            },
        };
        let secret = match secret {
            None => None,
            Some(s) => match PaymentSecret::from_bytes(s) {
                Ok(q) => Some(q),
                Err(e) => {
                    return Err(e);
                },
            },
        };
        let amount_msat = match narrow_optional_amount(&amount_msat) {
            Ok(v) => v,
            Err(e) => {
                return Err(e);
            },
        };
        Ok(PaymentDetails { hash, preimage, secret, amount_msat, direction, status })
    }
}

/// Whether every record of a raw channel list can be represented on the
/// boundary.
pub open spec fn all_channels_ok(raws: Seq<RawChannelDetails>) -> bool {
    forall|i: int| 0 <= i < raws.len() ==> raw_channel_ok(#[trigger] raws[i])
}

/// Convert every raw channel record the engine handed back, in order,
/// failing on the first record that cannot be represented.
pub fn channel_snapshots(raws: Vec<RawChannelDetails>) -> (r: Result<
    Vec<ChannelDetails>,
    BoundaryError,
>)
    ensures
        r is Ok <==> all_channels_ok(raws@),
        r matches Ok(v) ==> v@.len() == raws@.len() && (forall|i: int|
            0 <= i < raws@.len() ==> channel_matches_raw(#[trigger] v@[i], raws@[i])),
        r matches Err(e) ==> error_wf(e) && (e.kind == ErrorKind::Malformed(
            MalformedKind::WrongLength,
        ) || e.kind == ErrorKind::Malformed(MalformedKind::AmountOutOfRange)),
{
    let ghost all = raws@;
    let mut out: Vec<ChannelDetails> = Vec::new();
    let mut rest = raws;
    let mut i: usize = 0;
    let n = rest.len();
    proof {
        assert(rest@ =~= all.subrange(0, n as int));
    }
    while i < n
        invariant
            all == raws@,
            n == all.len(),
            rest@ == all.subrange(i as int, n as int),
            i <= n,
            out@.len() == i,
            forall|j: int| 0 <= j < i ==> raw_channel_ok(#[trigger] all[j]),
            forall|j: int| 0 <= j < i ==> channel_matches_raw(#[trigger] out@[j], all[j]),
        decreases n - i,
    {
        let raw = rest.remove(0);
        proof {
            assert(all[i as int] == raw);
        }
        match ChannelDetails::new(raw) {
            Ok(c) => out.push(c),
            Err(e) => {
                proof {
                    assert(!raw_channel_ok(all[i as int]));
                    assert(exists|k: int|
                        0 <= k < all.len() && !raw_channel_ok(#[trigger] all[k]));
                    assert(!all_channels_ok(all));
                }
                return Err(e);
            },
        }
        i = i + 1;
        proof {
            assert(rest@ =~= all.subrange(i as int, n as int));
        }
    }
    Ok(out)
}

/// Whether every record of a raw payment list can be represented on the
/// boundary.
pub open spec fn all_payments_ok(raws: Seq<RawPaymentDetails>) -> bool {
    forall|i: int| 0 <= i < raws.len() ==> raw_payment_ok(#[trigger] raws[i])
}

/// Convert every raw payment record the engine handed back, in order,
/// failing on the first record that cannot be represented.
pub fn payment_snapshots(raws: Vec<RawPaymentDetails>) -> (r: Result<
    Vec<PaymentDetails>,
    BoundaryError,
>)
    ensures
        r is Ok <==> all_payments_ok(raws@),
        r matches Ok(v) ==> v@.len() == raws@.len() && (forall|i: int|
            0 <= i < raws@.len() ==> payment_matches_raw(#[trigger] v@[i], raws@[i])),
        r matches Err(e) ==> error_wf(e) && (e.kind == ErrorKind::Malformed(
            MalformedKind::WrongLength,
        ) || e.kind == ErrorKind::Malformed(MalformedKind::AmountOutOfRange)),
{
    let ghost all = raws@;
    let mut out: Vec<PaymentDetails> = Vec::new();
    let mut rest = raws;
    let mut i: usize = 0;
    let n = rest.len();
    proof {
        assert(rest@ =~= all.subrange(0, n as int));
    }
    while i < n
        invariant
            all == raws@,
            n == all.len(),
            rest@ == all.subrange(i as int, n as int),
            i <= n,
            out@.len() == i,
            forall|j: int| 0 <= j < i ==> raw_payment_ok(#[trigger] all[j]),
            forall|j: int| 0 <= j < i ==> payment_matches_raw(#[trigger] out@[j], all[j]),
        decreases n - i,
    {
        let raw = rest.remove(0);
        proof {
            assert(all[i as int] == raw);
        }
        match PaymentDetails::new(raw) {
            Ok(p) => out.push(p),
            Err(e) => {
                proof {
                    assert(!raw_payment_ok(all[i as int]));
                    assert(exists|k: int|
                        0 <= k < all.len() && !raw_payment_ok(#[trigger] all[k]));
                    assert(!all_payments_ok(all));
                }
                return Err(e);
            },
        }
        i = i + 1;
        proof {
            assert(rest@ =~= all.subrange(i as int, n as int));
        }
    }
    Ok(out)
}

} // verus!
