//! The boundary's view of engine events.
//!
//! The engine reports payment and channel events; the thin unverified rim
//! copies each into a raw form of plain values, and the verified converter
//! here turns the raw form into the boundary's event types, length-checking
//! every fixed-length field and validating every public key.

use vstd::prelude::*;

use crate::engine::pubkey_canon;
use crate::errors::BoundaryError;
use crate::errors::ErrorKind;
use crate::errors::MalformedKind;
use crate::errors::error_wf;
use crate::values::ChannelId;
use crate::values::OutPoint;
use crate::values::PaymentHash;
use crate::values::PublicKey;
use crate::values::UserChannelId;

verus! {

/// A sent payment was successful.
#[derive(Clone, Debug, PartialEq, Eq)]
pub struct PaymentSuccessful {
    pub payment_hash: PaymentHash,
}

/// A sent payment has failed.
#[derive(Clone, Debug, PartialEq, Eq)]
pub struct PaymentFailed {
    pub payment_hash: PaymentHash,
}

/// A payment has been received.
#[derive(Clone, Debug, PartialEq, Eq)]
pub struct PaymentReceived {
    pub payment_hash: PaymentHash,
    pub amount_msat: u64,
}

/// A channel has been created and is pending confirmation on-chain.
#[derive(Clone, Debug, PartialEq, Eq)]
pub struct ChannelPending {
    pub channel_id: ChannelId,
    pub user_channel_id: UserChannelId,
    pub former_temporary_channel_id: ChannelId,
    pub counterparty_node_id: PublicKey,
    pub funding_txo: OutPoint,
}

/// A channel is ready to be used.
#[derive(Clone, Debug, PartialEq, Eq)]
pub struct ChannelReady {
    pub channel_id: ChannelId,
    pub user_channel_id: UserChannelId,
    pub counterparty_node_id: Option<PublicKey>,
}

/// A channel has been closed.
#[derive(Clone, Debug, PartialEq, Eq)]
pub struct ChannelClosed {
    pub channel_id: ChannelId,
    pub user_channel_id: UserChannelId,
    pub counterparty_node_id: Option<PublicKey>,
}

/// One event delivered by the engine, in boundary-safe form.
#[derive(Clone, Debug, PartialEq, Eq)]
pub enum Event {
    PaymentSuccessful(PaymentSuccessful),
    PaymentFailed(PaymentFailed),
    PaymentReceived(PaymentReceived),
    ChannelPending(ChannelPending),
    ChannelReady(ChannelReady),
    ChannelClosed(ChannelClosed),
}

/// An event exactly as the engine reports it, in plain values, before the
/// boundary's checks.
#[derive(Clone, Debug, PartialEq, Eq)]
pub enum RawEvent {
    PaymentSuccessful { payment_hash: Vec<u8> },
    PaymentFailed { payment_hash: Vec<u8> },
    PaymentReceived { payment_hash: Vec<u8>, amount_msat: u64 },
    ChannelPending {
        channel_id: Vec<u8>,
        user_channel_id: String,
        former_temporary_channel_id: Vec<u8>,
        counterparty_node_id: String,
        funding_txo: OutPoint,
    },
    ChannelReady {
        channel_id: Vec<u8>,
        user_channel_id: String,
        counterparty_node_id: Option<String>,
    },
    ChannelClosed {
        channel_id: Vec<u8>,
        user_channel_id: String,
        counterparty_node_id: Option<String>,
    },
}

/// Whether every fixed-length field of a raw event has its exact length.
pub open spec fn raw_event_lengths_ok(raw: RawEvent) -> bool {
    match raw {
        RawEvent::PaymentSuccessful { payment_hash } => payment_hash@.len() == 32,
        RawEvent::PaymentFailed { payment_hash } => payment_hash@.len() == 32,
        RawEvent::PaymentReceived { payment_hash, .. } => payment_hash@.len() == 32,
        RawEvent::ChannelPending { channel_id, former_temporary_channel_id, .. } => channel_id@.len()
            == 32 && former_temporary_channel_id@.len() == 32,
        RawEvent::ChannelReady { channel_id, .. } => channel_id@.len() == 32,
        RawEvent::ChannelClosed { channel_id, .. } => channel_id@.len() == 32,
    }
}

/// Whether a raw event can be represented on the boundary: lengths are
/// exact and every carried public key parses.
pub open spec fn raw_event_ok(raw: RawEvent) -> bool {
    &&& raw_event_lengths_ok(raw)
    &&& (raw matches RawEvent::ChannelPending { counterparty_node_id, .. } ==> pubkey_canon(
        counterparty_node_id@,
    ) is Some)
    &&& (raw matches RawEvent::ChannelReady { counterparty_node_id: Some(k), .. } ==> pubkey_canon(
        k@,
    ) is Some)
    &&& (raw matches RawEvent::ChannelClosed { counterparty_node_id: Some(k), .. } ==> pubkey_canon(
        k@,
    ) is Some)
}

/// The event is the faithful conversion of the raw event: same variant,
/// bytes and strings kept exactly, public keys canonicalized, and an
/// absent optional kept absent.
pub open spec fn event_matches_raw(e: Event, raw: RawEvent) -> bool {
    match raw {
        RawEvent::PaymentSuccessful { payment_hash } => e matches Event::PaymentSuccessful(v)
            && v.payment_hash@ == payment_hash@,
        RawEvent::PaymentFailed { payment_hash } => e matches Event::PaymentFailed(v)
            && v.payment_hash@ == payment_hash@,
        RawEvent::PaymentReceived { payment_hash, amount_msat } => e matches Event::PaymentReceived(
            v,
        ) && v.payment_hash@ == payment_hash@ && v.amount_msat == amount_msat,
        RawEvent::ChannelPending {
            channel_id,
            user_channel_id,
            former_temporary_channel_id,
            counterparty_node_id,
            funding_txo,
        } => {
            &&& e matches Event::ChannelPending(v)
            &&& v.channel_id@ == channel_id@
            &&& v.user_channel_id.user_channel_id_hex@ == user_channel_id@
            &&& v.former_temporary_channel_id@ == former_temporary_channel_id@
            &&& Some(v.counterparty_node_id.canonical@) == pubkey_canon(counterparty_node_id@)
            &&& v.funding_txo == funding_txo
        },
        RawEvent::ChannelReady { channel_id, user_channel_id, counterparty_node_id } => {
            &&& e matches Event::ChannelReady(v)
            &&& v.channel_id@ == channel_id@
            &&& v.user_channel_id.user_channel_id_hex@ == user_channel_id@
            &&& (v.counterparty_node_id is None <==> counterparty_node_id is None)
            &&& (counterparty_node_id matches Some(k) ==> (v.counterparty_node_id matches Some(p)
                && Some(p.canonical@) == pubkey_canon(k@)))
        },
        RawEvent::ChannelClosed { channel_id, user_channel_id, counterparty_node_id } => {
            &&& e matches Event::ChannelClosed(v)
            &&& v.channel_id@ == channel_id@
            &&& v.user_channel_id.user_channel_id_hex@ == user_channel_id@
            &&& (v.counterparty_node_id is None <==> counterparty_node_id is None)
            &&& (counterparty_node_id matches Some(k) ==> (v.counterparty_node_id matches Some(p)
                && Some(p.canonical@) == pubkey_canon(k@)))
        },
    }
}

/// Convert a raw engine event: fixed-length fields must have their exact
/// length and every carried public key must parse; nothing is dropped and
/// nothing is defaulted.
pub fn event_from_raw(raw: RawEvent) -> (r: Result<Event, BoundaryError>)
    ensures
        r is Ok <==> raw_event_ok(raw),
        r matches Ok(e) ==> event_matches_raw(e, raw),
        !raw_event_lengths_ok(raw) ==> (r matches Err(e) && e.kind == ErrorKind::Malformed(
            MalformedKind::WrongLength,
        ) && error_wf(e)),
        (raw_event_lengths_ok(raw) && !raw_event_ok(raw)) ==> (r matches Err(e) && e.kind
            == ErrorKind::Malformed(MalformedKind::BadPublicKey) && error_wf(e)),
{
    match raw {
        RawEvent::PaymentSuccessful { payment_hash } => {
            let payment_hash = match PaymentHash::from_bytes(payment_hash) {
                Ok(h) => h,
                Err(e) => {
                    return Err(e);
                },
            };
            Ok(Event::PaymentSuccessful(PaymentSuccessful { payment_hash }))
        },
        RawEvent::PaymentFailed { payment_hash } => {
            let payment_hash = match PaymentHash::from_bytes(payment_hash) {
                Ok(h) => h,
                Err(e) => {
                    return Err(e);
                },
            };
            Ok(Event::PaymentFailed(PaymentFailed { payment_hash }))
        },
        RawEvent::PaymentReceived { payment_hash, amount_msat } => {
            let payment_hash = match PaymentHash::from_bytes(payment_hash) {
                Ok(h) => h,
                Err(e) => {
                    return Err(e);
                },
            };
            Ok(Event::PaymentReceived(PaymentReceived { payment_hash, amount_msat }))
        },
        RawEvent::ChannelPending {
            channel_id,
            user_channel_id,
            former_temporary_channel_id,
            counterparty_node_id,
            funding_txo,
        } => {
            let channel_id = match ChannelId::from_bytes(channel_id) {
                Ok(c) => c,
                Err(e) => {
                    return Err(e);
                },
            };
            let former_temporary_channel_id = match ChannelId::from_bytes(
                former_temporary_channel_id,
            ) {
                Ok(c) => c,
                Err(e) => {
                    return Err(e);
                },
            };
            let counterparty_node_id = match PublicKey::new(counterparty_node_id) {
                Ok(k) => k,
                Err(e) => {
                    return Err(e);
                },
            };
            Ok(
                Event::ChannelPending(
                    ChannelPending {
                        channel_id,
                        user_channel_id: UserChannelId::from(user_channel_id),
                        former_temporary_channel_id,
                        counterparty_node_id,
                        funding_txo,
                    },
                ),
            )
        },
        RawEvent::ChannelReady { channel_id, user_channel_id, counterparty_node_id } => {
            let channel_id = match ChannelId::from_bytes(channel_id) {
                Ok(c) => c,
                Err(e) => {
                    return Err(e);
                },
            };
            let counterparty_node_id = match counterparty_node_id {
                None => None,
                Some(k) => match PublicKey::new(k) {
                    Ok(p) => Some(p),
                    Err(e) => {
                        return Err(e);
                    },
                },
            };
            Ok(
                Event::ChannelReady(
                    ChannelReady {
                        channel_id,
                        user_channel_id: UserChannelId::from(user_channel_id),
                        counterparty_node_id,
                    },
                ),
            )
        },
        RawEvent::ChannelClosed { channel_id, user_channel_id, counterparty_node_id } => {
            let channel_id = match ChannelId::from_bytes(channel_id) {
                Ok(c) => c,
                Err(e) => {
                    return Err(e);
                },
            };
            let counterparty_node_id = match counterparty_node_id {
                None => None,
                Some(k) => match PublicKey::new(k) {
                    Ok(p) => Some(p),
                    Err(e) => {
                        return Err(e);
                    },
                },
            };
            Ok(
                Event::ChannelClosed(
                    ChannelClosed {
                        channel_id,
                        user_channel_id: UserChannelId::from(user_channel_id),
                        counterparty_node_id,
                    },
                ),
            )
        },
    }
}

} // verus!
