//! Boundary-safe value types and their converters.
//!
//! Every converter is total over well-formed input and rejects malformed
//! input with a typed error instead of panicking: fixed-length byte fields
//! are length-checked in both directions, and nothing is truncated.

use vstd::prelude::*;

use crate::engine::address_canon;
use crate::engine::canon_address;
use crate::engine::canon_public_key;
use crate::engine::canon_socket_addr;
use crate::engine::invoice_parses;
use crate::engine::invoice_wf;
use crate::engine::pubkey_canon;
use crate::engine::sockaddr_canon;
use crate::errors::BoundaryError;
use crate::errors::ErrorKind;
use crate::errors::MalformedKind;
use crate::errors::error_wf;
use crate::errors::malformed;

verus! {

/// The chain network the node targets.
#[derive(Clone, Copy, Debug, PartialEq, Eq, Structural)]
pub enum Network {
    Bitcoin,
    Regtest,
    Signet,
    Testnet,
}

/// The human-readable prefix every invoice for the given network starts
/// with.
pub open spec fn invoice_prefix_of(n: Network) -> Seq<char> {
    match n {
        Network::Bitcoin => "lnbc"@,
        Network::Regtest => "lnbcrt"@,
        Network::Signet => "lntbs"@,
        Network::Testnet => "lntb"@,
    }
}

impl Network {
    /// The prefix every invoice created on this network starts with.
    pub fn invoice_prefix(&self) -> (r: &str)
        ensures
            r@ == invoice_prefix_of(*self),
    {
        match self {
            Network::Bitcoin => "lnbc",
            Network::Regtest => "lnbcrt",
            Network::Signet => "lntbs",
            Network::Testnet => "lntb",
        }
    }
}

/// The verbosity threshold for the node's logging, ordered from the most
/// verbose to the most severe.
#[derive(Clone, Copy, Debug, PartialEq, Eq, Structural)]
pub enum LogLevel {
    Gossip,
    Trace,
    Debug,
    Info,
    Warn,
    Error,
}

/// The position of a log level in the severity order: `Gossip` is the most
/// verbose, `Error` the most severe.
pub open spec fn log_level_rank_of(l: LogLevel) -> u32 {
    match l {
        LogLevel::Gossip => 0u32,
        LogLevel::Trace => 1u32,
        LogLevel::Debug => 2u32,
        LogLevel::Info => 3u32,
        LogLevel::Warn => 4u32,
        LogLevel::Error => 5u32,
    }
}

impl LogLevel {
    /// The rank of this level in the severity order, preserved exactly
    /// across the boundary.
    pub fn rank(&self) -> (r: u32)
        ensures
            r == log_level_rank_of(*self),
    {
        match self {
            LogLevel::Gossip => 0,
            LogLevel::Trace => 1,
            LogLevel::Debug => 2,
            LogLevel::Info => 3,
            LogLevel::Warn => 4,
            LogLevel::Error => 5,
        }
    }
}

/// The direction of a payment, seen from this node.
#[derive(Clone, Copy, Debug, PartialEq, Eq, Structural)]
pub enum PaymentDirection {
    Inbound,
    Outbound,
}

/// The status of a payment.
#[derive(Clone, Copy, Debug, PartialEq, Eq, Structural)]
pub enum PaymentStatus {
    Pending,
    Succeeded,
    Failed,
}

/// Copy a byte vector element by element.
pub(crate) fn copy_bytes(v: &Vec<u8>) -> (r: Vec<u8>)
    ensures
        r@ == v@,
{
    let mut out: Vec<u8> = Vec::new();
    let mut i: usize = 0;
    while i < v.len()
        invariant
            i <= v@.len(),
            out@ == v@.subrange(0, i as int),
        decreases v@.len() - i,
    {
        out.push(v[i]);
        assert(out@ =~= v@.subrange(0, i + 1 as int));
        i = i + 1;
    }
    assert(out@ =~= v@);
    out
}

/// What converting a boundary byte sequence into a 32-byte engine value
/// yields: the same bytes when the length is exactly 32, nothing otherwise.
pub open spec fn spec_fixed32(b: Seq<u8>) -> Option<Seq<u8>> {
    if b.len() == 32 {
        Some(b)
    } else {
        None
    }
}

/// Every valid 32-byte value survives the round trip through the boundary
/// representation unchanged: converting the bytes read back out of a value
/// accepts them and reproduces exactly the same bytes.
pub proof fn lemma_fixed32_round_trip(b: Seq<u8>)
    requires
        b.len() == 32,
    ensures
        spec_fixed32(b) == Some(b),
{
}

/// A 32-byte channel identifier.
#[derive(Clone, Debug, PartialEq, Eq)]
pub struct ChannelId {
    bytes: Vec<u8>,
}

impl View for ChannelId {
    type V = Seq<u8>;

    closed spec fn view(&self) -> Seq<u8> {
        self.bytes@
    }
}

impl ChannelId {
    /// True of every value this module can construct.
    pub open spec fn wf(&self) -> bool {
        self@.len() == 32
    }

    /// Accept exactly 32 bytes; reject any other length as malformed.
    pub fn from_bytes(bytes: Vec<u8>) -> (r: Result<ChannelId, BoundaryError>)
        ensures
            r matches Ok(c) ==> Some(c@) == spec_fixed32(bytes@) && c.wf(),
            r is Ok <==> bytes@.len() == 32,
            r matches Err(e) ==> e.kind == ErrorKind::Malformed(MalformedKind::WrongLength)
                && error_wf(e),
    {
        if bytes.len() == 32 {
            Ok(ChannelId { bytes })
        } else {
            Err(malformed(MalformedKind::WrongLength))
        }
    }

    /// The identifier's bytes, exactly as accepted.
    pub fn to_bytes(&self) -> (r: Vec<u8>)
        ensures
            r@ == self@,
    {
        copy_bytes(&self.bytes)
    }
}

/// A 32-byte payment hash.
#[derive(Clone, Debug, PartialEq, Eq)]
pub struct PaymentHash {
    bytes: Vec<u8>,
}

impl View for PaymentHash {
    type V = Seq<u8>;

    closed spec fn view(&self) -> Seq<u8> {
        self.bytes@
    }
}

impl PaymentHash {
    /// True of every value this module can construct.
    pub open spec fn wf(&self) -> bool {
        self@.len() == 32
    }

    /// Accept exactly 32 bytes; reject any other length as malformed.
    pub fn from_bytes(bytes: Vec<u8>) -> (r: Result<PaymentHash, BoundaryError>)
        ensures
            r matches Ok(c) ==> Some(c@) == spec_fixed32(bytes@) && c.wf(),
            r is Ok <==> bytes@.len() == 32,
            r matches Err(e) ==> e.kind == ErrorKind::Malformed(MalformedKind::WrongLength)
                && error_wf(e),
    {
        if bytes.len() == 32 {
            Ok(PaymentHash { bytes })
        } else {
            Err(malformed(MalformedKind::WrongLength))
        }
    }

    /// The hash's bytes, exactly as accepted.
    pub fn to_bytes(&self) -> (r: Vec<u8>)
        ensures
            r@ == self@,
    {
        copy_bytes(&self.bytes)
    }
}

/// A 32-byte payment preimage.
#[derive(Clone, Debug, PartialEq, Eq)]
pub struct PaymentPreimage {
    bytes: Vec<u8>,
}

impl View for PaymentPreimage {
    type V = Seq<u8>;

    closed spec fn view(&self) -> Seq<u8> {
        self.bytes@
    }
}

impl PaymentPreimage {
    /// True of every value this module can construct.
    pub open spec fn wf(&self) -> bool {
        self@.len() == 32
    }

    /// Accept exactly 32 bytes; reject any other length as malformed.
    pub fn from_bytes(bytes: Vec<u8>) -> (r: Result<PaymentPreimage, BoundaryError>)
        ensures
            r matches Ok(c) ==> Some(c@) == spec_fixed32(bytes@) && c.wf(),
            r is Ok <==> bytes@.len() == 32,
            r matches Err(e) ==> e.kind == ErrorKind::Malformed(MalformedKind::WrongLength)
                && error_wf(e),
    {
        if bytes.len() == 32 {
            Ok(PaymentPreimage { bytes })
        } else {
            Err(malformed(MalformedKind::WrongLength))
        }
    }

    /// The preimage's bytes, exactly as accepted.
    pub fn to_bytes(&self) -> (r: Vec<u8>)
        ensures
            r@ == self@,
    {
        copy_bytes(&self.bytes)
    }
}

/// A 32-byte payment secret.
#[derive(Clone, Debug, PartialEq, Eq)]
pub struct PaymentSecret {
    bytes: Vec<u8>,
}

impl View for PaymentSecret {
    type V = Seq<u8>;

    closed spec fn view(&self) -> Seq<u8> {
        self.bytes@
    }
}

impl PaymentSecret {
    /// True of every value this module can construct.
    pub open spec fn wf(&self) -> bool {
        self@.len() == 32
    }

    /// Accept exactly 32 bytes; reject any other length as malformed.
    pub fn from_bytes(bytes: Vec<u8>) -> (r: Result<PaymentSecret, BoundaryError>)
        ensures
            r matches Ok(c) ==> Some(c@) == spec_fixed32(bytes@) && c.wf(),
            r is Ok <==> bytes@.len() == 32,
            r matches Err(e) ==> e.kind == ErrorKind::Malformed(MalformedKind::WrongLength)
                && error_wf(e),
    {
        if bytes.len() == 32 {
            Ok(PaymentSecret { bytes })
        } else {
            Err(malformed(MalformedKind::WrongLength))
        }
    }

    /// The secret's bytes, exactly as accepted.
    pub fn to_bytes(&self) -> (r: Vec<u8>)
        ensures
            r@ == self@,
    {
        copy_bytes(&self.bytes)
    }
}

/// A reachable host and port, validated and kept beside its canonical
/// socket-address rendering.
#[derive(Clone, Debug, PartialEq, Eq)]
pub struct NetAddress {
    pub host: String,
    pub port: u16,
    pub canonical: String,
}

impl NetAddress {
    /// Accept a host and port exactly when they parse as a socket address;
    /// the port must also fit 16 bits. Malformed input is rejected, never
    /// truncated or panicked on.
    pub fn new(ipv4: String, port: u32) -> (r: Result<NetAddress, BoundaryError>)
        ensures
            r is Ok <==> (port <= u16::MAX && sockaddr_canon(ipv4@, port as u16) is Some),
            r matches Ok(a) ==> a.host@ == ipv4@ && a.port == port && Some(a.canonical@)
                == sockaddr_canon(ipv4@, port as u16),
            r matches Err(e) ==> e.kind == ErrorKind::Malformed(MalformedKind::BadSocketAddress)
                && error_wf(e),
    {
        if port > u16::MAX as u32 {
            return Err(malformed(MalformedKind::BadSocketAddress));
        }
        let port16: u16 = port as u16;
        match canon_socket_addr(ipv4.as_str(), port16) {
            Some(canonical) => Ok(NetAddress { host: ipv4, port: port16, canonical }),
            None => Err(malformed(MalformedKind::BadSocketAddress)),
        }
    }

    /// An identical copy of the address.
    pub fn duplicate(&self) -> (r: NetAddress)
        ensures
            r == *self,
    {
        NetAddress { host: self.host.clone(), port: self.port, canonical: self.canonical.clone() }
    }
}

/// A node identity: a validated public key, kept in its canonical form of
/// 66 lowercase hex digits encoding the compressed curve point.
#[derive(Clone, Debug, PartialEq, Eq)]
pub struct PublicKey {
    pub canonical: String,
}

impl PublicKey {
    /// Accept a string exactly when it encodes a valid curve point; the
    /// accepted key is kept canonically, so rendering it and parsing the
    /// rendering reproduces it.
    pub fn new(node_id: String) -> (r: Result<PublicKey, BoundaryError>)
        ensures
            r is Ok <==> pubkey_canon(node_id@) is Some,
            r matches Ok(k) ==> Some(k.canonical@) == pubkey_canon(node_id@),
            r matches Ok(k) ==> k.canonical@.len() == 66 && pubkey_canon(k.canonical@)
                == Some(k.canonical@),
            r matches Err(e) ==> e.kind == ErrorKind::Malformed(MalformedKind::BadPublicKey)
                && error_wf(e),
    {
        match canon_public_key(node_id.as_str()) {
            Some(canonical) => Ok(PublicKey { canonical }),
            None => Err(malformed(MalformedKind::BadPublicKey)),
        }
    }

    /// An identical copy of the key.
    pub fn duplicate(&self) -> (r: PublicKey)
        ensures
            r == *self,
    {
        PublicKey { canonical: self.canonical.clone() }
    }
}

/// An on-chain address in its human-readable encoding.
#[derive(Clone, Debug, PartialEq, Eq)]
pub struct Address {
    pub address_hex: String,
}

impl Address {
    /// Wrap an address string as received; validation happens in
    /// [`Address::canonicalize`] before the engine is ever handed one.
    pub fn new(address_hex: String) -> (r: Address)
        ensures
            r.address_hex@ == address_hex@,
    {
        Address { address_hex }
    }

    /// Accept the address exactly when its encoding parses, yielding the
    /// canonical rendering; reject it as malformed otherwise.
    pub fn canonicalize(&self) -> (r: Result<Address, BoundaryError>)
        ensures
            r is Ok <==> address_canon(self.address_hex@) is Some,
            r matches Ok(a) ==> Some(a.address_hex@) == address_canon(self.address_hex@),
            r matches Err(e) ==> e.kind == ErrorKind::Malformed(MalformedKind::BadAddress)
                && error_wf(e),
    {
        match canon_address(self.address_hex.as_str()) {
            Some(canonical) => Ok(Address { address_hex: canonical }),
            None => Err(malformed(MalformedKind::BadAddress)),
        }
    }
}

/// Accept an invoice string exactly when it is well formed; the engine is
/// never handed one that the converters already know is invalid.
pub fn check_invoice(invoice: &String) -> (r: Result<(), BoundaryError>)
    ensures
        r is Ok <==> invoice_wf(invoice@),
        r matches Err(e) ==> e.kind == ErrorKind::Malformed(MalformedKind::BadInvoice)
            && error_wf(e),
{
    if invoice_parses(invoice.as_str()) {
        Ok(())
    } else {
        Err(malformed(MalformedKind::BadInvoice))
    }
}

/// A reference to a transaction output; absent while a channel's funding is
/// not yet negotiated.
#[derive(Clone, Debug, PartialEq, Eq)]
pub struct OutPoint {
    pub txid: String,
    pub vout: u32,
}

impl OutPoint {
    /// A transaction output reference with the given fields.
    pub fn new(txid: String, vout: u32) -> (r: OutPoint)
        ensures
            r.txid@ == txid@,
            r.vout == vout,
    {
        OutPoint { txid, vout }
    }
}

/// A local, possibly user-provided channel identifier, carried as its
/// decimal string form.
#[derive(Clone, Debug, PartialEq, Eq)]
pub struct UserChannelId {
    pub user_channel_id_hex: String,
}

impl UserChannelId {
    /// Wrap the engine's decimal rendering of the identifier.
    pub fn from(user_channel_id_hex: String) -> (r: UserChannelId)
        ensures
            r.user_channel_id_hex@ == user_channel_id_hex@,
    {
        UserChannelId { user_channel_id_hex }
    }
}

/// A transaction identifier in its canonical hexadecimal form.
#[derive(Clone, Debug, PartialEq, Eq)]
pub struct Txid {
    pub field0: String,
}

impl Txid {
    /// Wrap the engine's canonical rendering of the identifier.
    pub fn new(txid: String) -> (r: Txid)
        ensures
            r.field0@ == txid@,
    {
        Txid { field0: txid }
    }
}

/// Negotiable per-channel policy, in the boundary's 32-bit form. Widening
/// to the engine's 64-bit fields is lossless.
#[derive(Clone, Copy, Debug, PartialEq, Eq, Structural)]
pub struct ChannelConfig {
    pub forwarding_fee_proportional_millionths: u32,
    pub forwarding_fee_base_msat: u32,
    pub cltv_expiry_delta: u16,
    pub max_dust_htlc_exposure_msat: u32,
    pub force_close_avoidance_max_fee_satoshis: u32,
}

impl ChannelConfig {
    /// A channel policy with the given fields.
    pub fn new(
        forwarding_fee_proportional_millionths: u32,
        forwarding_fee_base_msat: u32,
        cltv_expiry_delta: u16,
        max_dust_htlc_exposure_msat: u32,
        force_close_avoidance_max_fee_satoshis: u32,
    ) -> (r: ChannelConfig)
        ensures
            r == (ChannelConfig {
                forwarding_fee_proportional_millionths,
                forwarding_fee_base_msat,
                cltv_expiry_delta,
                max_dust_htlc_exposure_msat,
                force_close_avoidance_max_fee_satoshis,
            }),
    {
        ChannelConfig {
            forwarding_fee_proportional_millionths,
            forwarding_fee_base_msat,
            cltv_expiry_delta,
            max_dust_htlc_exposure_msat,
            force_close_avoidance_max_fee_satoshis,
        }
    }
}

} // verus!
