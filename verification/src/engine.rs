//! Trusted declarations for the engine crate.
//!
//! Everything the verified code learns about the engine it learns from the
//! contracts in this module. Each wrapper makes one engine call; what a
//! call returns is given a name (an uninterpreted spec function) where its
//! exact value cannot be stated in a few lines, and the rest of the crate
//! reasons over those names.

use vstd::prelude::*;

use std::str::FromStr;

verus! {

/// The canonical rendering of `host:port` as a socket address, if the pair
/// parses as one.
pub uninterp spec fn sockaddr_canon(host: Seq<char>, port: u16) -> Option<Seq<char>>;

/// The canonical rendering of a public-key string, if it parses as a valid
/// curve point.
pub uninterp spec fn pubkey_canon(s: Seq<char>) -> Option<Seq<char>>;

/// The canonical rendering of an on-chain address string, if it parses.
pub uninterp spec fn address_canon(s: Seq<char>) -> Option<Seq<char>>;

/// Whether a string is a well-formed, semantically valid invoice.
pub uninterp spec fn invoice_wf(s: Seq<char>) -> bool;

/// Whether a string is a well-formed mnemonic sentence.
pub uninterp spec fn mnemonic_wf(s: Seq<char>) -> bool;

/// Relies on `SocketAddress::from_str` and its `Display`: parsing accepts
/// exactly the host:port forms the engine accepts, and a parsed address
/// renders canonically.
#[verifier::external_body]
pub(crate) fn canon_socket_addr(host: &str, port: u16) -> (r: Option<String>)
    ensures
        r is Some <==> sockaddr_canon(host@, port) is Some,
        r matches Some(s) ==> Some(s@) == sockaddr_canon(host@, port),
{
    let joined = format!("{}:{}", host, port);
    match ldk_node::lightning::ln::msgs::SocketAddress::from_str(&joined) {
        Ok(a) => Some(a.to_string()),
        Err(_) => None,
    }
}

/// Relies on secp256k1's `PublicKey::from_str` and its `Display`: parsing
/// accepts exactly the hex encodings of valid curve points, and a parsed
/// key renders as the 66 lowercase hex digits of its compressed form,
/// which re-parse to the same key.
#[verifier::external_body]
pub(crate) fn canon_public_key(s: &str) -> (r: Option<String>)
    ensures
        r is Some <==> pubkey_canon(s@) is Some,
        r matches Some(c) ==> Some(c@) == pubkey_canon(s@),
        r matches Some(c) ==> c@.len() == 66,
        r matches Some(c) ==> pubkey_canon(c@) == Some(c@),
{
    match ldk_node::bitcoin::secp256k1::PublicKey::from_str(s) {
        Ok(k) => Some(k.to_string()),
        Err(_) => None,
    }
}

/// Relies on bitcoin's `Address::from_str` and its `Display`: parsing
/// accepts exactly the well-formed address encodings (of any network), and
/// a parsed address renders canonically.
#[verifier::external_body]
pub(crate) fn canon_address(s: &str) -> (r: Option<String>)
    ensures
        r is Some <==> address_canon(s@) is Some,
        r matches Some(c) ==> Some(c@) == address_canon(s@),
{
    match ldk_node::bitcoin::Address::from_str(s) {
        Ok(a) => Some(a.assume_checked().to_string()),
        Err(_) => None,
    }
}

/// Relies on `Bolt11Invoice::from_str`: it accepts exactly the well-formed,
/// semantically valid invoice strings.
#[verifier::external_body]
pub(crate) fn invoice_parses(s: &str) -> (r: bool)
    ensures
        r == invoice_wf(s@),
{
    ldk_node::lightning_invoice::Bolt11Invoice::from_str(s).is_ok()
}

/// Relies on bip39's `Mnemonic::from_str`: it accepts exactly the
/// well-formed mnemonic sentences.
#[verifier::external_body]
pub(crate) fn mnemonic_parses(s: &str) -> (r: bool)
    ensures
        r == mnemonic_wf(s@),
{
    ldk_node::bip39::Mnemonic::from_str(s).is_ok()
}

} // verus!
