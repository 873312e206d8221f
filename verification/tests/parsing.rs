use ldk_node_boundary::errors::{ErrorKind, MalformedKind};
use ldk_node_boundary::values::{check_invoice, Address, NetAddress, PublicKey};

const GENERATOR_HEX: &str = "0279be667ef9dcbbac55a06295ce870b07029bfcdb2dce28d959f2815b16f81798";

#[test]
fn net_address_accepts_host_and_port() {
    let a = NetAddress::new("127.0.0.1".to_string(), 9735).unwrap();
    assert_eq!(a.host, "127.0.0.1");
    assert_eq!(a.port, 9735);
    assert_eq!(a.canonical, "127.0.0.1:9735");
}

#[test]
fn net_address_accepts_hostnames() {
    let a = NetAddress::new("example.com".to_string(), 80).unwrap();
    assert_eq!(a.canonical, "example.com:80");
}

#[test]
fn net_address_rejects_port_out_of_range() {
    let e = NetAddress::new("127.0.0.1".to_string(), 65_536).unwrap_err();
    assert_eq!(e.kind, ErrorKind::Malformed(MalformedKind::BadSocketAddress));
    assert_eq!(e.code, 101);
}

#[test]
fn net_address_rejects_malformed_hosts() {
    let e = NetAddress::new("not a host!".to_string(), 80).unwrap_err();
    assert_eq!(e.kind, ErrorKind::Malformed(MalformedKind::BadSocketAddress));
}

#[test]
fn public_key_accepts_valid_point() {
    let k = PublicKey::new(GENERATOR_HEX.to_string()).unwrap();
    assert_eq!(k.canonical, GENERATOR_HEX);
    assert_eq!(k.canonical.len(), 66);
}

#[test]
fn public_key_canonicalizes_uppercase_hex() {
    let upper = GENERATOR_HEX.to_uppercase();
    let k = PublicKey::new(upper.clone()).unwrap();
    assert_ne!(k.canonical, upper);
    assert_eq!(k.canonical, GENERATOR_HEX);
}

#[test]
fn public_key_rejects_invalid_input() {
    for bad in ["", "02", "zz", "020000000000000000000000000000000000000000000000000000000000000000"] {
        let e = PublicKey::new(bad.to_string()).unwrap_err();
        assert_eq!(e.kind, ErrorKind::Malformed(MalformedKind::BadPublicKey));
        assert_eq!(e.code, 102);
    }
}

#[test]
fn address_canonicalizes_uppercase_bech32() {
    // The uppercase segwit test vector of BIP 173; its canonical form is
    // lowercase, so the converter must transform it.
    let upper = "BC1QW508D6QEJXTDG4Y5R3ZARVARY0C5XW7KV8F3T4";
    let a = Address::new(upper.to_string()).canonicalize().unwrap();
    assert_eq!(a.address_hex, upper.to_lowercase());
}

#[test]
fn address_accepts_base58() {
    let a = Address::new("1A1zP1eP5QGefi2DMPTfTL5SLmv7DivfNa".to_string());
    let c = a.canonicalize().unwrap();
    assert_eq!(c.address_hex, "1A1zP1eP5QGefi2DMPTfTL5SLmv7DivfNa");
}

#[test]
fn address_rejects_malformed_input() {
    let e = Address::new("definitely not an address".to_string()).canonicalize().unwrap_err();
    assert_eq!(e.kind, ErrorKind::Malformed(MalformedKind::BadAddress));
    assert_eq!(e.code, 103);
}

#[test]
fn invoice_validation_rejects_malformed_input() {
    for bad in ["", "lnbc1notaninvoice", "hello"] {
        let e = check_invoice(&bad.to_string()).unwrap_err();
        assert_eq!(e.kind, ErrorKind::Malformed(MalformedKind::BadInvoice));
        assert_eq!(e.code, 104);
    }
}
