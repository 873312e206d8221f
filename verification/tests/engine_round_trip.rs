// Drives the real engine once, offline: builds a regtest node from a fixed
// seed in a temporary storage directory, then holds what the engine hands
// back against the boundary's converters.

use ldk_node_boundary::values::{check_invoice, Network, PublicKey};

#[test]
fn engine_values_pass_the_boundary_converters() {
    let mut builder = ldk_node::Builder::new();
    builder.set_entropy_seed_bytes(vec![7u8; 64]).unwrap();
    builder.set_network(ldk_node::Network::Regtest);
    builder.set_storage_dir_path("/tmp/ldk_node_boundary_it".to_string());
    let node = builder.build().unwrap();

    // The engine's node id is a valid public key in canonical form: the
    // boundary accepts it and canonicalizing changes nothing.
    let node_id = node.node_id().to_string();
    let key = PublicKey::new(node_id.clone()).unwrap();
    assert_eq!(key.canonical, node_id);
    assert_eq!(key.canonical.len(), 66);

    // An invoice created by the engine is well formed for the boundary's
    // validator and carries the regtest invoice prefix.
    let invoice = node.receive_payment(1_000, "test", 3_600).unwrap().to_string();
    assert!(check_invoice(&invoice).is_ok());
    assert!(invoice.starts_with(Network::Regtest.invoice_prefix()));

    // A message signed by the engine verifies against the engine's key.
    let msg = b"boundary".to_vec();
    let sig = node.sign_message(&msg).unwrap();
    assert!(node.verify_signature(&msg, &sig, &node.node_id()));
    assert!(!node.verify_signature(b"other", &sig, &node.node_id()));
}
