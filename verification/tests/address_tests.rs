use rebel_protocol::address::{
    bytes_eq, derive_proposal_address, derive_strategy_address, derive_vote_record_address,
};
use rebel_protocol::webhook::{to_hex, verify_signature};

#[test]
fn addresses_are_32_byte_digests() {
    assert_eq!(derive_strategy_address(10, 1).len(), 32);
    assert_eq!(derive_proposal_address(0).len(), 32);
    let p = derive_proposal_address(0);
    assert_eq!(derive_vote_record_address(&p, 21).len(), 32);
}

#[test]
fn addressing_is_deterministic() {
    assert_eq!(derive_strategy_address(10, 1), derive_strategy_address(10, 1));
    assert_eq!(derive_proposal_address(7), derive_proposal_address(7));
}

#[test]
fn different_records_get_different_addresses() {
    assert_ne!(derive_strategy_address(10, 1), derive_strategy_address(10, 2));
    assert_ne!(derive_strategy_address(10, 1), derive_strategy_address(11, 1));
    assert_ne!(derive_strategy_address(10, 1), derive_proposal_address(10));
    let p = derive_proposal_address(0);
    assert_ne!(derive_vote_record_address(&p, 21), derive_vote_record_address(&p, 22));
}

#[test]
fn byte_equality_is_exact() {
    let a = vec![1u8, 2, 3];
    let b = vec![1u8, 2, 3];
    let c = vec![1u8, 2, 4];
    let d = vec![1u8, 2];
    assert!(bytes_eq(&a, &b));
    assert!(!bytes_eq(&a, &c));
    assert!(!bytes_eq(&a, &d));
}

#[test]
fn hex_encoding_is_lower_case_two_digits_per_byte() {
    assert_eq!(to_hex(&vec![0xbe, 0xef]), "beef");
    assert_eq!(to_hex(&vec![0x00, 0x0a, 0xff]), "000aff");
    assert_eq!(to_hex(&vec![]), "");
}

#[test]
fn webhook_signature_matches_the_known_tag() {
    // the HMAC-SHA-256 tag of this message under this key is documented
    // by the hmac crate itself
    let payload = "input message";
    let secret = "my secret and secure key";
    let good = "97d2a569059bbcd8ead4444ff99071f4c01d005bcefe0d3567e1be628e5fdcd9";
    assert!(verify_signature(payload, good, secret));
    assert!(!verify_signature(payload, "deadbeef", secret));
    assert!(!verify_signature("another message", good, secret));
}
