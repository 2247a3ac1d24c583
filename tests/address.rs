use bech32::ToBase32;
use hpl_mailbox::address::{address_to_bytes, bytes_to_address, left_pad_address, validate_address};
use hpl_mailbox::error::ContractError;

fn enc(hrp: &str, raw: &[u8]) -> String {
    bech32::encode(hrp, raw.to_base32(), bech32::Variant::Bech32).unwrap()
}

#[test]
fn address_round_trip_through_wire_form() {
    let raw: Vec<u8> = (1..21u8).collect();
    let a = enc("osmo", &raw);
    let wire = address_to_bytes(&a).unwrap();
    assert_eq!(wire.len(), 32);
    assert_eq!(&wire[..12], &[0u8; 12]);
    assert_eq!(&wire[12..], &raw[..]);
    assert_eq!(bytes_to_address(&"osmo".to_string(), &wire), Ok(a));
}

#[test]
fn full_width_address_kept_whole() {
    let raw: Vec<u8> = (1..33u8).collect();
    let a = bytes_to_address(&"neutron".to_string(), &raw).unwrap();
    assert_eq!(a, enc("neutron", &raw));
    assert_eq!(address_to_bytes(&a), Ok(raw));
}

#[test]
fn left_pad_limits() {
    assert_eq!(left_pad_address(&vec![]), Ok(vec![0u8; 32]));
    assert_eq!(left_pad_address(&vec![5u8; 32]), Ok(vec![5u8; 32]));
    assert_eq!(left_pad_address(&vec![5u8; 33]), Err(ContractError::InvalidAddressLength { len: 33 }));
}

#[test]
fn validate_checks_prefix() {
    let a = enc("osmo", &[1u8; 20]);
    assert_eq!(validate_address(&"osmo".to_string(), &a), Ok(()));
    assert_eq!(validate_address(&"neutron".to_string(), &a), Err(ContractError::InvalidAddress));
    assert_eq!(address_to_bytes(&"nonsense".to_string()), Err(ContractError::InvalidAddress));
}
