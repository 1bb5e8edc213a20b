use bettapay_settlement::address::{
    is_zero_address, validate_nonzero_address, Address, AddressKind, BytesN32,
};
use bettapay_settlement::env::Env;
use bettapay_settlement::errors::SettlementError;

#[test]
fn zero_address_is_recognised() {
    let zero = Address::account([0; 32]);
    assert!(is_zero_address(&zero));
}

#[test]
fn non_zero_address_is_not_flagged() {
    let mut env = Env::new();
    let address = env.generate_address(AddressKind::Account);
    assert!(!is_zero_address(&address));
}

#[test]
fn contract_address_with_zero_key_is_not_the_zero_address() {
    assert!(!is_zero_address(&Address::contract([0; 32])));
}

#[test]
fn account_with_one_nonzero_byte_is_not_the_zero_address() {
    let mut key = [0u8; 32];
    key[31] = 1;
    assert!(!is_zero_address(&Address::account(key)));
    key[31] = 0;
    key[0] = 0x80;
    assert!(!is_zero_address(&Address::account(key)));
}

#[test]
fn validate_nonzero_address_answers_with_the_given_zero_error() {
    let zero = Address::account([0; 32]);
    assert_eq!(
        validate_nonzero_address(&zero, SettlementError::EmptyAddress, SettlementError::ZeroAddress),
        Err(SettlementError::ZeroAddress)
    );
    assert_eq!(
        validate_nonzero_address(
            &zero,
            SettlementError::InvalidGovernance,
            SettlementError::InvalidGovernance
        ),
        Err(SettlementError::InvalidGovernance)
    );
    let other = Address::account([7; 32]);
    assert_eq!(
        validate_nonzero_address(&other, SettlementError::EmptyAddress, SettlementError::ZeroAddress),
        Ok(())
    );
}

#[test]
fn bytes_zero_check_and_equality() {
    assert!(BytesN32::from_array([0; 32]).is_zero());
    assert!(!BytesN32::from_array([1; 32]).is_zero());
    assert_eq!(BytesN32::from_array([3; 32]), BytesN32::from_array([3; 32]));
    assert_ne!(BytesN32::from_array([3; 32]), BytesN32::from_array([4; 32]));
}

#[test]
fn generated_addresses_are_distinct_and_of_the_asked_kind() {
    let mut env = Env::new();
    let a = env.generate_address(AddressKind::Account);
    let b = env.generate_address(AddressKind::Account);
    let c = env.generate_address(AddressKind::Contract);
    assert_ne!(a, b);
    assert_eq!(a.kind, AddressKind::Account);
    assert_eq!(c.kind, AddressKind::Contract);
    assert_ne!(Address::account([5; 32]), Address::contract([5; 32]));
}

#[test]
fn account_address_encodes_as_host_value() {
    let address = Address::account([7; 32]);
    let bytes = address.to_xdr_bytes();
    let mut expected = vec![0u8, 0, 0, 18, 0, 0, 0, 0, 0, 0, 0, 0];
    expected.extend_from_slice(&[7; 32]);
    assert_eq!(bytes, expected);
    assert_eq!(Address::from_xdr_bytes(&bytes), Some(address));
}

#[test]
fn contract_address_encodes_as_host_value() {
    let address = Address::contract([0xc1; 32]);
    let bytes = address.to_xdr_bytes();
    let mut expected = vec![0u8, 0, 0, 18, 0, 0, 0, 1];
    expected.extend_from_slice(&[0xc1; 32]);
    assert_eq!(bytes, expected);
    assert_eq!(Address::from_xdr_bytes(&bytes), Some(address));
}

#[test]
fn malformed_address_encodings_are_refused() {
    let good = Address::account([1; 32]).to_xdr_bytes();
    let mut wrong_tag = good.clone();
    wrong_tag[3] = 17;
    assert_eq!(Address::from_xdr_bytes(&wrong_tag), None);
    let mut wrong_kind = good.clone();
    wrong_kind[7] = 2;
    assert_eq!(Address::from_xdr_bytes(&wrong_kind), None);
    let mut wrong_key_type = good.clone();
    wrong_key_type[11] = 1;
    assert_eq!(Address::from_xdr_bytes(&wrong_key_type), None);
    let short = good[..43].to_vec();
    assert_eq!(Address::from_xdr_bytes(&short), None);
    let mut contract_with_account_length = Address::contract([1; 32]).to_xdr_bytes();
    contract_with_account_length.extend_from_slice(&[0; 4]);
    assert_eq!(Address::from_xdr_bytes(&contract_with_account_length), None);
    assert_eq!(Address::from_xdr_bytes(&vec![]), None);
}

#[test]
fn generated_address_key_carries_the_count() {
    let mut env = Env::new();
    let first = env.generate_address(AddressKind::Account);
    let mut expected = [0u8; 32];
    expected[0] = 1;
    expected[31] = 1;
    assert_eq!(first.key.bytes, expected);
    for _ in 0..300 {
        env.generate_address(AddressKind::Contract);
    }
    let later = env.generate_address(AddressKind::Account);
    expected[0] = 0x2e;
    expected[1] = 0x01;
    assert_eq!(later.key.bytes, expected);
    assert!(!is_zero_address(&later));
}
