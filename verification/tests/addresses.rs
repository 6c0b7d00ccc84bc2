use std::str::FromStr;

use decentralwatch_capstone::{
    derive_address, id, state_address, validator_address, Pubkey, SEED_STATE, SEED_VALIDATOR,
};

fn key(byte: u8) -> Pubkey {
    Pubkey::new_from_array([byte; 32])
}

fn program() -> anchor_lang::prelude::Pubkey {
    anchor_lang::prelude::Pubkey::from_str("J5B8jUqhDgJg1eAEnRT2KFEMExSWS8wSy9YufqLwwUxi").unwrap()
}

#[test]
fn seeds_are_the_namespace_tags() {
    assert_eq!(&SEED_STATE[..], b"state");
    assert_eq!(&SEED_VALIDATOR[..], b"validator");
}

#[test]
fn program_id_is_the_declared_key() {
    assert_eq!(id().to_bytes(), program().to_bytes());
}

#[test]
fn pubkey_round_trips_its_bytes() {
    let mut bytes = [0u8; 32];
    for (i, byte) in bytes.iter_mut().enumerate() {
        *byte = i as u8;
    }
    assert_eq!(Pubkey::new_from_array(bytes).to_bytes(), bytes);
    assert_eq!(Pubkey::default().to_bytes(), [0u8; 32]);
}

#[test]
fn pubkey_equality_is_by_bytes() {
    let mut bytes = [3u8; 32];
    assert_eq!(Pubkey::new_from_array(bytes), key(3));
    bytes[31] = 4;
    assert_ne!(Pubkey::new_from_array(bytes), key(3));
    bytes[31] = 3;
    bytes[0] = 4;
    assert_ne!(Pubkey::new_from_array(bytes), key(3));
}

#[test]
fn state_address_is_the_known_one() {
    let (address, bump) = state_address().unwrap();
    assert_eq!(
        address.to_bytes(),
        [
            119, 112, 50, 134, 214, 89, 33, 184, 134, 211, 194, 224, 246, 129, 219, 161, 147, 234,
            184, 66, 254, 144, 222, 6, 230, 1, 187, 59, 139, 228, 237, 147
        ]
    );
    assert_eq!(bump, 250);
}

#[test]
fn state_address_agrees_with_the_sdk() {
    let (address, bump) = state_address().unwrap();
    let (expected, expected_bump) =
        anchor_lang::prelude::Pubkey::find_program_address(&[b"state"], &program());
    assert_eq!(address.to_bytes(), expected.to_bytes());
    assert_eq!(bump, expected_bump);
}

#[test]
fn validator_address_is_the_known_one() {
    let (address, bump) = validator_address(&key(7)).unwrap();
    assert_eq!(
        address.to_bytes(),
        [
            71, 237, 250, 126, 147, 95, 13, 118, 78, 75, 137, 139, 129, 195, 138, 253, 104, 246,
            223, 165, 157, 168, 252, 52, 212, 161, 232, 10, 222, 37, 179, 175
        ]
    );
    assert_eq!(bump, 255);
    let (zero, zero_bump) = validator_address(&Pubkey::default()).unwrap();
    assert_eq!(
        zero.to_bytes(),
        [
            72, 54, 77, 134, 211, 116, 84, 44, 37, 48, 2, 37, 24, 123, 159, 176, 242, 216, 38, 216,
            190, 234, 61, 120, 172, 165, 173, 164, 12, 44, 138, 151
        ]
    );
    assert_eq!(zero_bump, 255);
}

#[test]
fn validator_address_agrees_with_the_sdk() {
    for byte in [0u8, 1, 7, 9, 200, 255] {
        let (address, bump) = validator_address(&key(byte)).unwrap();
        let (expected, expected_bump) = anchor_lang::prelude::Pubkey::find_program_address(
            &[b"validator", &[byte; 32]],
            &program(),
        );
        assert_eq!(address.to_bytes(), expected.to_bytes());
        assert_eq!(bump, expected_bump);
    }
}

#[test]
fn derivation_is_deterministic() {
    assert_eq!(validator_address(&key(7)), validator_address(&key(7)));
    assert_eq!(state_address(), state_address());
}

#[test]
fn namespaces_and_owners_give_distinct_addresses() {
    let state = state_address().unwrap().0;
    let seven = validator_address(&key(7)).unwrap().0;
    let nine = validator_address(&key(9)).unwrap().0;
    assert_ne!(state, seven);
    assert_ne!(state, nine);
    assert_ne!(seven, nine);
    assert_ne!(seven, key(7));
}

#[test]
fn derive_address_takes_the_seeds_in_order() {
    let seeds = vec![b"validator".to_vec(), vec![7u8; 32]];
    assert_eq!(derive_address(&seeds), validator_address(&key(7)));
    assert_eq!(derive_address(&vec![b"state".to_vec()]), state_address());
    let swapped = vec![vec![7u8; 32], b"validator".to_vec()];
    assert_ne!(derive_address(&swapped), validator_address(&key(7)));
}

#[test]
fn derive_address_refuses_what_the_sdk_refuses() {
    let long = vec![vec![0u8; 33]];
    assert_eq!(derive_address(&long), None);
    let many: Vec<Vec<u8>> = (0u8..16).map(|i| vec![i]).collect();
    assert_eq!(derive_address(&many), None);
    let most: Vec<Vec<u8>> = (0u8..15).map(|i| vec![i]).collect();
    assert!(derive_address(&most).is_some());
    assert!(derive_address(&Vec::new()).is_some());
}
