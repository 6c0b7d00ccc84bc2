use anchor_lang::prelude::borsh;
use decentralwatch_capstone::{GlobalState, Pubkey, Validator};

fn key(byte: u8) -> Pubkey {
    Pubkey::new_from_array([byte; 32])
}

fn sample() -> Validator {
    Validator {
        owner: key(9),
        geo_iso2: [b'U', b'S'],
        location: [4; 32],
        status: 2,
        last_active_timestamp: 0x0102_0304_0506_0708,
        last_active_slot: 0x1112_1314_1516_1718,
        metadata_hash: [5; 32],
        bump: 254,
    }
}

#[test]
fn sizes() {
    assert_eq!(GlobalState::SIZE, 34);
    assert_eq!(Validator::SIZE, 116);
    assert_eq!(GlobalState::default().to_bytes().len(), GlobalState::SIZE);
    assert_eq!(Validator::default().to_bytes().len(), Validator::SIZE);
}

#[test]
fn defaults_are_all_zero() {
    assert_eq!(GlobalState::default().to_bytes(), vec![0u8; 34]);
    assert_eq!(Validator::default().to_bytes(), vec![0u8; 116]);
    assert_eq!(
        GlobalState::default(),
        GlobalState { authority: key(0), paused: false, bump: 0 }
    );
}

#[test]
fn global_state_layout() {
    let state = GlobalState { authority: key(7), paused: true, bump: 250 };
    let mut expected = vec![7u8; 32];
    expected.push(1);
    expected.push(250);
    assert_eq!(state.to_bytes(), expected);
    let clear = GlobalState { authority: key(7), paused: false, bump: 3 };
    assert_eq!(clear.to_bytes()[32], 0);
    assert_eq!(clear.to_bytes()[33], 3);
}

#[test]
fn global_state_round_trip() {
    for paused in [false, true] {
        for bump in [0u8, 1, 250, 255] {
            let state = GlobalState { authority: key(bump ^ 0x5a), paused, bump };
            assert_eq!(GlobalState::from_bytes(&state.to_bytes()), Some(state));
        }
    }
}

#[test]
fn global_state_from_bytes_refuses_other_lengths_and_flags() {
    let bytes = GlobalState { authority: key(7), paused: true, bump: 250 }.to_bytes();
    assert_eq!(GlobalState::from_bytes(&bytes[..33]), None);
    assert_eq!(GlobalState::from_bytes(&[]), None);
    let mut longer = bytes.clone();
    longer.push(0);
    assert_eq!(GlobalState::from_bytes(&longer), None);
    let mut flag = bytes.clone();
    flag[32] = 2;
    assert_eq!(GlobalState::from_bytes(&flag), None);
    flag[32] = 255;
    assert_eq!(GlobalState::from_bytes(&flag), None);
    flag[32] = 0;
    assert_eq!(
        GlobalState::from_bytes(&flag),
        Some(GlobalState { authority: key(7), paused: false, bump: 250 })
    );
}

#[test]
fn global_state_agrees_with_borsh() {
    let state = GlobalState { authority: key(7), paused: true, bump: 250 };
    let expected = borsh::to_vec(&([7u8; 32], true, 250u8)).unwrap();
    assert_eq!(state.to_bytes(), expected);
    let read: ([u8; 32], bool, u8) = borsh::from_slice(&state.to_bytes()).unwrap();
    assert_eq!(read, ([7u8; 32], true, 250u8));
    let mut flag = expected.clone();
    flag[32] = 2;
    assert!(borsh::from_slice::<([u8; 32], bool, u8)>(&flag).is_err());
    assert_eq!(GlobalState::from_bytes(&flag), None);
}

#[test]
fn validator_layout() {
    let bytes = sample().to_bytes();
    assert_eq!(bytes.len(), 116);
    assert_eq!(&bytes[0..32], &[9u8; 32]);
    assert_eq!(&bytes[32..34], b"US");
    assert_eq!(&bytes[34..66], &[4u8; 32]);
    assert_eq!(bytes[66], 2);
    assert_eq!(&bytes[67..75], &[8, 7, 6, 5, 4, 3, 2, 1]);
    assert_eq!(&bytes[75..83], &[0x18, 0x17, 0x16, 0x15, 0x14, 0x13, 0x12, 0x11]);
    assert_eq!(&bytes[83..115], &[5u8; 32]);
    assert_eq!(bytes[115], 254);
}

#[test]
fn validator_negative_time_is_twos_complement() {
    let record = Validator { last_active_timestamp: -2, ..sample() };
    let bytes = record.to_bytes();
    assert_eq!(&bytes[67..75], &[0xfe, 0xff, 0xff, 0xff, 0xff, 0xff, 0xff, 0xff]);
    assert_eq!(Validator::from_bytes(&bytes), Some(record));
}

#[test]
fn validator_round_trip() {
    for time in [i64::MIN, -1, 0, 1, 1_700_000_000, i64::MAX] {
        for slot in [0u64, 1, 255, 256, u64::MAX] {
            for status in [0u8, 1, 2, 3] {
                let record = Validator {
                    status,
                    last_active_timestamp: time,
                    last_active_slot: slot,
                    ..sample()
                };
                assert_eq!(Validator::from_bytes(&record.to_bytes()), Some(record));
            }
        }
    }
}

#[test]
fn validator_round_trip_from_bytes() {
    let mut bytes = [0u8; 116];
    for (i, byte) in bytes.iter_mut().enumerate() {
        *byte = (i as u8).wrapping_mul(37).wrapping_add(11);
    }
    let record = Validator::from_bytes(&bytes).unwrap();
    assert_eq!(record.to_bytes(), bytes.to_vec());
    assert_eq!(record.status, bytes[66]);
}

#[test]
fn validator_from_bytes_refuses_other_lengths() {
    let bytes = sample().to_bytes();
    assert_eq!(Validator::from_bytes(&bytes[..115]), None);
    assert_eq!(Validator::from_bytes(&[]), None);
    let mut longer = bytes.clone();
    longer.push(0);
    assert_eq!(Validator::from_bytes(&longer), None);
}

#[test]
fn validator_agrees_with_borsh() {
    for time in [i64::MIN, -1, 0, 1_700_000_000, i64::MAX] {
        let record = Validator { last_active_timestamp: time, ..sample() };
        let fields = (
            [9u8; 32],
            [b'U', b'S'],
            [4u8; 32],
            2u8,
            time,
            0x1112_1314_1516_1718u64,
            [5u8; 32],
            254u8,
        );
        assert_eq!(record.to_bytes(), borsh::to_vec(&fields).unwrap());
        let read: ([u8; 32], [u8; 2], [u8; 32], u8, i64, u64, [u8; 32], u8) =
            borsh::from_slice(&record.to_bytes()).unwrap();
        assert_eq!(read, fields);
    }
}
