use solana_loader_v4_program::{
    error::LoaderV4Error,
    pubkey::Pubkey,
    state::{LoaderV4State, LoaderV4Status, DEPLOYMENT_COOLDOWN_IN_SLOTS, PROGRAM_DATA_OFFSET},
};

fn key(seed: u8) -> Pubkey {
    let mut bytes = [0u8; 32];
    for (i, byte) in bytes.iter_mut().enumerate() {
        *byte = seed.wrapping_add(i as u8);
    }
    Pubkey::new_from_array(bytes)
}

/// Where in `data` the first byte that differs from `other` lies.
fn first_difference(data: &[u8], other: &[u8]) -> usize {
    data.iter().zip(other).position(|(a, b)| a != b).unwrap()
}

#[test]
fn test_layout() {
    let base = LoaderV4State {
        slot: 0,
        authority_address_or_next_version: Pubkey::new_from_array([0; 32]),
        status: LoaderV4Status::Retracted,
    };
    let mut zero = vec![0u8; 48];
    LoaderV4State::unpack_mut(&mut zero, &base).unwrap();

    let mut slot = vec![0u8; 48];
    LoaderV4State::unpack_mut(&mut slot, &LoaderV4State { slot: 1, ..base }).unwrap();
    let mut authority = vec![0u8; 48];
    LoaderV4State::unpack_mut(
        &mut authority,
        &LoaderV4State { authority_address_or_next_version: Pubkey::new_from_array([1; 32]), ..base },
    )
    .unwrap();
    let mut status = vec![0u8; 48];
    LoaderV4State::unpack_mut(&mut status, &LoaderV4State { status: LoaderV4Status::Deployed, ..base })
        .unwrap();

    assert_eq!(first_difference(&slot, &zero), 0x00);
    assert_eq!(first_difference(&authority, &zero), 0x08);
    assert_eq!(first_difference(&status, &zero), 0x28);
    assert_eq!(LoaderV4State::program_data_offset(), 0x30);
}

#[test]
fn constants() {
    assert_eq!(DEPLOYMENT_COOLDOWN_IN_SLOTS, 750);
    assert_eq!(PROGRAM_DATA_OFFSET, 48);
}

#[test]
fn header_bytes_are_little_endian() {
    let state = LoaderV4State {
        slot: 0x0102_0304_0506_0708,
        authority_address_or_next_version: key(0x40),
        status: LoaderV4Status::Finalized,
    };
    let mut data = vec![0xee; 52];
    LoaderV4State::unpack_mut(&mut data, &state).unwrap();

    let mut expected = vec![8, 7, 6, 5, 4, 3, 2, 1];
    expected.extend(0x40..0x60u8);
    expected.extend([2, 0, 0, 0, 0, 0, 0, 0]);
    expected.extend([0xee; 4]);
    assert_eq!(data, expected);
}

#[test]
fn header_written_then_read_is_identical() {
    for status in [LoaderV4Status::Retracted, LoaderV4Status::Deployed, LoaderV4Status::Finalized] {
        for slot in [0, 1, 750, 0xffff_ffff, u64::MAX] {
            let state =
                LoaderV4State { slot, authority_address_or_next_version: key(7), status };
            let mut data = vec![0x55; 100];
            LoaderV4State::unpack_mut(&mut data, &state).unwrap();
            let read = LoaderV4State::unpack(&data).unwrap();
            assert_eq!(read.slot, slot);
            assert_eq!(read.authority_address_or_next_version, key(7));
            assert_eq!(read.status, status);
            assert_eq!(read, state);
            // The payload is left alone.
            assert_eq!(&data[48..], &[0x55; 52]);
        }
    }
}

#[test]
fn unpack_reads_known_bytes() {
    let mut data = vec![0u8; 48];
    data[0] = 0xee;
    data[1] = 0x02; // slot 750
    data[8..40].copy_from_slice(&[9; 32]);
    data[40] = 1;
    assert_eq!(
        LoaderV4State::unpack(&data),
        Ok(LoaderV4State {
            slot: 750,
            authority_address_or_next_version: Pubkey::new_from_array([9; 32]),
            status: LoaderV4Status::Deployed,
        })
    );
}

#[test]
fn unpack_fails_on_short_buffer() {
    assert_eq!(LoaderV4State::unpack(&[]), Err(LoaderV4Error::BufferTooSmall));
    assert_eq!(LoaderV4State::unpack(&[0; 12]), Err(LoaderV4Error::BufferTooSmall));
    assert_eq!(LoaderV4State::unpack(&[0; 47]), Err(LoaderV4Error::BufferTooSmall));
    assert!(LoaderV4State::unpack(&[0; 48]).is_ok());
}

#[test]
fn unpack_fails_on_unknown_status() {
    let mut data = vec![0u8; 48];
    data[40] = 3;
    assert_eq!(LoaderV4State::unpack(&data), Err(LoaderV4Error::InvalidAccountData));
    // The ordinal is all eight bytes, not the first alone.
    let mut data = vec![0u8; 48];
    data[41] = 1;
    assert_eq!(LoaderV4State::unpack(&data), Err(LoaderV4Error::InvalidAccountData));
    let mut data = vec![0u8; 48];
    data[47] = 0x80;
    assert_eq!(LoaderV4State::unpack(&data), Err(LoaderV4Error::InvalidAccountData));
}

#[test]
fn unpack_mut_leaves_short_buffer_alone() {
    let state = LoaderV4State {
        slot: 5,
        authority_address_or_next_version: key(1),
        status: LoaderV4Status::Deployed,
    };
    let mut data = vec![7u8; 47];
    assert_eq!(LoaderV4State::unpack_mut(&mut data, &state), Err(LoaderV4Error::BufferTooSmall));
    assert_eq!(data, vec![7u8; 47]);
    let mut empty: Vec<u8> = Vec::new();
    assert_eq!(LoaderV4State::unpack_mut(&mut empty, &state), Err(LoaderV4Error::BufferTooSmall));
}

#[test]
fn status_ordinals() {
    assert_eq!(LoaderV4Status::Retracted.ordinal(), 0);
    assert_eq!(LoaderV4Status::Deployed.ordinal(), 1);
    assert_eq!(LoaderV4Status::Finalized.ordinal(), 2);
    assert_eq!(LoaderV4Status::from_ordinal(0), Some(LoaderV4Status::Retracted));
    assert_eq!(LoaderV4Status::from_ordinal(1), Some(LoaderV4Status::Deployed));
    assert_eq!(LoaderV4Status::from_ordinal(2), Some(LoaderV4Status::Finalized));
    assert_eq!(LoaderV4Status::from_ordinal(3), None);
    assert_eq!(LoaderV4Status::from_ordinal(u64::MAX), None);
}

#[test]
fn address_field_means_authority_until_finalized() {
    let mut state = LoaderV4State {
        slot: 0,
        authority_address_or_next_version: key(3),
        status: LoaderV4Status::Retracted,
    };
    assert_eq!(state.authority(), Some(key(3)));
    assert_eq!(state.next_version(), None);
    state.status = LoaderV4Status::Deployed;
    assert_eq!(state.authority(), Some(key(3)));
    assert_eq!(state.next_version(), None);
    state.status = LoaderV4Status::Finalized;
    assert_eq!(state.authority(), None);
    assert_eq!(state.next_version(), Some(key(3)));
}

#[test]
fn pubkey_bytes_and_equality() {
    let a = key(1);
    let b = key(1);
    let mut other = a.to_bytes();
    other[31] ^= 1;
    assert_eq!(a, b);
    assert_ne!(a, Pubkey::new_from_array(other));
    assert_eq!(a.to_bytes()[0], 1);
    assert_eq!(a.to_bytes()[31], 32);
    let mut data = vec![0u8; 3];
    data.extend_from_slice(&a.to_bytes());
    assert_eq!(Pubkey::from_slice_at(&data, 3), a);
}
