use solana_vamp::decoder::decode_record;
use solana_vamp::decoder::CommissionCaps;
use solana_vamp::decoder::MANAGED_RECORD_LEN;
use solana_vamp::errors::VampError;

fn fixture() -> Vec<u8> {
    let mut data = vec![0u8; 168];
    for (i, b) in data.iter_mut().enumerate().take(32) {
        *b = i as u8; // withdraw authority 0..31
    }
    for i in 32..64 {
        data[i] = 0xAA;
    }
    for i in 64..96 {
        data[i] = 0xBB;
    }
    for i in 96..128 {
        data[i] = 0xCC;
    }
    data[128] = 1; // commission caps enabled
    data[129] = 10; // max commission
    data[130] = 2; // max increase per epoch
    data[144..152].copy_from_slice(&700u64.to_le_bytes());
    data
}

#[test]
fn record_fields_match_the_fixture_byte_ranges() {
    let data = fixture();
    let rec = decode_record(&data).unwrap();
    assert_eq!(&rec.withdraw_authority.bytes[..], &data[0..32]);
    assert_eq!(rec.administrator.bytes, [0xAA; 32]);
    assert_eq!(rec.operational_authority.bytes, [0xBB; 32]);
    assert_eq!(rec.rewards_authority.bytes, [0xCC; 32]);
    assert_eq!(
        rec.commission_cap,
        Some(CommissionCaps { max_commission: 10, max_commission_increase_per_epoch: 2 })
    );
    assert_eq!(rec.leave_epoch, 700);
}

#[test]
fn any_other_length_is_not_managed() {
    assert_eq!(MANAGED_RECORD_LEN, 168);
    for len in [0usize, 1, 167, 169, 336] {
        let data = vec![0u8; len];
        assert_eq!(decode_record(&data), Err(VampError::NotManaged));
    }
}

#[test]
fn caps_flag_zero_means_uncapped_even_with_stale_cap_bytes() {
    let mut data = fixture();
    data[128] = 0;
    let rec = decode_record(&data).unwrap();
    assert_eq!(rec.commission_cap, None);
}

#[test]
fn any_nonzero_caps_flag_enables_caps() {
    let mut data = fixture();
    data[128] = 255;
    let rec = decode_record(&data).unwrap();
    assert!(rec.commission_cap.is_some());
}

#[test]
fn leave_epoch_is_little_endian() {
    let mut data = fixture();
    data[144..152].copy_from_slice(&[1, 2, 3, 4, 5, 6, 7, 8]);
    let rec = decode_record(&data).unwrap();
    assert_eq!(rec.leave_epoch, 0x0807060504030201);
}

#[test]
fn zero_leave_epoch_displays_as_unset() {
    let mut data = fixture();
    data[144..152].copy_from_slice(&0u64.to_le_bytes());
    let rec = decode_record(&data).unwrap();
    assert_eq!(rec.leave_epoch, 0);
    assert_eq!(rec.leave_epoch_display(), None);

    let rec = decode_record(&fixture()).unwrap();
    assert_eq!(rec.leave_epoch_display(), Some(700));
}

#[test]
fn leave_epoch_without_caps_signals_inconsistency() {
    let mut data = fixture();
    data[128] = 0; // no caps, but leave epoch 700 remains
    let rec = decode_record(&data).unwrap();
    assert!(!rec.is_consistent());

    let rec = decode_record(&fixture()).unwrap();
    assert!(rec.is_consistent());
}

#[test]
fn reserved_bytes_do_not_affect_decoding() {
    let mut data = fixture();
    for i in 131..144 {
        data[i] = 0xEE;
    }
    for i in 152..168 {
        data[i] = 0xEE;
    }
    assert_eq!(decode_record(&data), decode_record(&fixture()));
}
