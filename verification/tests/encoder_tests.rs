use solana_vamp::decoder::decode_record;
use solana_vamp::encoder::build_instruction;
use solana_vamp::encoder::enter_instruction;
use solana_vamp::encoder::kind_of_opcode;
use solana_vamp::encoder::leave_instruction;
use solana_vamp::encoder::opcode;
use solana_vamp::encoder::required_signers;
use solana_vamp::encoder::set_authority_instruction;
use solana_vamp::encoder::set_commission_instruction;
use solana_vamp::encoder::set_leave_epoch_instruction;
use solana_vamp::encoder::set_validator_identity_instruction;
use solana_vamp::encoder::set_vote_authority_instruction;
use solana_vamp::encoder::withdraw_instruction;
use solana_vamp::encoder::Command;
use solana_vamp::encoder::CommandKind;
use solana_vamp::keys::clock_sysvar_id;
use solana_vamp::keys::system_program_id;
use solana_vamp::keys::vamp_program_id;
use solana_vamp::keys::vote_program_id;
use solana_vamp::keys::Pubkey;

fn key(fill: u8) -> Pubkey {
    Pubkey::new([fill; 32])
}

#[test]
fn opcode_byte_round_trips_for_every_variant() {
    let kinds = [
        CommandKind::Enter,
        CommandKind::SetLeaveEpoch,
        CommandKind::Leave,
        CommandKind::SetAdministrator,
        CommandKind::SetOperationalAuthority,
        CommandKind::SetRewardsAuthority,
        CommandKind::SetVoteAuthority,
        CommandKind::SetValidatorIdentity,
        CommandKind::Withdraw,
        CommandKind::SetCommission,
    ];
    let mut seen = [false; 10];
    for (expected, k) in kinds.iter().enumerate() {
        let b = opcode(*k);
        assert_eq!(b as usize, expected);
        assert_eq!(kind_of_opcode(b), Some(*k));
        assert!(!seen[b as usize], "opcode used twice");
        seen[b as usize] = true;
    }
    assert!(seen.iter().all(|s| *s));
    for b in 10..=255u8 {
        assert_eq!(kind_of_opcode(b), None);
    }
}

#[test]
fn enter_with_no_caps_has_seven_accounts_and_flag_zero() {
    let vote = key(11);
    let fee = key(22);
    let wa = key(33);
    let admin = key(44);
    let program = vamp_program_id();
    let record = solana_vamp::keys::derive_record_address(&vote, &program).unwrap();
    let ins = enter_instruction(&program, &record, &vote, &fee, &wa, &admin, None, None);

    assert_eq!(ins.accounts.len(), 7);
    let expected = [
        (record, false, true),
        (vote, false, true),
        (fee, true, true),
        (wa, true, false),
        (system_program_id(), false, false),
        (vote_program_id(), false, false),
        (clock_sysvar_id(), false, false),
    ];
    for (meta, (k, s, w)) in ins.accounts.iter().zip(expected.iter()) {
        assert_eq!(meta.pubkey.bytes, k.bytes);
        assert_eq!(meta.is_signer, *s);
        assert_eq!(meta.is_writable, *w);
    }

    assert_eq!(ins.data.len(), 36);
    assert_eq!(ins.data[0], 0);
    assert_eq!(&ins.data[1..33], &admin.bytes[..]);
    assert_eq!(ins.data[33], 0, "use_commission_caps must be zero");
    assert_eq!(ins.data[34], 0);
    assert_eq!(ins.data[35], 0);
}

#[test]
fn enter_with_only_max_commission_sets_flag_and_defaults_other_cap() {
    let program = vamp_program_id();
    let record = key(1);
    let ins = enter_instruction(
        &program,
        &record,
        &key(2),
        &key(3),
        &key(4),
        &key(5),
        Some(7),
        None,
    );
    assert_eq!(ins.data[33], 1, "flag byte distinguishes caps from no caps");
    assert_eq!(ins.data[34], 7);
    assert_eq!(ins.data[35], 0, "missing cap defaults to zero");

    let uncapped = enter_instruction(
        &program,
        &record,
        &key(2),
        &key(3),
        &key(4),
        &key(5),
        None,
        None,
    );
    assert_ne!(ins.data[33], uncapped.data[33]);

    let zero_cap = enter_instruction(
        &program,
        &record,
        &key(2),
        &key(3),
        &key(4),
        &key(5),
        Some(0),
        None,
    );
    assert_eq!(zero_cap.data[33], 1, "present-and-zero differs from absent");
    assert_eq!(zero_cap.data[34], 0);
}

#[test]
fn set_commission_is_two_bytes_and_four_accounts() {
    let program = vamp_program_id();
    let vote = key(10);
    let record = solana_vamp::keys::derive_record_address(&vote, &program).unwrap();
    let ra = key(20);
    let ins = set_commission_instruction(&program, &record, &vote, &ra, 5);
    assert_eq!(ins.data, vec![9u8, 5u8]);
    assert_eq!(ins.accounts.len(), 4);
    assert_eq!(ins.accounts[0].pubkey.bytes, record.bytes);
    assert!(ins.accounts[0].is_writable && !ins.accounts[0].is_signer);
    assert_eq!(ins.accounts[1].pubkey.bytes, vote.bytes);
    assert!(ins.accounts[1].is_writable && !ins.accounts[1].is_signer);
    assert_eq!(ins.accounts[2].pubkey.bytes, ra.bytes);
    assert!(ins.accounts[2].is_signer && !ins.accounts[2].is_writable);
    assert_eq!(ins.accounts[3].pubkey.bytes, vote_program_id().bytes);
    assert!(!ins.accounts[3].is_signer && !ins.accounts[3].is_writable);
}

#[test]
fn set_leave_epoch_payload_is_little_endian_with_padding() {
    let ins = set_leave_epoch_instruction(&vamp_program_id(), &key(1), &key(2), &key(3), 0x0102030405060708);
    assert_eq!(ins.data.len(), 16);
    assert_eq!(ins.data[0], 1);
    assert_eq!(&ins.data[1..8], &[0u8; 7]);
    assert_eq!(&ins.data[8..16], &[8, 7, 6, 5, 4, 3, 2, 1]);
    assert_eq!(ins.accounts.len(), 3);
    assert!(ins.accounts[2].is_signer);
}

#[test]
fn leave_has_six_accounts_and_one_byte_payload() {
    let record = key(1);
    let vote = key(2);
    let wa = key(3);
    let fee = key(4);
    let ins = leave_instruction(&vamp_program_id(), &record, &vote, &wa, &fee);
    assert_eq!(ins.data, vec![2u8]);
    assert_eq!(ins.accounts.len(), 6);
    assert_eq!(ins.accounts[3].pubkey.bytes, fee.bytes);
    assert!(ins.accounts[3].is_writable && !ins.accounts[3].is_signer);
    assert_eq!(ins.accounts[4].pubkey.bytes, vote_program_id().bytes);
    assert_eq!(ins.accounts[5].pubkey.bytes, clock_sysvar_id().bytes);
}

#[test]
fn set_authority_variants_share_shape_and_differ_by_opcode() {
    let record = key(1);
    let vote = key(2);
    let auth = key(3);
    let new_auth = key(4);
    let program = vamp_program_id();
    for (kind, code) in [
        (CommandKind::SetAdministrator, 3u8),
        (CommandKind::SetOperationalAuthority, 4u8),
        (CommandKind::SetRewardsAuthority, 5u8),
    ] {
        let ins = set_authority_instruction(&program, &record, &vote, &auth, &new_auth, kind);
        assert_eq!(ins.data.len(), 33);
        assert_eq!(ins.data[0], code);
        assert_eq!(&ins.data[1..33], &new_auth.bytes[..]);
        assert_eq!(ins.accounts.len(), 3);
        assert!(ins.accounts[0].is_writable);
        assert!(!ins.accounts[1].is_writable, "vote account is read-only here");
        assert!(ins.accounts[2].is_signer);
    }
}

#[test]
fn set_vote_authority_layout() {
    let ins = set_vote_authority_instruction(&vamp_program_id(), &key(1), &key(2), &key(3), &key(4));
    assert_eq!(ins.data.len(), 33);
    assert_eq!(ins.data[0], 6);
    assert_eq!(&ins.data[1..33], &[4u8; 32]);
    assert_eq!(ins.accounts.len(), 5);
    assert!(!ins.accounts[0].is_writable, "record is read-only here");
    assert!(ins.accounts[1].is_writable);
    assert_eq!(ins.accounts[3].pubkey.bytes, vote_program_id().bytes);
    assert_eq!(ins.accounts[4].pubkey.bytes, clock_sysvar_id().bytes);
}

#[test]
fn set_validator_identity_co_signs_the_new_identity() {
    let identity = key(9);
    let ins = set_validator_identity_instruction(&vamp_program_id(), &key(1), &key(2), &key(3), &identity);
    assert_eq!(ins.data, vec![7u8]);
    assert_eq!(ins.accounts.len(), 5);
    assert_eq!(ins.accounts[3].pubkey.bytes, identity.bytes);
    assert!(ins.accounts[3].is_signer, "new identity must co-sign");
    assert_eq!(ins.accounts[4].pubkey.bytes, vote_program_id().bytes);
}

#[test]
fn withdraw_layout_and_zero_sentinel() {
    let recipient = key(7);
    let ins = withdraw_instruction(&vamp_program_id(), &key(1), &key(2), &key(3), &recipient, 0);
    assert_eq!(ins.data.len(), 16);
    assert_eq!(ins.data[0], 8);
    assert_eq!(&ins.data[8..16], &[0u8; 8], "zero lamports means maximum available");
    assert_eq!(ins.accounts.len(), 5);
    assert_eq!(ins.accounts[3].pubkey.bytes, recipient.bytes);
    assert!(ins.accounts[3].is_writable && !ins.accounts[3].is_signer);

    let ins = withdraw_instruction(&vamp_program_id(), &key(1), &key(2), &key(3), &recipient, 1_500_000_000);
    assert_eq!(&ins.data[8..16], &1_500_000_000u64.to_le_bytes());
}

#[test]
fn dispatcher_encodes_every_command_and_skips_show() {
    let program = vamp_program_id();
    let record = key(1);
    let vote = key(2);
    let fee = key(3);
    let a = key(4);
    let b = key(5);
    let commands = vec![
        Command::Enter {
            withdraw_authority: a,
            administrator: b,
            max_commission: Some(10),
            max_commission_increase_per_epoch: Some(1),
        },
        Command::SetLeaveEpoch { withdraw_authority: a, leave_epoch: 500 },
        Command::Leave { withdraw_authority: a },
        Command::SetAdministrator { withdraw_authority: a, administrator: b },
        Command::SetOperationalAuthority { administrator: a, authority: b },
        Command::SetRewardsAuthority { administrator: a, authority: b },
        Command::SetVoteAuthority { operational_authority: a, authority: b },
        Command::SetValidatorIdentity { operational_authority: a, validator_identity: b },
        Command::Withdraw { rewards_authority: a, recipient: b, lamports: 42 },
        Command::SetCommission { rewards_authority: a, commission: 9 },
    ];
    for (expected_opcode, cmd) in commands.iter().enumerate() {
        let ins = build_instruction(&program, &record, &vote, &fee, cmd).unwrap();
        assert_eq!(ins.data[0] as usize, expected_opcode);
        assert_eq!(ins.program_id.bytes, program.bytes);
    }
    assert!(build_instruction(&program, &record, &vote, &fee, &Command::Show { json: false }).is_none());
}

#[test]
fn required_signers_follow_the_role_table() {
    let fee = key(1);
    let wa = key(2);
    let oa = key(3);
    let identity = key(4);
    let signers = required_signers(&fee, &Command::Leave { withdraw_authority: wa });
    assert_eq!(signers.len(), 2);
    assert_eq!(signers[0].bytes, fee.bytes);
    assert_eq!(signers[1].bytes, wa.bytes);

    let signers = required_signers(
        &fee,
        &Command::SetValidatorIdentity { operational_authority: oa, validator_identity: identity },
    );
    assert_eq!(signers.len(), 3);
    assert_eq!(signers[2].bytes, identity.bytes, "identity replacement co-signs");

    let signers = required_signers(&fee, &Command::Show { json: true });
    assert!(signers.is_empty());
}

#[test]
fn enter_payload_opcode_decodes_back_through_the_state_machinery() {
    // byte 0 of each payload re-enters kind_of_opcode; a quick cross-check
    // against the decoder's notion of a record keeps the two layers apart:
    // an instruction payload is never a valid record.
    let ins = enter_instruction(
        &vamp_program_id(),
        &key(1),
        &key(2),
        &key(3),
        &key(4),
        &key(5),
        None,
        None,
    );
    assert_eq!(kind_of_opcode(ins.data[0]), Some(CommandKind::Enter));
    assert_eq!(
        decode_record(&ins.data),
        Err(solana_vamp::errors::VampError::NotManaged)
    );
}
