use solana_vamp::errors::VampError;
use solana_vamp::keys::clock_sysvar_id;
use solana_vamp::keys::derive_record_address;
use solana_vamp::keys::keypair_text_to_bytes;
use solana_vamp::keys::resolve_identity;
use solana_vamp::keys::system_program_id;
use solana_vamp::keys::u8_list_to_vec;
use solana_vamp::keys::vamp_program_id;
use solana_vamp::keys::vote_program_id;
use solana_vamp::keys::Pubkey;
use std::str::FromStr;

#[test]
fn well_known_ids_match_their_base58_renderings() {
    let cases = [
        (vamp_program_id(), "vamp3angna1CBRcV6KqoxyaYw3mPybHEeoPLtmpS99N"),
        (system_program_id(), "11111111111111111111111111111111"),
        (vote_program_id(), "Vote111111111111111111111111111111111111111"),
        (clock_sysvar_id(), "SysvarC1ock11111111111111111111111111111111"),
    ];
    for (ours, b58) in cases {
        let theirs = solana_sdk::pubkey::Pubkey::from_str(b58).unwrap();
        assert_eq!(ours.bytes, theirs.to_bytes());
    }
}

#[test]
fn record_address_is_deterministic_and_matches_the_sdk_derivation() {
    let program = vamp_program_id();
    let vote = Pubkey::new([42; 32]);
    let first = derive_record_address(&vote, &program).unwrap();
    let second = derive_record_address(&vote, &program).unwrap();
    assert_eq!(first.bytes, second.bytes);

    let sdk_program = solana_sdk::pubkey::Pubkey::new_from_array(program.bytes);
    let (expected, _bump) =
        solana_sdk::pubkey::Pubkey::find_program_address(&[&vote.bytes], &sdk_program);
    assert_eq!(first.bytes, expected.to_bytes());
    assert_ne!(first.bytes, vote.bytes, "derivation must transform its input");
}

#[test]
fn distinct_vote_accounts_never_collide_in_a_sample() {
    let program = vamp_program_id();
    let mut seen = std::collections::BTreeSet::new();
    for fill in 0..=50u8 {
        let vote = Pubkey::new([fill; 32]);
        let record = derive_record_address(&vote, &program).unwrap();
        assert!(seen.insert(record.bytes), "collision for fill {fill}");
    }
    assert_eq!(seen.len(), 51);
}

#[test]
fn a_base58_literal_resolves_without_a_keypair_file() {
    let r = resolve_identity("11111111111111111111111111111111", None).unwrap();
    assert_eq!(r.bytes, [0u8; 32]);

    let r = resolve_identity("vamp3angna1CBRcV6KqoxyaYw3mPybHEeoPLtmpS99N", None).unwrap();
    assert_eq!(r.bytes, vamp_program_id().bytes);
}

#[test]
fn keypair_file_contents_resolve_to_the_keypair_public_key() {
    let kp = solana_sdk::signer::keypair::Keypair::new();
    let listed: Vec<String> = kp.to_bytes().iter().map(|b| b.to_string()).collect();
    let text = format!("[{}]", listed.join(", "));
    let r = resolve_identity("ignored-when-file-wins", Some(&text)).unwrap();
    assert_eq!(r.bytes, solana_sdk::signer::Signer::pubkey(&kp).to_bytes());
}

#[test]
fn malformed_keypair_text_falls_back_to_base58() {
    let r = resolve_identity("11111111111111111111111111111111", Some("not a keypair")).unwrap();
    assert_eq!(r.bytes, [0u8; 32]);
}

#[test]
fn neither_form_valid_is_an_invalid_identity() {
    assert_eq!(
        resolve_identity("definitely not base58!!", Some("[1,2,3]")),
        Err(VampError::InvalidIdentity)
    );
    assert_eq!(resolve_identity("", None), Err(VampError::InvalidIdentity));
}

#[test]
fn wrong_length_keypair_blob_is_rejected() {
    // 63 bytes parse as a list but are one short of a keypair blob, and the
    // fallback argument is not base58 either, so the whole resolution fails.
    let text = format!("[{}]", vec!["0"; 63].join(","));
    assert_eq!(resolve_identity("x", Some(&text)), Err(VampError::InvalidIdentity));
}

#[test]
fn u8_lists_parse_with_spaces_and_reject_bad_pieces() {
    assert_eq!(u8_list_to_vec("1, 2,3").unwrap(), vec![1, 2, 3]);
    assert_eq!(u8_list_to_vec(" 2 5 5 ").unwrap(), vec![255]);
    assert_eq!(u8_list_to_vec("+7").unwrap(), vec![7]);
    assert_eq!(u8_list_to_vec("256"), Err(VampError::ArgumentError));
    assert_eq!(u8_list_to_vec("1,,2"), Err(VampError::ArgumentError));
    assert_eq!(u8_list_to_vec("1,2,"), Err(VampError::ArgumentError));
    assert_eq!(u8_list_to_vec(""), Err(VampError::ArgumentError));
    assert_eq!(u8_list_to_vec("1;2"), Err(VampError::ArgumentError));
}

#[test]
fn keypair_text_requires_brackets_as_read() {
    assert_eq!(keypair_text_to_bytes("[1,2]").unwrap(), vec![1, 2]);
    assert_eq!(keypair_text_to_bytes("1,2"), Err(VampError::ArgumentError));
    assert_eq!(keypair_text_to_bytes("[1,2"), Err(VampError::ArgumentError));
    assert_eq!(keypair_text_to_bytes("[1,2]\n"), Err(VampError::ArgumentError));
    assert_eq!(keypair_text_to_bytes("[ 3 , 4 ]").unwrap(), vec![3, 4]);
}

#[test]
fn pubkey_from_slice_copies_the_bytes() {
    let bytes: Vec<u8> = (0..32).collect();
    let p = Pubkey::from_slice(&bytes);
    assert_eq!(&p.bytes[..], &bytes[..]);
}
