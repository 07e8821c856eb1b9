//! Public keys and the authority model's address derivation.
//!
//! A `Pubkey` is a plain 32-byte value; its view is the byte sequence. The
//! well-known program addresses the protocol references are fixed byte
//! constants (their base-58 renderings appear beside them).

use crate::digits::spec_first_pos;
use crate::digits::spec_parse_u8;
use crate::digits::find_first;
use crate::digits::parse_u8_bytes;
use crate::errors::VampError;
use vstd::prelude::*;
use vstd::slice::slice_index_get;
use vstd::slice::slice_subrange;
use vstd::string::StringSliceAdditionalSpecFns;

verus! {

/// A 32-byte Ed25519 public key, as the protocol transmits it.
#[derive(Clone, Copy, Debug, PartialEq, Eq, Hash)]
pub struct Pubkey {
    pub bytes: [u8; 32],
}

impl View for Pubkey {
    type V = Seq<u8>;

    open spec fn view(&self) -> Seq<u8> {
        self.bytes@
    }
}

impl Pubkey {
    /// Wrap a 32-byte array.
    pub fn new(bytes: [u8; 32]) -> (r: Pubkey)
        ensures
            r@ == bytes@,
    {
        Pubkey { bytes }
    }

    /// Copy a 32-byte slice into a key.
    pub fn from_slice(s: &[u8]) -> (r: Pubkey)
        requires
            s@.len() == 32,
        ensures
            r@ == s@,
    {
        let mut bytes: [u8; 32] = [0u8; 32];
        let mut i: usize = 0;
        while i < 32
            invariant
                i <= 32,
                s@.len() == 32,
                bytes@.len() == 32,
                forall|j: int| 0 <= j < i ==> bytes@[j] == s@[j],
            decreases 32 - i,
        {
            bytes[i] = s[i];
            i = i + 1;
        }
        proof {
            assert(bytes@ =~= s@);
        }
        Pubkey { bytes }
    }
}

/// The vote-account-manager program address
/// (base-58: vamp3angna1CBRcV6KqoxyaYw3mPybHEeoPLtmpS99N).
pub open spec fn spec_vamp_program_id() -> Seq<u8> {
    seq![
        13u8, 185u8, 248u8, 61u8, 114u8, 216u8, 45u8, 135u8, 234u8, 80u8, 8u8, 93u8, 228u8, 219u8,
        22u8, 126u8, 34u8, 104u8, 192u8, 229u8, 246u8, 81u8, 247u8, 103u8, 239u8, 42u8, 179u8,
        169u8, 108u8, 214u8, 218u8, 157u8,
    ]
}

/// The system program address (base-58: 11111111111111111111111111111111).
pub open spec fn spec_system_program_id() -> Seq<u8> {
    seq![
        0u8, 0u8, 0u8, 0u8, 0u8, 0u8, 0u8, 0u8, 0u8, 0u8, 0u8, 0u8, 0u8, 0u8, 0u8, 0u8, 0u8, 0u8,
        0u8, 0u8, 0u8, 0u8, 0u8, 0u8, 0u8, 0u8, 0u8, 0u8, 0u8, 0u8, 0u8, 0u8,
    ]
}

/// The vote program address
/// (base-58: Vote111111111111111111111111111111111111111).
pub open spec fn spec_vote_program_id() -> Seq<u8> {
    seq![
        7u8, 97u8, 72u8, 29u8, 53u8, 116u8, 116u8, 187u8, 124u8, 77u8, 118u8, 36u8, 235u8, 211u8,
        189u8, 179u8, 216u8, 53u8, 94u8, 115u8, 209u8, 16u8, 67u8, 252u8, 13u8, 163u8, 83u8,
        128u8, 0u8, 0u8, 0u8, 0u8,
    ]
}

/// The clock sysvar address
/// (base-58: SysvarC1ock11111111111111111111111111111111).
pub open spec fn spec_clock_sysvar_id() -> Seq<u8> {
    seq![
        6u8, 167u8, 213u8, 23u8, 24u8, 199u8, 116u8, 201u8, 40u8, 86u8, 99u8, 152u8, 105u8, 29u8,
        94u8, 182u8, 139u8, 94u8, 184u8, 163u8, 155u8, 75u8, 109u8, 92u8, 115u8, 85u8, 91u8,
        33u8, 0u8, 0u8, 0u8, 0u8,
    ]
}

/// The vote-account-manager program address as a key.
pub fn vamp_program_id() -> (r: Pubkey)
    ensures
        r@ == spec_vamp_program_id(),
{
    let bytes: [u8; 32] = [
        13u8, 185u8, 248u8, 61u8, 114u8, 216u8, 45u8, 135u8, 234u8, 80u8, 8u8, 93u8, 228u8, 219u8,
        22u8, 126u8, 34u8, 104u8, 192u8, 229u8, 246u8, 81u8, 247u8, 103u8, 239u8, 42u8, 179u8,
        169u8, 108u8, 214u8, 218u8, 157u8,
    ];
    proof {
        assert(bytes@ =~= spec_vamp_program_id());
    }
    Pubkey { bytes }
}

/// The system program address as a key.
pub fn system_program_id() -> (r: Pubkey)
    ensures
        r@ == spec_system_program_id(),
{
    let bytes: [u8; 32] = [0u8; 32];
    proof {
        assert(bytes@ =~= spec_system_program_id());
    }
    Pubkey { bytes }
}

/// The vote program address as a key.
pub fn vote_program_id() -> (r: Pubkey)
    ensures
        r@ == spec_vote_program_id(),
{
    let bytes: [u8; 32] = [
        7u8, 97u8, 72u8, 29u8, 53u8, 116u8, 116u8, 187u8, 124u8, 77u8, 118u8, 36u8, 235u8, 211u8,
        189u8, 179u8, 216u8, 53u8, 94u8, 115u8, 209u8, 16u8, 67u8, 252u8, 13u8, 163u8, 83u8,
        128u8, 0u8, 0u8, 0u8, 0u8,
    ];
    proof {
        assert(bytes@ =~= spec_vote_program_id());
    }
    Pubkey { bytes }
}

/// The clock sysvar address as a key.
pub fn clock_sysvar_id() -> (r: Pubkey)
    ensures
        r@ == spec_clock_sysvar_id(),
{
    let bytes: [u8; 32] = [
        6u8, 167u8, 213u8, 23u8, 24u8, 199u8, 116u8, 201u8, 40u8, 86u8, 99u8, 152u8, 105u8, 29u8,
        94u8, 182u8, 139u8, 94u8, 184u8, 163u8, 155u8, 75u8, 109u8, 92u8, 115u8, 85u8, 91u8,
        33u8, 0u8, 0u8, 0u8, 0u8,
    ];
    proof {
        assert(bytes@ =~= spec_clock_sysvar_id());
    }
    Pubkey { bytes }
}

/// The 32 bytes a base-58 string denotes, if it is a well-formed rendering
/// of a 32-byte value.
pub uninterp spec fn spec_base58_decoded(s: Seq<char>) -> Option<Seq<u8>>;

/// Whether a 64-byte keypair blob is valid: correct length and a public-key
/// half that decompresses to a curve point.
pub uninterp spec fn spec_keypair_bytes_valid(b: Seq<u8>) -> bool;

/// The record address the authorization program derives for a vote account,
/// if the derivation finds a viable bump seed.
pub uninterp spec fn spec_record_address_of(vote_account: Seq<u8>, program_id: Seq<u8>) -> Option<
    Seq<u8>,
>;

/// Relies on solana_sdk::pubkey::Pubkey::from_str: base-58 decoding is a
/// function of the string alone; success yields exactly 32 bytes.
#[verifier::external_body]
fn base58_pubkey(s: &str) -> (r: Result<Pubkey, VampError>)
    ensures
        match r {
            Ok(p) => spec_base58_decoded(s@) == Some(p@),
            Err(e) => spec_base58_decoded(s@) is None && e == VampError::InvalidIdentity,
        },
{
    match <solana_sdk::pubkey::Pubkey as core::str::FromStr>::from_str(s) {
        Ok(pk) => Ok(Pubkey { bytes: pk.to_bytes() }),
        Err(_) => Err(VampError::InvalidIdentity),
    }
}

/// Relies on solana_sdk::signer::keypair::Keypair::from_bytes (64 bytes:
/// secret half then public half; the public half must decompress) and
/// Signer::pubkey, which returns the stored public half.
#[verifier::external_body]
fn keypair_pubkey_checked(bytes: &[u8]) -> (r: Result<Pubkey, VampError>)
    ensures
        r is Ok <==> spec_keypair_bytes_valid(bytes@),
        bytes@.len() != 64 ==> r is Err,
        match r {
            Ok(p) => p@ == bytes@.subrange(32, 64),
            Err(e) => e == VampError::InvalidIdentity,
        },
{
    match solana_sdk::signer::keypair::Keypair::from_bytes(bytes) {
        Ok(kp) => Ok(Pubkey { bytes: solana_sdk::signer::Signer::pubkey(&kp).to_bytes() }),
        Err(_) => Err(VampError::InvalidIdentity),
    }
}

/// Relies on solana_sdk::pubkey::Pubkey::try_find_program_address with the
/// vote account's bytes as the single seed: the derivation is a function of
/// the seed and the program id alone.
#[verifier::external_body]
fn find_record_address(vote_account: &Pubkey, program_id: &Pubkey) -> (r: Option<Pubkey>)
    ensures
        match r {
            Some(p) => spec_record_address_of(vote_account@, program_id@) == Some(p@),
            None => spec_record_address_of(vote_account@, program_id@) is None,
        },
{
    solana_sdk::pubkey::Pubkey::try_find_program_address(
        &[vote_account.bytes.as_slice()],
        &solana_sdk::pubkey::Pubkey::new_from_array(program_id.bytes),
    ).map(|pair| Pubkey { bytes: pair.0.to_bytes() })
}

/// The managed-record account address for a vote account under a program:
/// a pure, deterministic program-derived-address computation. `None` only in
/// the astronomically unlikely case that no bump seed is viable.
pub fn derive_record_address(vote_account: &Pubkey, program_id: &Pubkey) -> (r: Option<Pubkey>)
    ensures
        match r {
            Some(p) => spec_record_address_of(vote_account@, program_id@) == Some(p@),
            None => spec_record_address_of(vote_account@, program_id@) is None,
        },
{
    find_record_address(vote_account, program_id)
}

/// The record address derivation is deterministic: it depends on the vote
/// account and the program id alone, so two runs over the same inputs name
/// the same record.
pub proof fn lemma_record_address_deterministic(
    vote_account: Seq<u8>,
    program_id: Seq<u8>,
    p1: Seq<u8>,
    p2: Seq<u8>,
)
    requires
        spec_record_address_of(vote_account, program_id) == Some(p1),
        spec_record_address_of(vote_account, program_id) == Some(p2),
    ensures
        p1 == p2,
{
}

/// Bytes of the string with every space removed, as `str::replace(" ", "")`
/// leaves them.
pub open spec fn spec_without_spaces(s: Seq<u8>) -> Seq<u8>
    decreases s.len(),
{
    if s.len() == 0 {
        Seq::empty()
    } else if s.last() == 32 {
        spec_without_spaces(s.drop_last())
    } else {
        spec_without_spaces(s.drop_last()).push(s.last())
    }
}

/// The comma-separated decimal byte list a space-free string denotes, if
/// every piece parses as a `u8`. An empty piece fails, so an empty string or
/// a trailing comma yields nothing.
pub open spec fn spec_u8_list(s: Seq<u8>) -> Option<Seq<u8>>
    decreases s.len(),
{
    match spec_first_pos(s, 44) {
        None => match spec_parse_u8(s) {
            Some(v) => Some(seq![v]),
            None => None,
        },
        Some(i) => if 0 <= i < s.len() {
            match spec_parse_u8(s.take(i)) {
                Some(v) => match spec_u8_list(s.subrange(i + 1, s.len() as int)) {
                    Some(rest) => Some(seq![v] + rest),
                    None => None,
                },
                None => None,
            }
        } else {
            // a found position always lies inside the sequence
            None
        },
    }
}

/// Remove every space byte.
fn strip_spaces(s: &[u8]) -> (r: Vec<u8>)
    ensures
        r@ == spec_without_spaces(s@),
{
    let mut r: Vec<u8> = Vec::new();
    let mut i: usize = 0;
    while i < s.len()
        invariant
            i <= s@.len(),
            r@ == spec_without_spaces(s@.take(i as int)),
        decreases s@.len() - i,
    {
        let c = *slice_index_get(s, i);
        proof {
            assert(s@.take(i + 1).drop_last() =~= s@.take(i as int));
            assert(s@.take(i + 1).last() == s@[i as int]);
        }
        if c != 32 {
            r.push(c);
        }
        i = i + 1;
    }
    proof {
        assert(s@.take(s@.len() as int) =~= s@);
    }
    r
}

/// Parse a space-free comma-separated decimal byte list.
fn parse_u8_list_bytes(s: &[u8]) -> (r: Result<Vec<u8>, VampError>)
    ensures
        match r {
            Ok(v) => spec_u8_list(s@) == Some(v@),
            Err(e) => spec_u8_list(s@) is None && e == VampError::ArgumentError,
        },
    decreases s@.len(),
{
    match find_first(s, 44) {
        None => match parse_u8_bytes(s) {
            Ok(v) => {
                let mut out: Vec<u8> = Vec::new();
                out.push(v);
                proof {
                    assert(out@ =~= seq![v]);
                }
                Ok(out)
            },
            Err(e) => Err(e),
        },
        Some(i) => {
            proof {
                crate::digits::lemma_first_pos_characterizes(s@, 44);
                assert(i < s@.len());
            }
            let piece = slice_subrange(s, 0, i);
            proof {
                assert(piece@ =~= s@.take(i as int));
            }
            match parse_u8_bytes(piece) {
                Ok(v) => {
                    let n = s.len();
                    let rest = slice_subrange(s, i + 1, n);
                    match parse_u8_list_bytes(rest) {
                        Ok(mut tail) => {
                            tail.insert(0, v);
                            proof {
                                assert(tail@ =~= seq![v] + tail@.subrange(1, tail@.len() as int));
                            }
                            Ok(tail)
                        },
                        Err(e) => Err(e),
                    }
                },
                Err(e) => Err(e),
            }
        },
    }
}

/// The byte list a keypair file's text denotes: after removing spaces from
/// the bracket-stripped interior, a comma-separated list of decimal bytes.
/// The text must begin with `[` and end with `]` as read, before any space
/// removal.
pub open spec fn spec_keypair_text_bytes(t: Seq<u8>) -> Option<Seq<u8>> {
    if t.len() >= 2 && t[0] == 91 && t[t.len() - 1] == 93 {
        spec_u8_list(spec_without_spaces(t.subrange(1, t.len() - 1)))
    } else {
        None
    }
}

/// Parse a comma-separated decimal byte list, ignoring spaces, as a keypair
/// file's interior is written (`12, 34, 56`).
pub fn u8_list_to_vec(s: &str) -> (r: Result<Vec<u8>, VampError>)
    ensures
        match r {
            Ok(v) => spec_u8_list(spec_without_spaces(s.spec_bytes())) == Some(v@),
            Err(e) => spec_u8_list(spec_without_spaces(s.spec_bytes())) is None && e
                == VampError::ArgumentError,
        },
{
    let stripped = strip_spaces(s.as_bytes());
    parse_u8_list_bytes(stripped.as_slice())
}

/// Parse whole keypair-file text (`[b0, b1, ...]`) into its byte list, as
/// the keypair loader reads it: the text must begin with `[` and end with
/// `]` exactly as read.
pub fn keypair_text_to_bytes(t: &str) -> (r: Result<Vec<u8>, VampError>)
    ensures
        match r {
            Ok(v) => spec_keypair_text_bytes(t.spec_bytes()) == Some(v@),
            Err(e) => spec_keypair_text_bytes(t.spec_bytes()) is None && e
                == VampError::ArgumentError,
        },
{
    let b = t.as_bytes();
    if b.len() < 2 || *slice_index_get(b, 0) != 91 || *slice_index_get(b, b.len() - 1) != 93 {
        return Err(VampError::ArgumentError);
    }
    let interior = slice_subrange(b, 1, b.len() - 1);
    let stripped = strip_spaces(interior);
    parse_u8_list_bytes(stripped.as_slice())
}

/// The public key a keypair file's text yields: the public half of a valid
/// 64-byte keypair blob.
pub open spec fn spec_keypair_text_pubkey(t: Seq<u8>) -> Option<Seq<u8>> {
    match spec_keypair_text_bytes(t) {
        Some(b) => if spec_keypair_bytes_valid(b) && b.len() == 64 {
            Some(b.subrange(32, 64))
        } else {
            None
        },
        None => None,
    }
}

/// The key an account-like argument resolves to: the public key of the
/// keypair file's contents where those were readable and valid, else the
/// argument itself decoded as base-58.
pub open spec fn spec_resolved_identity(input: Seq<char>, text: Option<Seq<u8>>) -> Option<
    Seq<u8>,
> {
    let from_file = match text {
        Some(t) => spec_keypair_text_pubkey(t),
        None => None,
    };
    match from_file {
        Some(p) => Some(p),
        None => spec_base58_decoded(input),
    }
}

/// Resolve an account-like argument to a public key.
///
/// `input` is the argument as given; `keypair_text` is the contents of the
/// file it names, where the caller could read one. The keypair reading is
/// tried first; a failure at any stage falls back to reading the argument as
/// a base-58 key literal, exactly as both forms are accepted everywhere an
/// identity is required.
pub fn resolve_identity(input: &str, keypair_text: Option<&str>) -> (r: Result<Pubkey, VampError>)
    ensures
        ({
            let text = match keypair_text {
                Some(t) => Some(t.spec_bytes()),
                None => None,
            };
            match r {
                Ok(p) => spec_resolved_identity(input@, text) == Some(p@),
                Err(e) => spec_resolved_identity(input@, text) is None && e
                    == VampError::InvalidIdentity,
            }
        }),
{
    if let Some(text) = keypair_text {
        if let Ok(bytes) = keypair_text_to_bytes(text) {
            if let Ok(p) = keypair_pubkey_checked(bytes.as_slice()) {
                return Ok(p);
            }
        }
    }
    base58_pubkey(input)
}

} // verus!
