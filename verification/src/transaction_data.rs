//! Binary payloads of the ten instruction variants.
//!
//! Each payload begins with a one-byte opcode and continues with a fixed,
//! variant-specific little-endian field layout, with no implicit padding.
//! Serialization is written out field by field, so the byte layout is pinned
//! by the contracts rather than by a compiler's memory layout.

use vstd::bytes::spec_u64_to_le_bytes;
use vstd::bytes::u64_to_le_bytes;
use vstd::prelude::*;

verus! {

/// An absent optional byte encodes as the explicit sentinel zero.
pub open spec fn spec_opt_byte_or_zero(o: Option<u8>) -> u8 {
    match o {
        Some(b) => b,
        None => 0u8,
    }
}

/// A flag byte: one when the condition holds, zero otherwise.
pub open spec fn spec_flag_byte(b: bool) -> u8 {
    if b {
        1u8
    } else {
        0u8
    }
}

/// Opcode 0: take control of a vote account.
///
/// Layout: opcode, 32-byte administrator key, `use_commission_caps` flag
/// byte, `max_commission`, `max_commission_increase_per_epoch` (36 bytes).
#[derive(Clone, Copy, Debug)]
pub struct EnterData {
    pub instruction_code: u8,
    pub administrator: [u8; 32],
    pub use_commission_caps: bool,
    pub max_commission: u8,
    pub max_commission_increase_per_epoch: u8,
}

impl EnterData {
    pub open spec fn spec_serialized(self) -> Seq<u8> {
        seq![self.instruction_code] + self.administrator@ + seq![
            spec_flag_byte(self.use_commission_caps),
            self.max_commission,
            self.max_commission_increase_per_epoch,
        ]
    }

    pub fn serialized(&self) -> (r: Vec<u8>)
        ensures
            r@ == self.spec_serialized(),
            r@.len() == 36,
    {
        let mut r: Vec<u8> = Vec::new();
        r.push(self.instruction_code);
        r.extend_from_slice(self.administrator.as_slice());
        r.push(if self.use_commission_caps {
            1u8
        } else {
            0u8
        });
        r.push(self.max_commission);
        r.push(self.max_commission_increase_per_epoch);
        proof {
            assert(r@ =~= self.spec_serialized());
        }
        r
    }
}

/// Opcode 1: set the epoch at which the account will leave management.
///
/// Layout: opcode, 7 padding bytes, 8-byte little-endian epoch (16 bytes).
#[derive(Clone, Copy, Debug)]
pub struct SetLeaveEpochData {
    pub instruction_code: u8,
    pub padding: [u8; 7],
    pub leave_epoch: u64,
}

impl SetLeaveEpochData {
    pub open spec fn spec_serialized(self) -> Seq<u8> {
        seq![self.instruction_code] + self.padding@ + spec_u64_to_le_bytes(self.leave_epoch)
    }

    pub fn serialized(&self) -> (r: Vec<u8>)
        ensures
            r@ == self.spec_serialized(),
            r@.len() == 16,
    {
        let mut r: Vec<u8> = Vec::new();
        r.push(self.instruction_code);
        r.extend_from_slice(self.padding.as_slice());
        let mut epoch_bytes = u64_to_le_bytes(self.leave_epoch);
        proof {
            vstd::bytes::lemma_auto_spec_u64_to_from_le_bytes();
        }
        r.append(&mut epoch_bytes);
        proof {
            assert(r@ =~= self.spec_serialized());
        }
        r
    }
}

/// Opcode 2: return the vote account to its plain withdraw authority.
///
/// Layout: opcode only (1 byte).
#[derive(Clone, Copy, Debug)]
pub struct LeaveData {
    pub instruction_code: u8,
}

impl LeaveData {
    pub open spec fn spec_serialized(self) -> Seq<u8> {
        seq![self.instruction_code]
    }

    pub fn serialized(&self) -> (r: Vec<u8>)
        ensures
            r@ == self.spec_serialized(),
            r@.len() == 1,
    {
        let mut r: Vec<u8> = Vec::new();
        r.push(self.instruction_code);
        proof {
            assert(r@ =~= self.spec_serialized());
        }
        r
    }
}

/// Opcodes 3, 4, 5: replace the administrator, operational authority, or
/// rewards authority.
///
/// Layout: opcode, 32-byte replacement key (33 bytes).
#[derive(Clone, Copy, Debug)]
pub struct SetAuthorityData {
    pub instruction_code: u8,
    pub new_authority: [u8; 32],
}

impl SetAuthorityData {
    pub open spec fn spec_serialized(self) -> Seq<u8> {
        seq![self.instruction_code] + self.new_authority@
    }

    pub fn serialized(&self) -> (r: Vec<u8>)
        ensures
            r@ == self.spec_serialized(),
            r@.len() == 33,
    {
        let mut r: Vec<u8> = Vec::new();
        r.push(self.instruction_code);
        r.extend_from_slice(self.new_authority.as_slice());
        proof {
            assert(r@ =~= self.spec_serialized());
        }
        r
    }
}

/// Opcode 6: replace the vote authority on the vote account.
///
/// Layout: opcode, 32-byte replacement key (33 bytes).
#[derive(Clone, Copy, Debug)]
pub struct SetVoteAuthorityData {
    pub instruction_code: u8,
    pub new_authority: [u8; 32],
}

impl SetVoteAuthorityData {
    pub open spec fn spec_serialized(self) -> Seq<u8> {
        seq![self.instruction_code] + self.new_authority@
    }

    pub fn serialized(&self) -> (r: Vec<u8>)
        ensures
            r@ == self.spec_serialized(),
            r@.len() == 33,
    {
        let mut r: Vec<u8> = Vec::new();
        r.push(self.instruction_code);
        r.extend_from_slice(self.new_authority.as_slice());
        proof {
            assert(r@ =~= self.spec_serialized());
        }
        r
    }
}

/// Opcode 7: replace the validator identity; the replacement key is supplied
/// only as a co-signing account, never in the payload.
///
/// Layout: opcode only (1 byte).
#[derive(Clone, Copy, Debug)]
pub struct SetValidatorIdentityData {
    pub instruction_code: u8,
}

impl SetValidatorIdentityData {
    pub open spec fn spec_serialized(self) -> Seq<u8> {
        seq![self.instruction_code]
    }

    pub fn serialized(&self) -> (r: Vec<u8>)
        ensures
            r@ == self.spec_serialized(),
            r@.len() == 1,
    {
        let mut r: Vec<u8> = Vec::new();
        r.push(self.instruction_code);
        proof {
            assert(r@ =~= self.spec_serialized());
        }
        r
    }
}

/// Opcode 8: withdraw rewards; zero lamports means the maximum the ledger's
/// minimum-balance rules allow, resolved by the on-chain program.
///
/// Layout: opcode, 7 padding bytes, 8-byte little-endian lamports (16 bytes).
#[derive(Clone, Copy, Debug)]
pub struct WithdrawData {
    pub instruction_code: u8,
    pub padding: [u8; 7],
    pub lamports: u64,
}

impl WithdrawData {
    pub open spec fn spec_serialized(self) -> Seq<u8> {
        seq![self.instruction_code] + self.padding@ + spec_u64_to_le_bytes(self.lamports)
    }

    pub fn serialized(&self) -> (r: Vec<u8>)
        ensures
            r@ == self.spec_serialized(),
            r@.len() == 16,
    {
        let mut r: Vec<u8> = Vec::new();
        r.push(self.instruction_code);
        r.extend_from_slice(self.padding.as_slice());
        let mut lamport_bytes = u64_to_le_bytes(self.lamports);
        proof {
            vstd::bytes::lemma_auto_spec_u64_to_from_le_bytes();
        }
        r.append(&mut lamport_bytes);
        proof {
            assert(r@ =~= self.spec_serialized());
        }
        r
    }
}

/// Opcode 9: set the commission percentage on the vote account.
///
/// Layout: opcode, commission byte (2 bytes).
#[derive(Clone, Copy, Debug)]
pub struct SetCommissionData {
    pub instruction_code: u8,
    pub new_commission: u8,
}

impl SetCommissionData {
    pub open spec fn spec_serialized(self) -> Seq<u8> {
        seq![self.instruction_code, self.new_commission]
    }

    pub fn serialized(&self) -> (r: Vec<u8>)
        ensures
            r@ == self.spec_serialized(),
            r@.len() == 2,
    {
        let mut r: Vec<u8> = Vec::new();
        r.push(self.instruction_code);
        r.push(self.new_commission);
        proof {
            assert(r@ =~= self.spec_serialized());
        }
        r
    }
}

} // verus!
