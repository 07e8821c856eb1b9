//! The state decoder.
//!
//! A managed-record account holds a fixed 168-byte blob. Decoding checks the
//! length and then reads fixed byte ranges; it never fails on a well-sized
//! input. A blob of any other length means the vote account is not managed
//! by the program (or the record was not produced by it), reported as
//! `NotManaged`.

use crate::errors::VampError;
use crate::keys::Pubkey;
use vstd::bytes::spec_u64_from_le_bytes;
use vstd::bytes::u64_from_le_bytes;
use vstd::prelude::*;
use vstd::slice::slice_index_get;
use vstd::slice::slice_subrange;

verus! {

/// The exact size of a managed-record account blob.
pub const MANAGED_RECORD_LEN: usize = 168;

/// The commission caps chosen at entry: a maximum commission and a maximum
/// increase per epoch. Present on a record iff the account was entered with
/// caps enabled.
#[derive(Clone, Copy, Debug, PartialEq, Eq, Structural)]
pub struct CommissionCaps {
    pub max_commission: u8,
    pub max_commission_increase_per_epoch: u8,
}

/// A decoded managed-record snapshot: the four-role authority hierarchy,
/// the optional commission caps, and the leave epoch (zero meaning unset).
#[derive(Clone, Copy, Debug, PartialEq, Eq)]
pub struct ManagedAccountRecord {
    pub withdraw_authority: Pubkey,
    pub administrator: Pubkey,
    pub operational_authority: Pubkey,
    pub rewards_authority: Pubkey,
    pub commission_cap: Option<CommissionCaps>,
    pub leave_epoch: u64,
}

impl ManagedAccountRecord {
    /// A leave epoch set without commission caps is not producible by this
    /// protocol; such a record signals a decode inconsistency.
    pub open spec fn spec_consistent(self) -> bool {
        self.leave_epoch != 0 ==> self.commission_cap is Some
    }

    /// Whether the record could have been produced by this protocol.
    pub fn is_consistent(&self) -> (r: bool)
        ensures
            r == self.spec_consistent(),
    {
        self.leave_epoch == 0 || self.commission_cap.is_some()
    }

    /// The leave epoch for display: zero stands for "unset", not epoch zero.
    pub fn leave_epoch_display(&self) -> (r: Option<u64>)
        ensures
            self.leave_epoch == 0 ==> r is None,
            self.leave_epoch != 0 ==> r == Some(self.leave_epoch),
    {
        if self.leave_epoch == 0 {
            None
        } else {
            Some(self.leave_epoch)
        }
    }
}

/// Decode a fetched account blob into a managed-record snapshot.
///
/// The layout is fixed: bytes 0-31 withdraw authority, 32-63 administrator,
/// 64-95 operational authority, 96-127 rewards authority, byte 128 the
/// commission-caps-enabled flag, bytes 129 and 130 the two caps, bytes
/// 144-151 the little-endian leave epoch; the rest is reserved.
pub fn decode_record(data: &[u8]) -> (r: Result<ManagedAccountRecord, VampError>)
    ensures
        data@.len() != 168 ==> r == Err::<ManagedAccountRecord, VampError>(VampError::NotManaged),
        data@.len() == 168 ==> match r {
            Ok(rec) => {
                &&& rec.withdraw_authority@ == data@.subrange(0, 32)
                &&& rec.administrator@ == data@.subrange(32, 64)
                &&& rec.operational_authority@ == data@.subrange(64, 96)
                &&& rec.rewards_authority@ == data@.subrange(96, 128)
                &&& (data@[128] == 0 <==> rec.commission_cap is None)
                &&& (data@[128] != 0 ==> rec.commission_cap == Some(
                    (CommissionCaps {
                        max_commission: data@[129],
                        max_commission_increase_per_epoch: data@[130],
                    }),
                ))
                &&& rec.leave_epoch == spec_u64_from_le_bytes(data@.subrange(144, 152))
            },
            Err(_) => false,
        },
{
    if data.len() != MANAGED_RECORD_LEN {
        return Err(VampError::NotManaged);
    }
    let withdraw_authority = Pubkey::from_slice(slice_subrange(data, 0, 32));
    let administrator = Pubkey::from_slice(slice_subrange(data, 32, 64));
    let operational_authority = Pubkey::from_slice(slice_subrange(data, 64, 96));
    let rewards_authority = Pubkey::from_slice(slice_subrange(data, 96, 128));
    let commission_cap = if *slice_index_get(data, 128) == 0 {
        None
    } else {
        Some(
            CommissionCaps {
                max_commission: *slice_index_get(data, 129),
                max_commission_increase_per_epoch: *slice_index_get(data, 130),
            },
        )
    };
    let leave_epoch = u64_from_le_bytes(slice_subrange(data, 144, 152));
    Ok(
        ManagedAccountRecord {
            withdraw_authority,
            administrator,
            operational_authority,
            rewards_authority,
            commission_cap,
            leave_epoch,
        },
    )
}

} // verus!
