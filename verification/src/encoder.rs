//! The instruction encoder.
//!
//! Each of the ten command variants maps to an exact ordered account list,
//! each entry tagged with signer and writable flags, and a binary payload
//! whose first byte is the variant's opcode. The on-chain program indexes
//! accounts positionally, so the order stated here is part of the protocol.

use crate::keys::Pubkey;
use crate::keys::spec_clock_sysvar_id;
use crate::keys::spec_system_program_id;
use crate::keys::spec_vote_program_id;
use crate::keys::clock_sysvar_id;
use crate::keys::system_program_id;
use crate::keys::vote_program_id;
use crate::transaction_data::EnterData;
use crate::transaction_data::LeaveData;
use crate::transaction_data::SetAuthorityData;
use crate::transaction_data::SetCommissionData;
use crate::transaction_data::SetLeaveEpochData;
use crate::transaction_data::SetValidatorIdentityData;
use crate::transaction_data::SetVoteAuthorityData;
use crate::transaction_data::WithdrawData;
use crate::transaction_data::spec_flag_byte;
use crate::transaction_data::spec_opt_byte_or_zero;
use vstd::bytes::spec_u64_to_le_bytes;
use vstd::prelude::*;

verus! {

/// One entry of an instruction's ordered account list.
#[derive(Clone, Copy, Debug)]
pub struct AccountMeta {
    pub pubkey: Pubkey,
    pub is_signer: bool,
    pub is_writable: bool,
}

/// An account entry has the given key bytes and flags.
pub open spec fn spec_meta_is(m: AccountMeta, key: Seq<u8>, signer: bool, writable: bool) -> bool {
    m.pubkey@ == key && m.is_signer == signer && m.is_writable == writable
}

/// A fully encoded instruction: the program to invoke, the ordered account
/// list, and the binary payload.
#[derive(Clone, Debug)]
pub struct VampInstruction {
    pub program_id: Pubkey,
    pub accounts: Vec<AccountMeta>,
    pub data: Vec<u8>,
}

/// A command as the front end hands it over, with every identity already
/// resolved to a key and every quantity already an integer.
#[derive(Clone, Copy, Debug)]
pub enum Command {
    Enter {
        withdraw_authority: Pubkey,
        administrator: Pubkey,
        max_commission: Option<u8>,
        max_commission_increase_per_epoch: Option<u8>,
    },
    SetLeaveEpoch { withdraw_authority: Pubkey, leave_epoch: u64 },
    Leave { withdraw_authority: Pubkey },
    SetAdministrator { withdraw_authority: Pubkey, administrator: Pubkey },
    SetOperationalAuthority { administrator: Pubkey, authority: Pubkey },
    SetRewardsAuthority { administrator: Pubkey, authority: Pubkey },
    SetVoteAuthority { operational_authority: Pubkey, authority: Pubkey },
    SetValidatorIdentity { operational_authority: Pubkey, validator_identity: Pubkey },
    Withdraw { rewards_authority: Pubkey, recipient: Pubkey, lamports: u64 },
    SetCommission { rewards_authority: Pubkey, commission: u8 },
    Show { json: bool },
}

/// The ten instruction-bearing command variants. `Show` is a read-only
/// query and has no opcode.
#[derive(Clone, Copy, Debug, PartialEq, Eq, Structural)]
pub enum CommandKind {
    Enter,
    SetLeaveEpoch,
    Leave,
    SetAdministrator,
    SetOperationalAuthority,
    SetRewardsAuthority,
    SetVoteAuthority,
    SetValidatorIdentity,
    Withdraw,
    SetCommission,
}

/// The opcode of each instruction-bearing variant.
pub open spec fn spec_opcode(k: CommandKind) -> u8 {
    match k {
        CommandKind::Enter => 0u8,
        CommandKind::SetLeaveEpoch => 1u8,
        CommandKind::Leave => 2u8,
        CommandKind::SetAdministrator => 3u8,
        CommandKind::SetOperationalAuthority => 4u8,
        CommandKind::SetRewardsAuthority => 5u8,
        CommandKind::SetVoteAuthority => 6u8,
        CommandKind::SetValidatorIdentity => 7u8,
        CommandKind::Withdraw => 8u8,
        CommandKind::SetCommission => 9u8,
    }
}

/// The variant a payload's first byte denotes, if any.
pub open spec fn spec_kind_of_opcode(b: u8) -> Option<CommandKind> {
    if b == 0 {
        Some(CommandKind::Enter)
    } else if b == 1 {
        Some(CommandKind::SetLeaveEpoch)
    } else if b == 2 {
        Some(CommandKind::Leave)
    } else if b == 3 {
        Some(CommandKind::SetAdministrator)
    } else if b == 4 {
        Some(CommandKind::SetOperationalAuthority)
    } else if b == 5 {
        Some(CommandKind::SetRewardsAuthority)
    } else if b == 6 {
        Some(CommandKind::SetVoteAuthority)
    } else if b == 7 {
        Some(CommandKind::SetValidatorIdentity)
    } else if b == 8 {
        Some(CommandKind::Withdraw)
    } else if b == 9 {
        Some(CommandKind::SetCommission)
    } else {
        None
    }
}

/// The opcode of each instruction-bearing variant.
pub fn opcode(k: CommandKind) -> (r: u8)
    ensures
        r == spec_opcode(k),
{
    match k {
        CommandKind::Enter => 0u8,
        CommandKind::SetLeaveEpoch => 1u8,
        CommandKind::Leave => 2u8,
        CommandKind::SetAdministrator => 3u8,
        CommandKind::SetOperationalAuthority => 4u8,
        CommandKind::SetRewardsAuthority => 5u8,
        CommandKind::SetVoteAuthority => 6u8,
        CommandKind::SetValidatorIdentity => 7u8,
        CommandKind::Withdraw => 8u8,
        CommandKind::SetCommission => 9u8,
    }
}

/// The variant a payload's first byte denotes, if any.
pub fn kind_of_opcode(b: u8) -> (r: Option<CommandKind>)
    ensures
        r == spec_kind_of_opcode(b),
{
    if b == 0 {
        Some(CommandKind::Enter)
    } else if b == 1 {
        Some(CommandKind::SetLeaveEpoch)
    } else if b == 2 {
        Some(CommandKind::Leave)
    } else if b == 3 {
        Some(CommandKind::SetAdministrator)
    } else if b == 4 {
        Some(CommandKind::SetOperationalAuthority)
    } else if b == 5 {
        Some(CommandKind::SetRewardsAuthority)
    } else if b == 6 {
        Some(CommandKind::SetVoteAuthority)
    } else if b == 7 {
        Some(CommandKind::SetValidatorIdentity)
    } else if b == 8 {
        Some(CommandKind::Withdraw)
    } else if b == 9 {
        Some(CommandKind::SetCommission)
    } else {
        None
    }
}

/// The kind of an instruction-bearing command; `Show` has none.
pub open spec fn spec_command_kind(cmd: Command) -> Option<CommandKind> {
    match cmd {
        Command::Enter { .. } => Some(CommandKind::Enter),
        Command::SetLeaveEpoch { .. } => Some(CommandKind::SetLeaveEpoch),
        Command::Leave { .. } => Some(CommandKind::Leave),
        Command::SetAdministrator { .. } => Some(CommandKind::SetAdministrator),
        Command::SetOperationalAuthority { .. } => Some(CommandKind::SetOperationalAuthority),
        Command::SetRewardsAuthority { .. } => Some(CommandKind::SetRewardsAuthority),
        Command::SetVoteAuthority { .. } => Some(CommandKind::SetVoteAuthority),
        Command::SetValidatorIdentity { .. } => Some(CommandKind::SetValidatorIdentity),
        Command::Withdraw { .. } => Some(CommandKind::Withdraw),
        Command::SetCommission { .. } => Some(CommandKind::SetCommission),
        Command::Show { .. } => None,
    }
}

/// Each instruction-bearing variant owns exactly one opcode: the mapping
/// from variant to opcode byte and back is the identity.
pub proof fn lemma_opcode_round_trip(k: CommandKind)
    ensures
        spec_kind_of_opcode(spec_opcode(k)) == Some(k),
{
}

/// No two distinct variants share an opcode byte.
pub proof fn lemma_opcode_injective(k1: CommandKind, k2: CommandKind)
    requires
        spec_opcode(k1) == spec_opcode(k2),
    ensures
        k1 == k2,
{
}

/// The exact payload each command encodes to; `Show` encodes nothing.
pub open spec fn spec_payload_of(cmd: Command) -> Seq<u8> {
    match cmd {
        Command::Enter {
            administrator,
            max_commission,
            max_commission_increase_per_epoch,
            ..
        } => seq![0u8] + administrator@ + seq![
            spec_flag_byte(
                max_commission is Some || max_commission_increase_per_epoch is Some,
            ),
            spec_opt_byte_or_zero(max_commission),
            spec_opt_byte_or_zero(max_commission_increase_per_epoch),
        ],
        Command::SetLeaveEpoch { leave_epoch, .. } => seq![
            1u8,
            0u8,
            0u8,
            0u8,
            0u8,
            0u8,
            0u8,
            0u8,
        ] + spec_u64_to_le_bytes(leave_epoch),
        Command::Leave { .. } => seq![2u8],
        Command::SetAdministrator { administrator, .. } => seq![3u8] + administrator@,
        Command::SetOperationalAuthority { authority, .. } => seq![4u8] + authority@,
        Command::SetRewardsAuthority { authority, .. } => seq![5u8] + authority@,
        Command::SetVoteAuthority { authority, .. } => seq![6u8] + authority@,
        Command::SetValidatorIdentity { .. } => seq![7u8],
        Command::Withdraw { lamports, .. } => seq![8u8, 0u8, 0u8, 0u8, 0u8, 0u8, 0u8, 0u8]
            + spec_u64_to_le_bytes(lamports),
        Command::SetCommission { commission, .. } => seq![9u8, commission],
        Command::Show { .. } => Seq::empty(),
    }
}

/// The exact ordered account list each command requires, over the derived
/// record address, the vote account, and the fee payer.
pub open spec fn spec_accounts_expected(
    cmd: Command,
    record: Seq<u8>,
    vote_account: Seq<u8>,
    fee_payer: Seq<u8>,
    metas: Seq<AccountMeta>,
) -> bool {
    match cmd {
        Command::Enter { withdraw_authority, .. } => {
            &&& metas.len() == 7
            &&& spec_meta_is(metas[0], record, false, true)
            &&& spec_meta_is(metas[1], vote_account, false, true)
            &&& spec_meta_is(metas[2], fee_payer, true, true)
            &&& spec_meta_is(metas[3], withdraw_authority@, true, false)
            &&& spec_meta_is(metas[4], spec_system_program_id(), false, false)
            &&& spec_meta_is(metas[5], spec_vote_program_id(), false, false)
            &&& spec_meta_is(metas[6], spec_clock_sysvar_id(), false, false)
        },
        Command::SetLeaveEpoch { withdraw_authority, .. } => {
            &&& metas.len() == 3
            &&& spec_meta_is(metas[0], record, false, true)
            &&& spec_meta_is(metas[1], vote_account, false, true)
            &&& spec_meta_is(metas[2], withdraw_authority@, true, false)
        },
        Command::Leave { withdraw_authority } => {
            &&& metas.len() == 6
            &&& spec_meta_is(metas[0], record, false, true)
            &&& spec_meta_is(metas[1], vote_account, false, true)
            &&& spec_meta_is(metas[2], withdraw_authority@, true, false)
            &&& spec_meta_is(metas[3], fee_payer, false, true)
            &&& spec_meta_is(metas[4], spec_vote_program_id(), false, false)
            &&& spec_meta_is(metas[5], spec_clock_sysvar_id(), false, false)
        },
        Command::SetAdministrator { withdraw_authority, .. } => {
            &&& metas.len() == 3
            &&& spec_meta_is(metas[0], record, false, true)
            &&& spec_meta_is(metas[1], vote_account, false, false)
            &&& spec_meta_is(metas[2], withdraw_authority@, true, false)
        },
        Command::SetOperationalAuthority { administrator, .. } => {
            &&& metas.len() == 3
            &&& spec_meta_is(metas[0], record, false, true)
            &&& spec_meta_is(metas[1], vote_account, false, false)
            &&& spec_meta_is(metas[2], administrator@, true, false)
        },
        Command::SetRewardsAuthority { administrator, .. } => {
            &&& metas.len() == 3
            &&& spec_meta_is(metas[0], record, false, true)
            &&& spec_meta_is(metas[1], vote_account, false, false)
            &&& spec_meta_is(metas[2], administrator@, true, false)
        },
        Command::SetVoteAuthority { operational_authority, .. } => {
            &&& metas.len() == 5
            &&& spec_meta_is(metas[0], record, false, false)
            &&& spec_meta_is(metas[1], vote_account, false, true)
            &&& spec_meta_is(metas[2], operational_authority@, true, false)
            &&& spec_meta_is(metas[3], spec_vote_program_id(), false, false)
            &&& spec_meta_is(metas[4], spec_clock_sysvar_id(), false, false)
        },
        Command::SetValidatorIdentity { operational_authority, validator_identity } => {
            &&& metas.len() == 5
            &&& spec_meta_is(metas[0], record, false, false)
            &&& spec_meta_is(metas[1], vote_account, false, true)
            &&& spec_meta_is(metas[2], operational_authority@, true, false)
            &&& spec_meta_is(metas[3], validator_identity@, true, false)
            &&& spec_meta_is(metas[4], spec_vote_program_id(), false, false)
        },
        Command::Withdraw { rewards_authority, recipient, .. } => {
            &&& metas.len() == 5
            &&& spec_meta_is(metas[0], record, false, false)
            &&& spec_meta_is(metas[1], vote_account, false, true)
            &&& spec_meta_is(metas[2], rewards_authority@, true, false)
            &&& spec_meta_is(metas[3], recipient@, false, true)
            &&& spec_meta_is(metas[4], spec_vote_program_id(), false, false)
        },
        Command::SetCommission { rewards_authority, .. } => {
            &&& metas.len() == 4
            &&& spec_meta_is(metas[0], record, false, true)
            &&& spec_meta_is(metas[1], vote_account, false, true)
            &&& spec_meta_is(metas[2], rewards_authority@, true, false)
            &&& spec_meta_is(metas[3], spec_vote_program_id(), false, false)
        },
        Command::Show { .. } => metas.len() == 0,
    }
}

/// The minimum signer set of each command: the fee payer always signs, then
/// the role authority, then - for identity replacement - the new identity
/// itself, which co-signs to prove possession of its private key.
pub open spec fn spec_signers_of(cmd: Command, fee_payer: Seq<u8>) -> Seq<Seq<u8>> {
    match cmd {
        Command::Enter { withdraw_authority, .. } => seq![fee_payer, withdraw_authority@],
        Command::SetLeaveEpoch { withdraw_authority, .. } => seq![fee_payer, withdraw_authority@],
        Command::Leave { withdraw_authority } => seq![fee_payer, withdraw_authority@],
        Command::SetAdministrator { withdraw_authority, .. } => seq![
            fee_payer,
            withdraw_authority@,
        ],
        Command::SetOperationalAuthority { administrator, .. } => seq![fee_payer, administrator@],
        Command::SetRewardsAuthority { administrator, .. } => seq![fee_payer, administrator@],
        Command::SetVoteAuthority { operational_authority, .. } => seq![
            fee_payer,
            operational_authority@,
        ],
        Command::SetValidatorIdentity { operational_authority, validator_identity } => seq![
            fee_payer,
            operational_authority@,
            validator_identity@,
        ],
        Command::Withdraw { rewards_authority, .. } => seq![fee_payer, rewards_authority@],
        Command::SetCommission { rewards_authority, .. } => seq![fee_payer, rewards_authority@],
        Command::Show { .. } => Seq::empty(),
    }
}

/// Encoding an instruction-bearing command and reading the payload's first
/// byte back recovers the command's variant, for every variant exactly once.
pub proof fn lemma_payload_opcode_round_trip(cmd: Command)
    requires
        !(cmd is Show),
    ensures
        spec_payload_of(cmd).len() > 0,
        spec_command_kind(cmd) is Some,
        spec_kind_of_opcode(spec_payload_of(cmd)[0]) == spec_command_kind(cmd),
{
    match cmd {
        Command::Enter { .. } => {
            assert(spec_payload_of(cmd)[0] == 0);
        },
        Command::SetLeaveEpoch { .. } => {
            assert(spec_payload_of(cmd)[0] == 1);
        },
        Command::Leave { .. } => {
            assert(spec_payload_of(cmd)[0] == 2);
        },
        Command::SetAdministrator { .. } => {
            assert(spec_payload_of(cmd)[0] == 3);
        },
        Command::SetOperationalAuthority { .. } => {
            assert(spec_payload_of(cmd)[0] == 4);
        },
        Command::SetRewardsAuthority { .. } => {
            assert(spec_payload_of(cmd)[0] == 5);
        },
        Command::SetVoteAuthority { .. } => {
            assert(spec_payload_of(cmd)[0] == 6);
        },
        Command::SetValidatorIdentity { .. } => {
            assert(spec_payload_of(cmd)[0] == 7);
        },
        Command::Withdraw { .. } => {
            assert(spec_payload_of(cmd)[0] == 8);
        },
        Command::SetCommission { .. } => {
            assert(spec_payload_of(cmd)[0] == 9);
        },
        Command::Show { .. } => {
        },
    }
}

/// An `enter` payload carries the commission caps behind an explicit flag
/// byte at offset 33: it is one exactly when either cap was supplied, so a
/// cap of zero - or one cap supplied with the other defaulted to zero -
/// stays distinguishable from "caps disabled", whose flag byte is zero.
pub proof fn lemma_enter_caps_flag_byte(
    withdraw_authority: Pubkey,
    administrator: Pubkey,
    max_commission: Option<u8>,
    max_commission_increase_per_epoch: Option<u8>,
)
    ensures
        ({
            let payload = spec_payload_of(
                (Command::Enter {
                    withdraw_authority,
                    administrator,
                    max_commission,
                    max_commission_increase_per_epoch,
                }),
            );
            &&& payload.len() == 36
            &&& payload[33] == spec_flag_byte(
                max_commission is Some || max_commission_increase_per_epoch is Some,
            )
            &&& payload[34] == spec_opt_byte_or_zero(max_commission)
            &&& payload[35] == spec_opt_byte_or_zero(max_commission_increase_per_epoch)
        }),
{
}

/// Encode `enter`: the program takes control of the vote account.
pub fn enter_instruction(
    program_id: &Pubkey,
    record: &Pubkey,
    vote_account: &Pubkey,
    fee_payer: &Pubkey,
    withdraw_authority: &Pubkey,
    administrator: &Pubkey,
    max_commission: Option<u8>,
    max_commission_increase_per_epoch: Option<u8>,
) -> (r: VampInstruction)
    ensures
        r.program_id@ == program_id@,
        spec_accounts_expected(
            (Command::Enter {
                withdraw_authority: *withdraw_authority,
                administrator: *administrator,
                max_commission,
                max_commission_increase_per_epoch,
            }),
            record@,
            vote_account@,
            fee_payer@,
            r.accounts@,
        ),
        r.data@ == spec_payload_of(
            (Command::Enter {
                withdraw_authority: *withdraw_authority,
                administrator: *administrator,
                max_commission,
                max_commission_increase_per_epoch,
            }),
        ),
        r.data@.len() == 36,
{
    let mut accounts: Vec<AccountMeta> = Vec::new();
    accounts.push(AccountMeta { pubkey: *record, is_signer: false, is_writable: true });
    accounts.push(AccountMeta { pubkey: *vote_account, is_signer: false, is_writable: true });
    accounts.push(AccountMeta { pubkey: *fee_payer, is_signer: true, is_writable: true });
    accounts.push(AccountMeta { pubkey: *withdraw_authority, is_signer: true, is_writable: false });
    accounts.push(AccountMeta { pubkey: system_program_id(), is_signer: false, is_writable: false });
    accounts.push(AccountMeta { pubkey: vote_program_id(), is_signer: false, is_writable: false });
    accounts.push(AccountMeta { pubkey: clock_sysvar_id(), is_signer: false, is_writable: false });
    let data = EnterData {
        instruction_code: 0,
        administrator: administrator.bytes,
        use_commission_caps: max_commission.is_some()
            || max_commission_increase_per_epoch.is_some(),
        max_commission: max_commission.unwrap_or(0),
        max_commission_increase_per_epoch: max_commission_increase_per_epoch.unwrap_or(0),
    }.serialized();
    VampInstruction { program_id: *program_id, accounts, data }
}

/// Encode `set-leave-epoch`.
pub fn set_leave_epoch_instruction(
    program_id: &Pubkey,
    record: &Pubkey,
    vote_account: &Pubkey,
    withdraw_authority: &Pubkey,
    leave_epoch: u64,
) -> (r: VampInstruction)
    ensures
        r.program_id@ == program_id@,
        spec_accounts_expected(
            (Command::SetLeaveEpoch { withdraw_authority: *withdraw_authority, leave_epoch }),
            record@,
            vote_account@,
            Seq::empty(),
            r.accounts@,
        ),
        r.data@ == spec_payload_of(
            (Command::SetLeaveEpoch { withdraw_authority: *withdraw_authority, leave_epoch }),
        ),
        r.data@.len() == 16,
{
    let mut accounts: Vec<AccountMeta> = Vec::new();
    accounts.push(AccountMeta { pubkey: *record, is_signer: false, is_writable: true });
    accounts.push(AccountMeta { pubkey: *vote_account, is_signer: false, is_writable: true });
    accounts.push(AccountMeta { pubkey: *withdraw_authority, is_signer: true, is_writable: false });
    let data = SetLeaveEpochData { instruction_code: 1, padding: [0u8; 7], leave_epoch }.serialized();
    proof {
        assert(data@ =~= spec_payload_of(
            (Command::SetLeaveEpoch { withdraw_authority: *withdraw_authority, leave_epoch }),
        ));
    }
    VampInstruction { program_id: *program_id, accounts, data }
}

/// Encode `leave`: control returns to the plain withdraw authority; the fee
/// payer receives the record account's lamports.
pub fn leave_instruction(
    program_id: &Pubkey,
    record: &Pubkey,
    vote_account: &Pubkey,
    withdraw_authority: &Pubkey,
    fee_payer: &Pubkey,
) -> (r: VampInstruction)
    ensures
        r.program_id@ == program_id@,
        spec_accounts_expected(
            (Command::Leave { withdraw_authority: *withdraw_authority }),
            record@,
            vote_account@,
            fee_payer@,
            r.accounts@,
        ),
        r.data@ == spec_payload_of((Command::Leave { withdraw_authority: *withdraw_authority })),
        r.data@.len() == 1,
{
    let mut accounts: Vec<AccountMeta> = Vec::new();
    accounts.push(AccountMeta { pubkey: *record, is_signer: false, is_writable: true });
    accounts.push(AccountMeta { pubkey: *vote_account, is_signer: false, is_writable: true });
    accounts.push(AccountMeta { pubkey: *withdraw_authority, is_signer: true, is_writable: false });
    accounts.push(AccountMeta { pubkey: *fee_payer, is_signer: false, is_writable: true });
    accounts.push(AccountMeta { pubkey: vote_program_id(), is_signer: false, is_writable: false });
    accounts.push(AccountMeta { pubkey: clock_sysvar_id(), is_signer: false, is_writable: false });
    let data = LeaveData { instruction_code: 2 }.serialized();
    VampInstruction { program_id: *program_id, accounts, data }
}

/// Encode `set-administrator`, `set-operational-authority`, or
/// `set-rewards-authority`: the three share one account shape and payload
/// layout, distinguished only by opcode.
pub fn set_authority_instruction(
    program_id: &Pubkey,
    record: &Pubkey,
    vote_account: &Pubkey,
    authority: &Pubkey,
    new_authority: &Pubkey,
    kind: CommandKind,
) -> (r: VampInstruction)
    requires
        kind == CommandKind::SetAdministrator || kind == CommandKind::SetOperationalAuthority
            || kind == CommandKind::SetRewardsAuthority,
    ensures
        r.program_id@ == program_id@,
        r.accounts@.len() == 3,
        spec_meta_is(r.accounts@[0], record@, false, true),
        spec_meta_is(r.accounts@[1], vote_account@, false, false),
        spec_meta_is(r.accounts@[2], authority@, true, false),
        r.data@ == seq![spec_opcode(kind)] + new_authority@,
        r.data@.len() == 33,
{
    let mut accounts: Vec<AccountMeta> = Vec::new();
    accounts.push(AccountMeta { pubkey: *record, is_signer: false, is_writable: true });
    accounts.push(AccountMeta { pubkey: *vote_account, is_signer: false, is_writable: false });
    accounts.push(AccountMeta { pubkey: *authority, is_signer: true, is_writable: false });
    let data = SetAuthorityData {
        instruction_code: opcode(kind),
        new_authority: new_authority.bytes,
    }.serialized();
    VampInstruction { program_id: *program_id, accounts, data }
}

/// Encode `set-vote-authority`.
pub fn set_vote_authority_instruction(
    program_id: &Pubkey,
    record: &Pubkey,
    vote_account: &Pubkey,
    operational_authority: &Pubkey,
    new_authority: &Pubkey,
) -> (r: VampInstruction)
    ensures
        r.program_id@ == program_id@,
        spec_accounts_expected(
            (Command::SetVoteAuthority {
                operational_authority: *operational_authority,
                authority: *new_authority,
            }),
            record@,
            vote_account@,
            Seq::empty(),
            r.accounts@,
        ),
        r.data@ == spec_payload_of(
            (Command::SetVoteAuthority {
                operational_authority: *operational_authority,
                authority: *new_authority,
            }),
        ),
        r.data@.len() == 33,
{
    let mut accounts: Vec<AccountMeta> = Vec::new();
    accounts.push(AccountMeta { pubkey: *record, is_signer: false, is_writable: false });
    accounts.push(AccountMeta { pubkey: *vote_account, is_signer: false, is_writable: true });
    accounts.push(
        AccountMeta { pubkey: *operational_authority, is_signer: true, is_writable: false },
    );
    accounts.push(AccountMeta { pubkey: vote_program_id(), is_signer: false, is_writable: false });
    accounts.push(AccountMeta { pubkey: clock_sysvar_id(), is_signer: false, is_writable: false });
    let data = SetVoteAuthorityData {
        instruction_code: 6,
        new_authority: new_authority.bytes,
    }.serialized();
    VampInstruction { program_id: *program_id, accounts, data }
}

/// Encode `set-validator-identity`; the new identity appears only as a
/// co-signing account.
pub fn set_validator_identity_instruction(
    program_id: &Pubkey,
    record: &Pubkey,
    vote_account: &Pubkey,
    operational_authority: &Pubkey,
    validator_identity: &Pubkey,
) -> (r: VampInstruction)
    ensures
        r.program_id@ == program_id@,
        spec_accounts_expected(
            (Command::SetValidatorIdentity {
                operational_authority: *operational_authority,
                validator_identity: *validator_identity,
            }),
            record@,
            vote_account@,
            Seq::empty(),
            r.accounts@,
        ),
        r.data@ == spec_payload_of(
            (Command::SetValidatorIdentity {
                operational_authority: *operational_authority,
                validator_identity: *validator_identity,
            }),
        ),
        r.data@.len() == 1,
{
    let mut accounts: Vec<AccountMeta> = Vec::new();
    accounts.push(AccountMeta { pubkey: *record, is_signer: false, is_writable: false });
    accounts.push(AccountMeta { pubkey: *vote_account, is_signer: false, is_writable: true });
    accounts.push(
        AccountMeta { pubkey: *operational_authority, is_signer: true, is_writable: false },
    );
    accounts.push(AccountMeta { pubkey: *validator_identity, is_signer: true, is_writable: false });
    accounts.push(AccountMeta { pubkey: vote_program_id(), is_signer: false, is_writable: false });
    let data = SetValidatorIdentityData { instruction_code: 7 }.serialized();
    VampInstruction { program_id: *program_id, accounts, data }
}

/// Encode `withdraw`; zero lamports asks for the maximum the ledger's
/// minimum-balance rules allow.
pub fn withdraw_instruction(
    program_id: &Pubkey,
    record: &Pubkey,
    vote_account: &Pubkey,
    rewards_authority: &Pubkey,
    recipient: &Pubkey,
    lamports: u64,
) -> (r: VampInstruction)
    ensures
        r.program_id@ == program_id@,
        spec_accounts_expected(
            (Command::Withdraw {
                rewards_authority: *rewards_authority,
                recipient: *recipient,
                lamports,
            }),
            record@,
            vote_account@,
            Seq::empty(),
            r.accounts@,
        ),
        r.data@ == spec_payload_of(
            (Command::Withdraw {
                rewards_authority: *rewards_authority,
                recipient: *recipient,
                lamports,
            }),
        ),
        r.data@.len() == 16,
{
    let mut accounts: Vec<AccountMeta> = Vec::new();
    accounts.push(AccountMeta { pubkey: *record, is_signer: false, is_writable: false });
    accounts.push(AccountMeta { pubkey: *vote_account, is_signer: false, is_writable: true });
    accounts.push(AccountMeta { pubkey: *rewards_authority, is_signer: true, is_writable: false });
    accounts.push(AccountMeta { pubkey: *recipient, is_signer: false, is_writable: true });
    accounts.push(AccountMeta { pubkey: vote_program_id(), is_signer: false, is_writable: false });
    let data = WithdrawData { instruction_code: 8, padding: [0u8; 7], lamports }.serialized();
    proof {
        assert(data@ =~= spec_payload_of(
            (Command::Withdraw {
                rewards_authority: *rewards_authority,
                recipient: *recipient,
                lamports,
            }),
        ));
    }
    VampInstruction { program_id: *program_id, accounts, data }
}

/// Encode `set-commission`.
pub fn set_commission_instruction(
    program_id: &Pubkey,
    record: &Pubkey,
    vote_account: &Pubkey,
    rewards_authority: &Pubkey,
    commission: u8,
) -> (r: VampInstruction)
    ensures
        r.program_id@ == program_id@,
        spec_accounts_expected(
            (Command::SetCommission { rewards_authority: *rewards_authority, commission }),
            record@,
            vote_account@,
            Seq::empty(),
            r.accounts@,
        ),
        r.data@ == spec_payload_of(
            (Command::SetCommission { rewards_authority: *rewards_authority, commission }),
        ),
        r.data@.len() == 2,
{
    let mut accounts: Vec<AccountMeta> = Vec::new();
    accounts.push(AccountMeta { pubkey: *record, is_signer: false, is_writable: true });
    accounts.push(AccountMeta { pubkey: *vote_account, is_signer: false, is_writable: true });
    accounts.push(AccountMeta { pubkey: *rewards_authority, is_signer: true, is_writable: false });
    accounts.push(AccountMeta { pubkey: vote_program_id(), is_signer: false, is_writable: false });
    let data = SetCommissionData { instruction_code: 9, new_commission: commission }.serialized();
    VampInstruction { program_id: *program_id, accounts, data }
}

/// Encode any instruction-bearing command against the derived record
/// address; `Show` is the read-only query and yields no instruction.
pub fn build_instruction(
    program_id: &Pubkey,
    record: &Pubkey,
    vote_account: &Pubkey,
    fee_payer: &Pubkey,
    cmd: &Command,
) -> (r: Option<VampInstruction>)
    ensures
        r is Some <==> !(*cmd is Show),
        match r {
            Some(ins) => {
                &&& ins.program_id@ == program_id@
                &&& spec_accounts_expected(*cmd, record@, vote_account@, fee_payer@, ins.accounts@)
                &&& ins.data@ == spec_payload_of(*cmd)
            },
            None => *cmd is Show,
        },
{
    match *cmd {
        Command::Enter {
            withdraw_authority,
            administrator,
            max_commission,
            max_commission_increase_per_epoch,
        } => Some(
            enter_instruction(
                program_id,
                record,
                vote_account,
                fee_payer,
                &withdraw_authority,
                &administrator,
                max_commission,
                max_commission_increase_per_epoch,
            ),
        ),
        Command::SetLeaveEpoch { withdraw_authority, leave_epoch } => Some(
            set_leave_epoch_instruction(
                program_id,
                record,
                vote_account,
                &withdraw_authority,
                leave_epoch,
            ),
        ),
        Command::Leave { withdraw_authority } => Some(
            leave_instruction(program_id, record, vote_account, &withdraw_authority, fee_payer),
        ),
        Command::SetAdministrator { withdraw_authority, administrator } => Some(
            set_authority_instruction(
                program_id,
                record,
                vote_account,
                &withdraw_authority,
                &administrator,
                CommandKind::SetAdministrator,
            ),
        ),
        Command::SetOperationalAuthority { administrator, authority } => Some(
            set_authority_instruction(
                program_id,
                record,
                vote_account,
                &administrator,
                &authority,
                CommandKind::SetOperationalAuthority,
            ),
        ),
        Command::SetRewardsAuthority { administrator, authority } => Some(
            set_authority_instruction(
                program_id,
                record,
                vote_account,
                &administrator,
                &authority,
                CommandKind::SetRewardsAuthority,
            ),
        ),
        Command::SetVoteAuthority { operational_authority, authority } => Some(
            set_vote_authority_instruction(
                program_id,
                record,
                vote_account,
                &operational_authority,
                &authority,
            ),
        ),
        Command::SetValidatorIdentity { operational_authority, validator_identity } => Some(
            set_validator_identity_instruction(
                program_id,
                record,
                vote_account,
                &operational_authority,
                &validator_identity,
            ),
        ),
        Command::Withdraw { rewards_authority, recipient, lamports } => Some(
            withdraw_instruction(
                program_id,
                record,
                vote_account,
                &rewards_authority,
                &recipient,
                lamports,
            ),
        ),
        Command::SetCommission { rewards_authority, commission } => Some(
            set_commission_instruction(
                program_id,
                record,
                vote_account,
                &rewards_authority,
                commission,
            ),
        ),
        Command::Show { .. } => None,
    }
}

/// The keypairs that must sign the transaction carrying a command, in the
/// order the transaction lists them: fee payer first.
pub fn required_signers(fee_payer: &Pubkey, cmd: &Command) -> (r: Vec<Pubkey>)
    ensures
        r@.map_values(|p: Pubkey| p@) == spec_signers_of(*cmd, fee_payer@),
{
    let mut r: Vec<Pubkey> = Vec::new();
    match *cmd {
        Command::Enter { withdraw_authority, .. } => {
            r.push(*fee_payer);
            r.push(withdraw_authority);
        },
        Command::SetLeaveEpoch { withdraw_authority, .. } => {
            r.push(*fee_payer);
            r.push(withdraw_authority);
        },
        Command::Leave { withdraw_authority } => {
            r.push(*fee_payer);
            r.push(withdraw_authority);
        },
        Command::SetAdministrator { withdraw_authority, .. } => {
            r.push(*fee_payer);
            r.push(withdraw_authority);
        },
        Command::SetOperationalAuthority { administrator, .. } => {
            r.push(*fee_payer);
            r.push(administrator);
        },
        Command::SetRewardsAuthority { administrator, .. } => {
            r.push(*fee_payer);
            r.push(administrator);
        },
        Command::SetVoteAuthority { operational_authority, .. } => {
            r.push(*fee_payer);
            r.push(operational_authority);
        },
        Command::SetValidatorIdentity { operational_authority, validator_identity } => {
            r.push(*fee_payer);
            r.push(operational_authority);
            r.push(validator_identity);
        },
        Command::Withdraw { rewards_authority, .. } => {
            r.push(*fee_payer);
            r.push(rewards_authority);
        },
        Command::SetCommission { rewards_authority, .. } => {
            r.push(*fee_payer);
            r.push(rewards_authority);
        },
        Command::Show { .. } => {},
    }
    proof {
        assert(r@.map_values(|p: Pubkey| p@) =~= spec_signers_of(*cmd, fee_payer@));
    }
    r
}

} // verus!
