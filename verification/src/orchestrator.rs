//! The submission state machine.
//!
//! An invocation carries one instruction through
//! `Built -> Signed -> Submitted -> {Confirmed | Failed}`. The blockhash is
//! fetched immediately before signing; if the fetch fails the invocation
//! aborts before any signing. A submission failure is terminal: there is no
//! retry. The driver performs the outside work and feeds each outcome back
//! as an event.

use vstd::prelude::*;

verus! {

/// Where the invocation stands.
#[derive(Clone, Copy, Debug, PartialEq, Eq, Structural)]
pub enum TxPhase {
    /// The instruction is encoded; no blockhash fetched, nothing signed.
    Built,
    /// A fresh blockhash is in hand and the transaction is signed.
    Signed,
    /// The transaction has been handed to the ledger endpoint.
    Submitted,
    /// The ledger confirmed the transaction.
    Confirmed,
    /// The invocation failed; terminal, with no rollback to perform.
    Failed,
}

/// What the outside world reported back.
#[derive(Clone, Copy, Debug, PartialEq, Eq, Structural)]
pub enum TxEvent {
    /// A fresh blockhash arrived and signing succeeded.
    BlockhashSigned,
    /// The blockhash fetch failed in transport.
    BlockhashFailed,
    /// The signed transaction went out to the endpoint.
    SubmissionSent,
    /// The endpoint confirmed the transaction.
    SubmissionConfirmed,
    /// The endpoint rejected the transaction or transport failed.
    SubmissionFailed,
}

/// The transition the machine takes on an event, if the event is one the
/// phase expects.
pub open spec fn spec_next_phase(p: TxPhase, e: TxEvent) -> Option<TxPhase> {
    match (p, e) {
        (TxPhase::Built, TxEvent::BlockhashSigned) => Some(TxPhase::Signed),
        (TxPhase::Built, TxEvent::BlockhashFailed) => Some(TxPhase::Failed),
        (TxPhase::Signed, TxEvent::SubmissionSent) => Some(TxPhase::Submitted),
        (TxPhase::Submitted, TxEvent::SubmissionConfirmed) => Some(TxPhase::Confirmed),
        (TxPhase::Submitted, TxEvent::SubmissionFailed) => Some(TxPhase::Failed),
        _ => None,
    }
}

/// Advance the machine by one event; `None` means the event is not one the
/// phase expects, and the driver must not have produced it.
pub fn next_phase(p: TxPhase, e: TxEvent) -> (r: Option<TxPhase>)
    ensures
        r == spec_next_phase(p, e),
{
    match (p, e) {
        (TxPhase::Built, TxEvent::BlockhashSigned) => Some(TxPhase::Signed),
        (TxPhase::Built, TxEvent::BlockhashFailed) => Some(TxPhase::Failed),
        (TxPhase::Signed, TxEvent::SubmissionSent) => Some(TxPhase::Submitted),
        (TxPhase::Submitted, TxEvent::SubmissionConfirmed) => Some(TxPhase::Confirmed),
        (TxPhase::Submitted, TxEvent::SubmissionFailed) => Some(TxPhase::Failed),
        _ => None,
    }
}

/// Confirmed and Failed are terminal: no event moves the machine on.
pub proof fn lemma_terminal_phases(e: TxEvent)
    ensures
        spec_next_phase(TxPhase::Confirmed, e) is None,
        spec_next_phase(TxPhase::Failed, e) is None,
{
}

/// Nothing is ever signed unless the blockhash fetch succeeded: Signed is
/// reachable only from Built on a successful fetch-and-sign.
pub proof fn lemma_signing_needs_blockhash(p: TxPhase, e: TxEvent)
    requires
        spec_next_phase(p, e) == Some(TxPhase::Signed),
    ensures
        p == TxPhase::Built && e == TxEvent::BlockhashSigned,
{
}

} // verus!
