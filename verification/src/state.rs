use vstd::prelude::*;

use crate::instruction::EscrowInstruction;

verus! {

/// The lifecycle a trade passes through at one custody slot.
///
/// The record itself lives in external storage; this type is the
/// mathematical shape of that storage as the command layer sees it, and
/// [`spec_transition`] is the contract the executing collaborator must
/// enforce before it mutates anything.
#[derive(Clone, Copy, Debug, PartialEq, Eq, Structural)]
pub enum TradeState {
    /// No escrow record exists for the slot.
    Uninitialized,
    /// A record exists and is marked initialized: the initializer's asset
    /// is held in custody and the counter-amount they demand is recorded.
    Open {
        /// The `expected_amount` field of the persisted escrow record.
        expected_amount: u64,
    },
    /// The record and the custody account no longer exist. Terminal.
    Closed,
}

/// The transition relation of the trade lifecycle: `cmd` may drive the slot
/// from `pre` to `post` exactly when this holds.
///
/// An `InitEscrow` command opens an uninitialized slot, recording the
/// demanded amount; a slot whose record is already initialized must never
/// be re-initialized. An `Exchange` command closes an open slot, and only
/// when the collaborator's comparison of the taker-offered amount against
/// the recorded `expected_amount` accepted the trade; that comparison rule
/// belongs to the collaborator, so it enters here only as its verdict,
/// `amount_accepted`. Any precondition violation aborts the step with no
/// state change: there is no partial transition.
pub open spec fn spec_transition(
    pre: TradeState,
    cmd: EscrowInstruction,
    amount_accepted: bool,
    post: TradeState,
) -> bool {
    match cmd {
        EscrowInstruction::InitEscrow { amount } => {
            &&& pre is Uninitialized
            &&& post == (TradeState::Open { expected_amount: amount })
        },
        EscrowInstruction::Exchange { amount: _ } => {
            &&& pre is Open
            &&& amount_accepted
            &&& post is Closed
        },
    }
}

/// No command ever re-initializes a slot: an `InitEscrow` against a slot
/// whose record is already initialized, or already consumed, is refused.
pub proof fn lemma_no_reinitialization(
    pre: TradeState,
    amount: u64,
    amount_accepted: bool,
    post: TradeState,
)
    requires
        !(pre is Uninitialized),
    ensures
        !spec_transition(pre, EscrowInstruction::InitEscrow { amount }, amount_accepted, post),
{
}

/// No command ever exchanges against a slot with no initialized record: an
/// `Exchange` is refused unless the slot is open.
pub proof fn lemma_exchange_needs_open_record(
    pre: TradeState,
    amount: u64,
    amount_accepted: bool,
    post: TradeState,
)
    requires
        !(pre is Open),
    ensures
        !spec_transition(pre, EscrowInstruction::Exchange { amount }, amount_accepted, post),
{
}

/// A closed slot is terminal: no command drives any transition out of it.
pub proof fn lemma_closed_is_terminal(
    cmd: EscrowInstruction,
    amount_accepted: bool,
    post: TradeState,
)
    ensures
        !spec_transition(TradeState::Closed, cmd, amount_accepted, post),
{
}

} // verus!
