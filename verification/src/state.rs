//! The escrow record and its lifecycle states.

use vstd::prelude::*;

verus! {

/// The lifecycle state of an escrow record.
///
/// A record only ever progresses along the total order
/// `AwaitingDelivery < AwaitingConfirmation < Completed`; no transition
/// skips a stage and none moves backward. `Completed` is terminal.
#[derive(Clone, Copy, Debug, PartialEq, Eq, Structural)]
pub enum EscrowState {
    /// Funds are in custody; the retailer has not yet confirmed delivery.
    AwaitingDelivery,
    /// Delivery is confirmed; the buyer may confirm receipt until the
    /// confirmation window elapses.
    AwaitingConfirmation,
    /// Funds have been paid out to the retailer. Terminal.
    Completed,
}

/// The position of a state in the lifecycle order.
pub open spec fn state_rank(s: EscrowState) -> int {
    match s {
        EscrowState::AwaitingDelivery => 0,
        EscrowState::AwaitingConfirmation => 1,
        EscrowState::Completed => 2,
    }
}

/// `a` precedes or equals `b` in the lifecycle order.
pub open spec fn state_le(a: EscrowState, b: EscrowState) -> bool {
    state_rank(a) <= state_rank(b)
}

/// One escrow record, owned exclusively by the record store: one per escrow
/// identifier, created once and mutated in place until terminal.
#[derive(Clone, Copy, Debug)]
pub struct Escrow {
    /// The depositing party, set at creation, immutable.
    pub buyer: u64,
    /// The payee, set at creation, immutable.
    pub retailer: u64,
    /// The caller-supplied unique identifier, immutable.
    pub escrow_id: u64,
    /// The positive quantity of funds held; immutable once set.
    pub amount: u64,
    /// The lifecycle state.
    pub state: EscrowState,
    /// When the record was created, in epoch seconds.
    pub created_at: i64,
    /// When the retailer confirmed delivery, in epoch seconds; set exactly
    /// once, and only by that confirmation.
    pub delivery_confirmed_at: Option<i64>,
}

impl Escrow {
    /// Well-formedness of a record: the amount is positive, and the
    /// delivery timestamp is set if and only if the state has moved past
    /// `AwaitingDelivery`.
    pub open spec fn wf(self) -> bool {
        &&& self.amount > 0
        &&& (self.delivery_confirmed_at is Some) <==> (self.state != EscrowState::AwaitingDelivery)
    }
}

} // verus!
