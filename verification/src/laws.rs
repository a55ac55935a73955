//! System-wide laws of the escrow protocol, proved over the transition
//! functions of [`crate::model`]. Since every executable operation is
//! proved equal to its step function, each law holds of the running system.

use vstd::prelude::*;

use crate::deadline::CONFIRMATION_WINDOW;
use crate::errors::EscrowError;
use crate::model::{
    auto_release_step, balance, confirm_delivery_step, confirm_receipt_step, create_step,
    operation_id, step, wf_model, Operation, SystemModel,
};
use crate::state::{state_le, EscrowState};

verus! {

/// Law of creation: a creation succeeds exactly when the identifier is
/// unused, the amount is positive, and the buyer can fund it; each failure
/// cause maps to its own error and leaves the system unchanged. On success
/// the new record awaits delivery with the given parties and amount, the
/// custody account holds exactly the amount, and the buyer's balance has
/// decreased by exactly the amount.
pub proof fn lemma_create_effects(
    m: SystemModel,
    buyer: u64,
    escrow_id: u64,
    amount: u64,
    retailer: u64,
    now: i64,
)
    requires
        wf_model(m),
    ensures
        ({
            let (m2, r) = create_step(m, buyer, escrow_id, amount, retailer, now);
            &&& r is Ok <==> (!m.records.contains_key(escrow_id) && amount > 0 && balance(
                m.accounts,
                buyer,
            ) >= amount)
            &&& r == Err::<(), EscrowError>(EscrowError::DuplicateEscrow)
                <==> m.records.contains_key(escrow_id)
            &&& r == Err::<(), EscrowError>(EscrowError::InvalidAmount) <==> (
            !m.records.contains_key(escrow_id) && amount == 0)
            &&& r == Err::<(), EscrowError>(EscrowError::InsufficientFunds) <==> (
            !m.records.contains_key(escrow_id) && amount > 0 && balance(m.accounts, buyer)
                < amount)
            &&& r is Err ==> m2 == m
            &&& r is Ok ==> {
                let record = m2.records[escrow_id];
                &&& m2.records.contains_key(escrow_id)
                &&& record.state == EscrowState::AwaitingDelivery
                &&& record.buyer == buyer
                &&& record.retailer == retailer
                &&& record.escrow_id == escrow_id
                &&& record.amount == amount
                &&& record.created_at == now
                &&& record.delivery_confirmed_at is None
                &&& m2.custody[escrow_id] == amount
                &&& balance(m2.accounts, buyer) == balance(m.accounts, buyer) - amount
            }
        }),
{
}

/// Law of monotonicity: no operation ever removes a record, changes a
/// record's identifier, parties, amount or creation time, unsets or alters
/// a delivery timestamp once stamped, or moves a record backward in the
/// lifecycle order `AwaitingDelivery < AwaitingConfirmation < Completed`.
pub proof fn lemma_step_monotonic(m: SystemModel, op: Operation)
    requires
        wf_model(m),
    ensures
        forall|id: u64|
            m.records.contains_key(id) ==> {
                let before = #[trigger] m.records[id];
                let after = step(m, op).0.records[id];
                &&& step(m, op).0.records.contains_key(id)
                &&& state_le(before.state, after.state)
                &&& after.buyer == before.buyer
                &&& after.retailer == before.retailer
                &&& after.escrow_id == before.escrow_id
                &&& after.amount == before.amount
                &&& after.created_at == before.created_at
                &&& before.delivery_confirmed_at is Some ==> after.delivery_confirmed_at
                    == before.delivery_confirmed_at
            },
{
}

/// Law of error propagation: every failing operation aborts with zero side
/// effects — no partial state mutation and no partial transfer.
pub proof fn lemma_error_no_effect(m: SystemModel, op: Operation)
    ensures
        step(m, op).1 is Err ==> step(m, op).0 == m,
{
}

/// Law of locality: an operation addressing one escrow identifier never
/// touches the record or the custody account of any other.
pub proof fn lemma_step_local(m: SystemModel, op: Operation)
    ensures
        forall|id: u64|
            id != operation_id(op) ==> {
                &&& step(m, op).0.records.contains_key(id) == m.records.contains_key(id)
                &&& #[trigger] step(m, op).0.records.contains_key(id)
                    ==> step(m, op).0.records[id] == m.records[id]
                &&& step(m, op).0.custody.contains_key(id) == m.custody.contains_key(id)
                &&& step(m, op).0.custody.contains_key(id) ==> step(m, op).0.custody[id]
                    == m.custody[id]
            },
{
}

/// Law of the authorization guard: delivery confirmation by anyone but the
/// record's retailer fails with `Unauthorized` and changes nothing,
/// whatever state the record is in.
pub proof fn lemma_confirm_delivery_unauthorized(
    m: SystemModel,
    caller: u64,
    escrow_id: u64,
    now: i64,
)
    ensures
        caller != m.records[escrow_id].retailer ==> confirm_delivery_step(m, caller, escrow_id, now)
            == (m, Err::<(), EscrowError>(EscrowError::Unauthorized)),
{
}

/// Law of the deadline boundary: with the record awaiting confirmation and
/// the buyer calling, receipt confirmation still succeeds exactly at
/// `deliveryConfirmedAt + CONFIRMATION_WINDOW` while auto-release fails
/// with `AutoReleaseTimeNotReached`; strictly after that instant, receipt
/// confirmation fails with `ConfirmationPeriodExpired` while auto-release
/// succeeds.
pub proof fn lemma_window_boundary(m: SystemModel, caller: u64, escrow_id: u64, now: i64)
    requires
        wf_model(m),
        m.records.contains_key(escrow_id),
        m.records[escrow_id].state == EscrowState::AwaitingConfirmation,
        caller == m.records[escrow_id].buyer,
    ensures
        now == m.records[escrow_id].delivery_confirmed_at.unwrap() + CONFIRMATION_WINDOW ==> {
            &&& confirm_receipt_step(m, caller, escrow_id, now).1 is Ok
            &&& auto_release_step(m, escrow_id, now) == (
            m,
            Err::<(), EscrowError>(EscrowError::AutoReleaseTimeNotReached),
            )
        },
        now > m.records[escrow_id].delivery_confirmed_at.unwrap() + CONFIRMATION_WINDOW ==> {
            &&& confirm_receipt_step(m, caller, escrow_id, now) == (
            m,
            Err::<(), EscrowError>(EscrowError::ConfirmationPeriodExpired),
            )
            &&& auto_release_step(m, escrow_id, now).1 is Ok
        },
{
}

/// Law of exclusive release: for one record at one instant, receipt
/// confirmation and auto-release can never both succeed — their time
/// preconditions partition time exactly.
pub proof fn lemma_release_paths_exclusive(m: SystemModel, caller: u64, escrow_id: u64, now: i64)
    ensures
        !(confirm_receipt_step(m, caller, escrow_id, now).1 is Ok && auto_release_step(
            m,
            escrow_id,
            now,
        ).1 is Ok),
{
}

/// Law of settlement: when either release path succeeds, the record
/// completes, the custody account ends at zero, the retailer's balance
/// increases by exactly the amount, and no other account — the buyer's
/// included — changes: there is no refund path.
pub proof fn lemma_settlement_effects(m: SystemModel, caller: u64, escrow_id: u64, now: i64)
    requires
        wf_model(m),
        m.records.contains_key(escrow_id),
        balance(m.accounts, m.records[escrow_id].retailer) + m.records[escrow_id].amount
            <= u64::MAX,
    ensures
        confirm_receipt_step(m, caller, escrow_id, now).1 is Ok ==> settlement_holds(
            m,
            confirm_receipt_step(m, caller, escrow_id, now).0,
            escrow_id,
        ),
        auto_release_step(m, escrow_id, now).1 is Ok ==> settlement_holds(
            m,
            auto_release_step(m, escrow_id, now).0,
            escrow_id,
        ),
{
}

/// What a completed settlement of `escrow_id` leaves behind, relative to
/// the system it started from.
pub open spec fn settlement_holds(m: SystemModel, m2: SystemModel, escrow_id: u64) -> bool {
    let record = m.records[escrow_id];
    &&& m2.records[escrow_id].state == EscrowState::Completed
    &&& m2.custody[escrow_id] == 0
    &&& balance(m2.accounts, record.retailer) == balance(m.accounts, record.retailer)
        + record.amount
    &&& forall|a: u64|
        a != record.retailer ==> balance(m2.accounts, a) == balance(#[trigger] m.accounts, a)
}

/// Law of terminal custody: in every well-formed system, a completed
/// record's custody account holds zero, and an uncompleted record's
/// custody account holds exactly its amount.
pub proof fn lemma_custody_tracks_state(m: SystemModel, escrow_id: u64)
    requires
        wf_model(m),
        m.records.contains_key(escrow_id),
    ensures
        m.records[escrow_id].state == EscrowState::Completed ==> m.custody[escrow_id] == 0,
        m.records[escrow_id].state != EscrowState::Completed ==> m.custody[escrow_id]
            == m.records[escrow_id].amount,
{
}

/// Law of one-shot delivery confirmation: after a successful delivery
/// confirmation, confirming delivery again — at any later instant, by the
/// same retailer — fails with `InvalidEscrowState` and changes nothing.
pub proof fn lemma_confirm_delivery_not_idempotent(
    m: SystemModel,
    caller: u64,
    escrow_id: u64,
    now1: i64,
    now2: i64,
)
    ensures
        ({
            let (m2, r1) = confirm_delivery_step(m, caller, escrow_id, now1);
            r1 is Ok ==> confirm_delivery_step(m2, caller, escrow_id, now2) == (
            m2,
            Err::<(), EscrowError>(EscrowError::InvalidEscrowState),
            )
        }),
{
}

/// Law of one-shot creation: after a successful creation, creating again
/// under the same identifier — with any parties, amount or time — fails
/// with `DuplicateEscrow` and changes nothing.
pub proof fn lemma_create_not_idempotent(
    m: SystemModel,
    buyer: u64,
    escrow_id: u64,
    amount: u64,
    retailer: u64,
    now: i64,
    buyer2: u64,
    amount2: u64,
    retailer2: u64,
    now2: i64,
)
    ensures
        ({
            let (m2, r1) = create_step(m, buyer, escrow_id, amount, retailer, now);
            r1 is Ok ==> create_step(m2, buyer2, escrow_id, amount2, retailer2, now2) == (
            m2,
            Err::<(), EscrowError>(EscrowError::DuplicateEscrow),
            )
        }),
{
}

} // verus!
