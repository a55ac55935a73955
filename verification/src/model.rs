//! The mathematical model of the escrow system and its transition functions.
//!
//! A [`SystemModel`] holds the record store, the party accounts of the
//! ledger, and the custody accounts, each as a mathematical map. Each of the
//! four operations has a spec-level step function from a model and the
//! operation's inputs to the successor model and the operation's result; a
//! failing step leaves the model unchanged, so every error has zero side
//! effects by construction. The executable operations are proved equal to
//! these steps, and the system-wide laws are proved about them.

use vstd::prelude::*;

use crate::auth::{spec_authorized, Role};
use crate::deadline::spec_within_window;
use crate::errors::EscrowError;
use crate::state::{Escrow, EscrowState};

verus! {

/// The abstract state of the whole escrow system.
#[verifier::ext_equal]
pub ghost struct SystemModel {
    /// The record store: one escrow record per identifier.
    pub records: Map<u64, Escrow>,
    /// The ledger's party accounts: balance per account identity.
    pub accounts: Map<u64, u64>,
    /// The ledger's custody accounts: funds held per escrow identifier.
    /// Bound 1:1 to record identifiers; no other path may debit one.
    pub custody: Map<u64, u64>,
}

/// The balance of a party account; an account never funded holds zero.
pub open spec fn balance(accounts: Map<u64, u64>, account: u64) -> int {
    if accounts.contains_key(account) {
        accounts[account] as int
    } else {
        0
    }
}

/// Well-formedness of the whole system:
/// - every stored record is well formed and keyed by its own identifier;
/// - a custody account exists exactly for the stored identifiers;
/// - the custody account holds exactly the record's amount until the record
///   completes, and zero from completion on.
pub open spec fn wf_model(m: SystemModel) -> bool {
    &&& forall|id: u64|
        m.records.contains_key(id) ==> (#[trigger] m.records[id]).wf() && m.records[id].escrow_id
            == id
    &&& forall|id: u64| #[trigger]
        m.custody.contains_key(id) <==> m.records.contains_key(id)
    &&& forall|id: u64|
        m.records.contains_key(id) ==> (#[trigger] m.custody[id]) == (
        if m.records[id].state == EscrowState::Completed {
            0
        } else {
            m.records[id].amount as int
        })
}

/// The empty system: no records, no balances, no custody.
pub open spec fn empty_model() -> SystemModel {
    SystemModel { records: Map::empty(), accounts: Map::empty(), custody: Map::empty() }
}

/// Escrow creation: allocates a fresh record in `AwaitingDelivery` and moves
/// `amount` from the buyer's account into the custody account bound to
/// `escrow_id`, as one atomic unit.
pub open spec fn create_step(
    m: SystemModel,
    buyer: u64,
    escrow_id: u64,
    amount: u64,
    retailer: u64,
    now: i64,
) -> (SystemModel, Result<(), EscrowError>) {
    if m.records.contains_key(escrow_id) {
        (m, Err(EscrowError::DuplicateEscrow))
    } else if amount == 0 {
        (m, Err(EscrowError::InvalidAmount))
    } else if balance(m.accounts, buyer) < amount {
        (m, Err(EscrowError::InsufficientFunds))
    } else {
        let record = Escrow {
            buyer,
            retailer,
            escrow_id,
            amount,
            state: EscrowState::AwaitingDelivery,
            created_at: now,
            delivery_confirmed_at: None,
        };
        let next = SystemModel {
            records: m.records.insert(escrow_id, record),
            accounts: m.accounts.insert(buyer, (balance(m.accounts, buyer) - amount) as u64),
            custody: m.custody.insert(escrow_id, amount),
        };
        (next, Ok(()))
    }
}

/// Delivery confirmation: the retailer moves the record from
/// `AwaitingDelivery` to `AwaitingConfirmation` and stamps the time, which
/// starts the confirmation window. No funds move.
pub open spec fn confirm_delivery_step(m: SystemModel, caller: u64, escrow_id: u64, now: i64) -> (
    SystemModel,
    Result<(), EscrowError>,
) {
    let record = m.records[escrow_id];
    if !spec_authorized(record, Role::Retailer, caller) {
        (m, Err(EscrowError::Unauthorized))
    } else if record.state != EscrowState::AwaitingDelivery {
        (m, Err(EscrowError::InvalidEscrowState))
    } else {
        let updated = Escrow {
            state: EscrowState::AwaitingConfirmation,
            delivery_confirmed_at: Some(now),
            ..record
        };
        (SystemModel { records: m.records.insert(escrow_id, updated), ..m }, Ok(()))
    }
}

/// The settlement both release paths share: the custody account bound to
/// `escrow_id` is emptied into the retailer's account and the record
/// completes, as one atomic unit.
pub open spec fn settle(m: SystemModel, escrow_id: u64) -> SystemModel {
    let record = m.records[escrow_id];
    let updated = Escrow { state: EscrowState::Completed, ..record };
    SystemModel {
        records: m.records.insert(escrow_id, updated),
        accounts: m.accounts.insert(
            record.retailer,
            (balance(m.accounts, record.retailer) + record.amount) as u64,
        ),
        custody: m.custody.insert(escrow_id, 0),
    }
}

/// Receipt confirmation: the buyer accepts the delivery within the
/// confirmation window (boundary inclusive) and the funds settle to the
/// retailer.
pub open spec fn confirm_receipt_step(m: SystemModel, caller: u64, escrow_id: u64, now: i64) -> (
    SystemModel,
    Result<(), EscrowError>,
) {
    let record = m.records[escrow_id];
    if !spec_authorized(record, Role::Buyer, caller) {
        (m, Err(EscrowError::Unauthorized))
    } else if record.state != EscrowState::AwaitingConfirmation {
        (m, Err(EscrowError::InvalidEscrowState))
    } else if !spec_within_window(record.delivery_confirmed_at.unwrap() as int, now as int) {
        (m, Err(EscrowError::ConfirmationPeriodExpired))
    } else {
        (settle(m, escrow_id), Ok(()))
    }
}

/// Auto-release: once the confirmation window has elapsed, any caller may
/// force the same settlement; the caller identity is unconstrained by
/// design.
pub open spec fn auto_release_step(m: SystemModel, escrow_id: u64, now: i64) -> (
    SystemModel,
    Result<(), EscrowError>,
) {
    let record = m.records[escrow_id];
    if record.state != EscrowState::AwaitingConfirmation {
        (m, Err(EscrowError::InvalidEscrowState))
    } else if spec_within_window(record.delivery_confirmed_at.unwrap() as int, now as int) {
        (m, Err(EscrowError::AutoReleaseTimeNotReached))
    } else {
        (settle(m, escrow_id), Ok(()))
    }
}

/// One submitted operation, with its authenticated caller and its inputs.
pub ghost enum Operation {
    /// `create` by the buyer.
    Create { buyer: u64, escrow_id: u64, amount: u64, retailer: u64, now: i64 },
    /// `confirmDelivery` by the retailer.
    ConfirmDelivery { caller: u64, escrow_id: u64, now: i64 },
    /// `confirmReceipt` by the buyer.
    ConfirmReceipt { caller: u64, escrow_id: u64, now: i64 },
    /// `autoRelease` by anyone.
    AutoRelease { escrow_id: u64, now: i64 },
}

/// The escrow identifier an operation addresses.
pub open spec fn operation_id(op: Operation) -> u64 {
    match op {
        Operation::Create { escrow_id, .. } => escrow_id,
        Operation::ConfirmDelivery { escrow_id, .. } => escrow_id,
        Operation::ConfirmReceipt { escrow_id, .. } => escrow_id,
        Operation::AutoRelease { escrow_id, .. } => escrow_id,
    }
}

/// The transition function of the whole system: every change any operation
/// makes goes through one of the four steps.
pub open spec fn step(m: SystemModel, op: Operation) -> (SystemModel, Result<(), EscrowError>) {
    match op {
        Operation::Create { buyer, escrow_id, amount, retailer, now } => create_step(
            m,
            buyer,
            escrow_id,
            amount,
            retailer,
            now,
        ),
        Operation::ConfirmDelivery { caller, escrow_id, now } => confirm_delivery_step(
            m,
            caller,
            escrow_id,
            now,
        ),
        Operation::ConfirmReceipt { caller, escrow_id, now } => confirm_receipt_step(
            m,
            caller,
            escrow_id,
            now,
        ),
        Operation::AutoRelease { escrow_id, now } => auto_release_step(m, escrow_id, now),
    }
}

/// Every step addressing a stored record preserves well-formedness of the
/// whole system.
pub proof fn lemma_step_preserves_wf(m: SystemModel, op: Operation)
    requires
        wf_model(m),
        m.records.contains_key(operation_id(op)) || op is Create,
    ensures
        wf_model(step(m, op).0),
{
}

} // verus!
