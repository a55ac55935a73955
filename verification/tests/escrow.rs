use retail_escrow::auth::{authorize, Role};
use retail_escrow::deadline::{expired, CONFIRMATION_WINDOW};
use retail_escrow::errors::EscrowError;
use retail_escrow::state::{Escrow, EscrowState};
use retail_escrow::system::{
    AutoRelease, ConfirmDelivery, ConfirmReceipt, EscrowSystem, InitializeEscrow,
};

const BUYER: u64 = 10;
const RETAILER: u64 = 20;
const STRANGER: u64 = 30;

fn funded_system() -> EscrowSystem {
    let mut sys = EscrowSystem::new();
    sys.fund_account(BUYER, 500);
    sys
}

fn system_awaiting_confirmation(escrow_id: u64, amount: u64, confirmed_at: i64) -> EscrowSystem {
    let mut sys = funded_system();
    let r = sys.initialize_escrow(InitializeEscrow { buyer: BUYER }, escrow_id, amount, RETAILER, 0);
    assert_eq!(r, Ok(()));
    let r = sys.confirm_delivery(ConfirmDelivery { caller: RETAILER }, escrow_id, confirmed_at);
    assert_eq!(r, Ok(()));
    sys
}

#[test]
fn create_sets_state_and_moves_funds() {
    let mut sys = funded_system();
    let r = sys.initialize_escrow(InitializeEscrow { buyer: BUYER }, 1, 100, RETAILER, 42);
    assert_eq!(r, Ok(()));
    let record = sys.get_record(1).expect("record must exist");
    assert_eq!(record.state, EscrowState::AwaitingDelivery);
    assert_eq!(record.buyer, BUYER);
    assert_eq!(record.retailer, RETAILER);
    assert_eq!(record.escrow_id, 1);
    assert_eq!(record.amount, 100);
    assert_eq!(record.created_at, 42);
    assert_eq!(record.delivery_confirmed_at, None);
    assert_eq!(sys.custody_of(1), Some(100));
    assert_eq!(sys.balance_of(BUYER), 400);
    assert_eq!(sys.balance_of(RETAILER), 0);
}

#[test]
fn create_with_zero_amount_fails() {
    let mut sys = funded_system();
    let r = sys.initialize_escrow(InitializeEscrow { buyer: BUYER }, 1, 0, RETAILER, 0);
    assert_eq!(r, Err(EscrowError::InvalidAmount));
    assert!(sys.get_record(1).is_none());
    assert_eq!(sys.balance_of(BUYER), 500);
}

#[test]
fn create_beyond_balance_fails() {
    let mut sys = funded_system();
    let r = sys.initialize_escrow(InitializeEscrow { buyer: BUYER }, 1, 501, RETAILER, 0);
    assert_eq!(r, Err(EscrowError::InsufficientFunds));
    assert!(sys.get_record(1).is_none());
    assert_eq!(sys.custody_of(1), None);
    assert_eq!(sys.balance_of(BUYER), 500);
}

#[test]
fn create_twice_fails_with_duplicate() {
    let mut sys = funded_system();
    let r = sys.initialize_escrow(InitializeEscrow { buyer: BUYER }, 1, 100, RETAILER, 0);
    assert_eq!(r, Ok(()));
    let r = sys.initialize_escrow(InitializeEscrow { buyer: BUYER }, 1, 100, RETAILER, 1);
    assert_eq!(r, Err(EscrowError::DuplicateEscrow));
    assert_eq!(sys.balance_of(BUYER), 400);
    assert_eq!(sys.custody_of(1), Some(100));
}

#[test]
fn state_only_progresses_forward() {
    let mut sys = funded_system();
    sys.initialize_escrow(InitializeEscrow { buyer: BUYER }, 1, 100, RETAILER, 0).unwrap();
    let mut seen: Vec<EscrowState> = Vec::new();
    seen.push(sys.get_record(1).unwrap().state);
    sys.confirm_delivery(ConfirmDelivery { caller: RETAILER }, 1, 1000).unwrap();
    seen.push(sys.get_record(1).unwrap().state);
    sys.confirm_receipt(ConfirmReceipt { caller: BUYER }, 1, 2000).unwrap();
    seen.push(sys.get_record(1).unwrap().state);
    assert_eq!(
        seen,
        vec![
            EscrowState::AwaitingDelivery,
            EscrowState::AwaitingConfirmation,
            EscrowState::Completed
        ]
    );
    let rank = |s: EscrowState| match s {
        EscrowState::AwaitingDelivery => 0,
        EscrowState::AwaitingConfirmation => 1,
        EscrowState::Completed => 2,
    };
    for pair in seen.windows(2) {
        assert!(rank(pair[0]) <= rank(pair[1]));
    }
}

#[test]
fn confirm_delivery_by_non_retailer_fails() {
    let mut sys = funded_system();
    sys.initialize_escrow(InitializeEscrow { buyer: BUYER }, 1, 100, RETAILER, 0).unwrap();
    let r = sys.confirm_delivery(ConfirmDelivery { caller: BUYER }, 1, 1000);
    assert_eq!(r, Err(EscrowError::Unauthorized));
    let r = sys.confirm_delivery(ConfirmDelivery { caller: STRANGER }, 1, 1000);
    assert_eq!(r, Err(EscrowError::Unauthorized));
    let record = sys.get_record(1).unwrap();
    assert_eq!(record.state, EscrowState::AwaitingDelivery);
    assert_eq!(record.delivery_confirmed_at, None);
}

#[test]
fn confirm_delivery_twice_fails() {
    let mut sys = funded_system();
    sys.initialize_escrow(InitializeEscrow { buyer: BUYER }, 1, 100, RETAILER, 0).unwrap();
    let r = sys.confirm_delivery(ConfirmDelivery { caller: RETAILER }, 1, 1000);
    assert_eq!(r, Ok(()));
    let r = sys.confirm_delivery(ConfirmDelivery { caller: RETAILER }, 1, 2000);
    assert_eq!(r, Err(EscrowError::InvalidEscrowState));
    let record = sys.get_record(1).unwrap();
    assert_eq!(record.state, EscrowState::AwaitingConfirmation);
    assert_eq!(record.delivery_confirmed_at, Some(1000));
}

#[test]
fn confirm_receipt_by_non_buyer_fails() {
    let mut sys = system_awaiting_confirmation(1, 100, 1000);
    let r = sys.confirm_receipt(ConfirmReceipt { caller: RETAILER }, 1, 2000);
    assert_eq!(r, Err(EscrowError::Unauthorized));
    let r = sys.confirm_receipt(ConfirmReceipt { caller: STRANGER }, 1, 2000);
    assert_eq!(r, Err(EscrowError::Unauthorized));
    assert_eq!(sys.get_record(1).unwrap().state, EscrowState::AwaitingConfirmation);
    assert_eq!(sys.custody_of(1), Some(100));
}

#[test]
fn confirm_receipt_before_delivery_confirmation_fails() {
    let mut sys = funded_system();
    sys.initialize_escrow(InitializeEscrow { buyer: BUYER }, 1, 100, RETAILER, 0).unwrap();
    let r = sys.confirm_receipt(ConfirmReceipt { caller: BUYER }, 1, 1000);
    assert_eq!(r, Err(EscrowError::InvalidEscrowState));
    assert_eq!(sys.custody_of(1), Some(100));
}

#[test]
fn confirm_receipt_at_boundary_succeeds() {
    let confirmed_at: i64 = 1000;
    let mut sys = system_awaiting_confirmation(1, 100, confirmed_at);
    let r = sys.confirm_receipt(ConfirmReceipt { caller: BUYER }, 1, confirmed_at + CONFIRMATION_WINDOW);
    assert_eq!(r, Ok(()));
    assert_eq!(sys.get_record(1).unwrap().state, EscrowState::Completed);
    assert_eq!(sys.balance_of(RETAILER), 100);
}

#[test]
fn confirm_receipt_one_second_late_fails() {
    let confirmed_at: i64 = 1000;
    let mut sys = system_awaiting_confirmation(1, 100, confirmed_at);
    let r = sys.confirm_receipt(
        ConfirmReceipt { caller: BUYER },
        1,
        confirmed_at + CONFIRMATION_WINDOW + 1,
    );
    assert_eq!(r, Err(EscrowError::ConfirmationPeriodExpired));
    assert_eq!(sys.get_record(1).unwrap().state, EscrowState::AwaitingConfirmation);
    assert_eq!(sys.custody_of(1), Some(100));
    assert_eq!(sys.balance_of(RETAILER), 0);
}

#[test]
fn auto_release_at_boundary_fails() {
    let confirmed_at: i64 = 1000;
    let mut sys = system_awaiting_confirmation(1, 100, confirmed_at);
    let r = sys.auto_release(AutoRelease { caller: STRANGER }, 1, confirmed_at + CONFIRMATION_WINDOW);
    assert_eq!(r, Err(EscrowError::AutoReleaseTimeNotReached));
    assert_eq!(sys.get_record(1).unwrap().state, EscrowState::AwaitingConfirmation);
    assert_eq!(sys.custody_of(1), Some(100));
}

#[test]
fn auto_release_one_second_after_boundary_succeeds() {
    let confirmed_at: i64 = 1000;
    let mut sys = system_awaiting_confirmation(1, 100, confirmed_at);
    let r = sys.auto_release(
        AutoRelease { caller: STRANGER },
        1,
        confirmed_at + CONFIRMATION_WINDOW + 1,
    );
    assert_eq!(r, Ok(()));
    assert_eq!(sys.get_record(1).unwrap().state, EscrowState::Completed);
    assert_eq!(sys.custody_of(1), Some(0));
    assert_eq!(sys.balance_of(RETAILER), 100);
}

#[test]
fn auto_release_before_delivery_confirmation_fails() {
    let mut sys = funded_system();
    sys.initialize_escrow(InitializeEscrow { buyer: BUYER }, 1, 100, RETAILER, 0).unwrap();
    let r = sys.auto_release(AutoRelease { caller: STRANGER }, 1, 9_000_000);
    assert_eq!(r, Err(EscrowError::InvalidEscrowState));
    assert_eq!(sys.custody_of(1), Some(100));
}

#[test]
fn completed_escrow_pays_retailer_exactly_once() {
    let mut sys = system_awaiting_confirmation(1, 100, 1000);
    sys.confirm_receipt(ConfirmReceipt { caller: BUYER }, 1, 2000).unwrap();
    assert_eq!(sys.custody_of(1), Some(0));
    assert_eq!(sys.balance_of(RETAILER), 100);
    assert_eq!(sys.balance_of(BUYER), 400);
    let r = sys.confirm_receipt(ConfirmReceipt { caller: BUYER }, 1, 3000);
    assert_eq!(r, Err(EscrowError::InvalidEscrowState));
    let r = sys.auto_release(AutoRelease { caller: STRANGER }, 1, i64::MAX);
    assert_eq!(r, Err(EscrowError::InvalidEscrowState));
    assert_eq!(sys.balance_of(RETAILER), 100);
    assert_eq!(sys.balance_of(BUYER), 400);
}

#[test]
fn scenario_buyer_confirms_within_window() {
    let day: i64 = 86400;
    let mut sys = EscrowSystem::new();
    sys.fund_account(BUYER, 100);
    let r = sys.initialize_escrow(InitializeEscrow { buyer: BUYER }, 1, 100, RETAILER, 0);
    assert_eq!(r, Ok(()));
    let r = sys.confirm_delivery(ConfirmDelivery { caller: RETAILER }, 1, day);
    assert_eq!(r, Ok(()));
    let r = sys.confirm_receipt(ConfirmReceipt { caller: BUYER }, 1, day + 3 * day);
    assert_eq!(r, Ok(()));
    assert_eq!(sys.balance_of(RETAILER), 100);
    assert_eq!(sys.get_record(1).unwrap().state, EscrowState::Completed);
}

#[test]
fn scenario_auto_release_after_silence() {
    let day: i64 = 86400;
    let mut sys = EscrowSystem::new();
    sys.fund_account(BUYER, 50);
    let r = sys.initialize_escrow(InitializeEscrow { buyer: BUYER }, 2, 50, RETAILER, 0);
    assert_eq!(r, Ok(()));
    let r = sys.confirm_delivery(ConfirmDelivery { caller: RETAILER }, 2, day);
    assert_eq!(r, Ok(()));
    let r = sys.auto_release(AutoRelease { caller: STRANGER }, 2, day + 8 * day);
    assert_eq!(r, Ok(()));
    assert_eq!(sys.balance_of(RETAILER), 50);
    assert_eq!(sys.get_record(2).unwrap().state, EscrowState::Completed);
    // The record is terminal, so the state guard fires before the deadline
    // guard: a late receipt confirmation reports InvalidEscrowState.
    let r = sys.confirm_receipt(ConfirmReceipt { caller: BUYER }, 2, day + 9 * day);
    assert_eq!(r, Err(EscrowError::InvalidEscrowState));
    assert_eq!(sys.balance_of(RETAILER), 50);
    assert_eq!(sys.custody_of(2), Some(0));
}

#[test]
fn fund_account_accumulates() {
    let mut sys = EscrowSystem::new();
    assert_eq!(sys.balance_of(7), 0);
    sys.fund_account(7, 40);
    sys.fund_account(7, 2);
    assert_eq!(sys.balance_of(7), 42);
}

#[test]
fn deadline_boundary_is_inclusive() {
    assert!(!expired(0, CONFIRMATION_WINDOW));
    assert!(expired(0, CONFIRMATION_WINDOW + 1));
    assert!(!expired(1000, 0));
    assert!(expired(-CONFIRMATION_WINDOW, 1));
    assert_eq!(CONFIRMATION_WINDOW, 7 * 86400);
}

#[test]
fn authorization_compares_roles() {
    let record = Escrow {
        buyer: BUYER,
        retailer: RETAILER,
        escrow_id: 1,
        amount: 100,
        state: EscrowState::AwaitingDelivery,
        created_at: 0,
        delivery_confirmed_at: None,
    };
    assert!(authorize(&record, Role::Buyer, BUYER));
    assert!(!authorize(&record, Role::Buyer, RETAILER));
    assert!(authorize(&record, Role::Retailer, RETAILER));
    assert!(!authorize(&record, Role::Retailer, STRANGER));
    assert!(authorize(&record, Role::Any, STRANGER));
}
