//! The escrow system: the record store and the ledger, mutated only by the
//! four operations.
//!
//! Each operation is self-contained: it reads its full precondition,
//! decides, and either commits the state change and the fund movement
//! together or fails with no effect. Every operation is proved equal to its
//! spec-level step function in [`crate::model`], so a host transaction
//! layer can provide atomicity without the core managing locks itself. The
//! authenticated caller identity and the current time come in as plain
//! values; verifying signatures and reading the trusted clock are the
//! host's work.

use std::collections::HashMap;

use vstd::prelude::*;

use crate::auth::{authorize, Role};
use crate::deadline::expired;
use crate::errors::EscrowError;
use crate::model::{
    auto_release_step, balance, confirm_delivery_step, confirm_receipt_step, create_step,
    empty_model, lemma_step_preserves_wf, wf_model, Operation, SystemModel,
};
use crate::state::{Escrow, EscrowState};

verus! {

broadcast use vstd::std_specs::hash::group_hash_axioms;

/// The caller context of `initialize_escrow`: the authenticated buyer, who
/// signs the deposit.
pub struct InitializeEscrow {
    /// The authenticated identity of the depositing party.
    pub buyer: u64,
}

/// The caller context of `confirm_delivery`: must turn out to be the
/// record's retailer.
pub struct ConfirmDelivery {
    /// The authenticated identity of the caller.
    pub caller: u64,
}

/// The caller context of `confirm_receipt`: must turn out to be the
/// record's buyer.
pub struct ConfirmReceipt {
    /// The authenticated identity of the caller.
    pub caller: u64,
}

/// The caller context of `auto_release`. The caller identity is
/// unconstrained by design: once the window has elapsed, the retailer or a
/// neutral relay may force settlement.
pub struct AutoRelease {
    /// The authenticated identity of the caller; never checked.
    pub caller: u64,
}

/// The escrow system: every record, party balance and custody balance, and
/// nothing else. The custody account bound to an escrow identifier is
/// debited only by the settlement paths of this type.
pub struct EscrowSystem {
    records: HashMap<u64, Escrow>,
    accounts: HashMap<u64, u64>,
    custody: HashMap<u64, u64>,
}

impl View for EscrowSystem {
    type V = SystemModel;

    closed spec fn view(&self) -> SystemModel {
        SystemModel { records: self.records@, accounts: self.accounts@, custody: self.custody@ }
    }
}

impl EscrowSystem {
    /// The system invariant; see [`wf_model`]. Established by [`Self::new`]
    /// and preserved by every operation.
    pub open spec fn wf(&self) -> bool {
        wf_model(self@)
    }

    /// An empty system: no records, no balances, no custody accounts.
    pub fn new() -> (s: Self)
        ensures
            s@ == empty_model(),
            s.wf(),
    {
        let s = EscrowSystem {
            records: HashMap::new(),
            accounts: HashMap::new(),
            custody: HashMap::new(),
        };
        proof {
            assert(s@ =~= empty_model());
        }
        s
    }

    /// Credits `amount` to a party account. This models the external
    /// wallet-provisioning path by which accounts come to hold funds at
    /// all; the escrow operations themselves only ever move funds between
    /// the buyer, the custody account, and the retailer.
    pub fn fund_account(&mut self, account: u64, amount: u64)
        requires
            old(self).wf(),
            balance(old(self)@.accounts, account) + amount <= u64::MAX,
        ensures
            final(self).wf(),
            final(self)@.accounts == old(self)@.accounts.insert(
                account,
                (balance(old(self)@.accounts, account) + amount) as u64,
            ),
            final(self)@.records == old(self)@.records,
            final(self)@.custody == old(self)@.custody,
    {
        let current = self.balance_of(account);
        self.accounts.insert(account, current + amount);
        proof {
            assert(self@.records == old(self)@.records);
            assert(self@.custody == old(self)@.custody);
            assert(wf_model(self@));
        }
    }

    /// The balance of a party account; an account never funded holds zero.
    pub fn balance_of(&self, account: u64) -> (r: u64)
        ensures
            r as int == balance(self@.accounts, account),
    {
        match self.accounts.get(&account) {
            Some(b) => *b,
            None => 0,
        }
    }

    /// The funds held by the custody account bound to `escrow_id`, or
    /// `None` if no record with that identifier exists.
    pub fn custody_of(&self, escrow_id: u64) -> (r: Option<u64>)
        ensures
            match r {
                Some(c) => self@.custody.contains_key(escrow_id) && c == self@.custody[escrow_id],
                None => !self@.custody.contains_key(escrow_id),
            },
    {
        match self.custody.get(&escrow_id) {
            Some(c) => Some(*c),
            None => None,
        }
    }

    /// The record stored under `escrow_id`, or `None` if that identifier
    /// was never used.
    pub fn get_record(&self, escrow_id: u64) -> (r: Option<&Escrow>)
        ensures
            match r {
                Some(rec) => self@.records.contains_key(escrow_id) && *rec
                    == self@.records[escrow_id],
                None => !self@.records.contains_key(escrow_id),
            },
    {
        self.records.get(&escrow_id)
    }

    /// Escrow creation: allocates a new record with `state =
    /// AwaitingDelivery` under the caller-chosen `escrow_id` and moves
    /// `amount` from the buyer's account into the custody account bound to
    /// the identifier, as one atomic unit. Fails with `DuplicateEscrow` if
    /// the identifier is already used, `InvalidAmount` if the amount is not
    /// positive, and `InsufficientFunds` if the buyer's account cannot
    /// supply the amount; every failure leaves the system unchanged.
    pub fn initialize_escrow(
        &mut self,
        ctx: InitializeEscrow,
        escrow_id: u64,
        amount: u64,
        retailer_key: u64,
        now: i64,
    ) -> (r: Result<(), EscrowError>)
        requires
            old(self).wf(),
        ensures
            final(self).wf(),
            final(self)@ == create_step(old(self)@, ctx.buyer, escrow_id, amount, retailer_key, now).0,
            r == create_step(old(self)@, ctx.buyer, escrow_id, amount, retailer_key, now).1,
    {
        proof {
            lemma_step_preserves_wf(
                old(self)@,
                Operation::Create {
                    buyer: ctx.buyer,
                    escrow_id,
                    amount,
                    retailer: retailer_key,
                    now,
                },
            );
        }
        if self.records.contains_key(&escrow_id) {
            return Err(EscrowError::DuplicateEscrow);
        }
        if amount == 0 {
            return Err(EscrowError::InvalidAmount);
        }
        let buyer_balance = self.balance_of(ctx.buyer);
        if buyer_balance < amount {
            return Err(EscrowError::InsufficientFunds);
        }
        let record = Escrow {
            buyer: ctx.buyer,
            retailer: retailer_key,
            escrow_id,
            amount,
            state: EscrowState::AwaitingDelivery,
            created_at: now,
            delivery_confirmed_at: None,
        };
        self.accounts.insert(ctx.buyer, buyer_balance - amount);
        self.custody.insert(escrow_id, amount);
        self.records.insert(escrow_id, record);
        Ok(())
    }

    /// Delivery confirmation: the retailer moves the record from
    /// `AwaitingDelivery` to `AwaitingConfirmation` and stamps the current
    /// time, which starts the confirmation window. No funds move. Fails
    /// with `Unauthorized` if the caller is not the record's retailer and
    /// `InvalidEscrowState` from any other state (a second invocation
    /// included); every failure leaves the system unchanged.
    pub fn confirm_delivery(&mut self, ctx: ConfirmDelivery, escrow_id: u64, now: i64) -> (r:
        Result<(), EscrowError>)
        requires
            old(self).wf(),
            old(self)@.records.contains_key(escrow_id),
        ensures
            final(self).wf(),
            final(self)@ == confirm_delivery_step(old(self)@, ctx.caller, escrow_id, now).0,
            r == confirm_delivery_step(old(self)@, ctx.caller, escrow_id, now).1,
    {
        proof {
            lemma_step_preserves_wf(
                old(self)@,
                Operation::ConfirmDelivery { caller: ctx.caller, escrow_id, now },
            );
        }
        let record = match self.records.get(&escrow_id) {
            Some(rec) => *rec,
            None => {
                proof {
                    assert(false);
                }
                return Err(EscrowError::InvalidEscrowState);
            },
        };
        if !authorize(&record, Role::Retailer, ctx.caller) {
            return Err(EscrowError::Unauthorized);
        }
        if record.state != EscrowState::AwaitingDelivery {
            return Err(EscrowError::InvalidEscrowState);
        }
        let updated = Escrow {
            state: EscrowState::AwaitingConfirmation,
            delivery_confirmed_at: Some(now),
            ..record
        };
        self.records.insert(escrow_id, updated);
        Ok(())
    }

    /// Receipt confirmation: the buyer accepts the delivery within the
    /// confirmation window (boundary inclusive); the custody account is
    /// emptied into the retailer's account and the record completes, as one
    /// atomic unit. Fails with `Unauthorized` if the caller is not the
    /// record's buyer, `InvalidEscrowState` outside `AwaitingConfirmation`,
    /// and `ConfirmationPeriodExpired` once the window has elapsed (the
    /// caller must use auto-release instead); every failure leaves the
    /// system unchanged.
    pub fn confirm_receipt(&mut self, ctx: ConfirmReceipt, escrow_id: u64, now: i64) -> (r: Result<
        (),
        EscrowError,
    >)
        requires
            old(self).wf(),
            old(self)@.records.contains_key(escrow_id),
            balance(old(self)@.accounts, old(self)@.records[escrow_id].retailer)
                + old(self)@.records[escrow_id].amount <= u64::MAX,
        ensures
            final(self).wf(),
            final(self)@ == confirm_receipt_step(old(self)@, ctx.caller, escrow_id, now).0,
            r == confirm_receipt_step(old(self)@, ctx.caller, escrow_id, now).1,
    {
        proof {
            lemma_step_preserves_wf(
                old(self)@,
                Operation::ConfirmReceipt { caller: ctx.caller, escrow_id, now },
            );
        }
        let record = match self.records.get(&escrow_id) {
            Some(rec) => *rec,
            None => {
                proof {
                    assert(false);
                }
                return Err(EscrowError::InvalidEscrowState);
            },
        };
        if !authorize(&record, Role::Buyer, ctx.caller) {
            return Err(EscrowError::Unauthorized);
        }
        if record.state != EscrowState::AwaitingConfirmation {
            return Err(EscrowError::InvalidEscrowState);
        }
        let delivery_confirmed_at = match record.delivery_confirmed_at {
            Some(t) => t,
            None => {
                proof {
                    assert(false);
                }
                return Err(EscrowError::InvalidEscrowState);
            },
        };
        if expired(delivery_confirmed_at, now) {
            return Err(EscrowError::ConfirmationPeriodExpired);
        }
        self.settle_funds(escrow_id, record);
        Ok(())
    }

    /// Auto-release: the permissionless fallback. Once the confirmation
    /// window has elapsed, any caller may force the same settlement as
    /// receipt confirmation. Fails with `InvalidEscrowState` outside
    /// `AwaitingConfirmation` and `AutoReleaseTimeNotReached` while the
    /// window still runs; every failure leaves the system unchanged.
    pub fn auto_release(&mut self, _ctx: AutoRelease, escrow_id: u64, now: i64) -> (r: Result<
        (),
        EscrowError,
    >)
        requires
            old(self).wf(),
            old(self)@.records.contains_key(escrow_id),
            balance(old(self)@.accounts, old(self)@.records[escrow_id].retailer)
                + old(self)@.records[escrow_id].amount <= u64::MAX,
        ensures
            final(self).wf(),
            final(self)@ == auto_release_step(old(self)@, escrow_id, now).0,
            r == auto_release_step(old(self)@, escrow_id, now).1,
    {
        proof {
            lemma_step_preserves_wf(old(self)@, Operation::AutoRelease { escrow_id, now });
        }
        let record = match self.records.get(&escrow_id) {
            Some(rec) => *rec,
            None => {
                proof {
                    assert(false);
                }
                return Err(EscrowError::InvalidEscrowState);
            },
        };
        if record.state != EscrowState::AwaitingConfirmation {
            return Err(EscrowError::InvalidEscrowState);
        }
        let delivery_confirmed_at = match record.delivery_confirmed_at {
            Some(t) => t,
            None => {
                proof {
                    assert(false);
                }
                return Err(EscrowError::InvalidEscrowState);
            },
        };
        if !expired(delivery_confirmed_at, now) {
            return Err(EscrowError::AutoReleaseTimeNotReached);
        }
        self.settle_funds(escrow_id, record);
        Ok(())
    }

    /// The settlement both release paths share: empties the custody account
    /// bound to `escrow_id` into the retailer's account and completes the
    /// record.
    fn settle_funds(&mut self, escrow_id: u64, record: Escrow)
        requires
            old(self)@.records.contains_key(escrow_id),
            old(self)@.records[escrow_id] == record,
            balance(old(self)@.accounts, record.retailer) + record.amount <= u64::MAX,
        ensures
            final(self)@ == crate::model::settle(old(self)@, escrow_id),
    {
        let retailer_balance = self.balance_of(record.retailer);
        self.accounts.insert(record.retailer, retailer_balance + record.amount);
        self.custody.insert(escrow_id, 0);
        let updated = Escrow { state: EscrowState::Completed, ..record };
        self.records.insert(escrow_id, updated);
    }
}

} // verus!
