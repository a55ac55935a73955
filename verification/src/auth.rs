//! The authorization guard: does the caller hold the role an operation
//! requires?
//!
//! The guard is a stateless predicate over the record's role fields and the
//! authenticated caller identity; signature verification itself belongs to
//! the host. A failed authorization never mutates state or funds.

use vstd::prelude::*;

use crate::state::Escrow;

verus! {

/// The role an operation requires of its caller.
#[derive(Clone, Copy, Debug, PartialEq, Eq, Structural)]
pub enum Role {
    /// The caller must be the record's buyer.
    Buyer,
    /// The caller must be the record's retailer.
    Retailer,
    /// Any caller is accepted (auto-release is permissionless).
    Any,
}

/// The caller holds the required role on this record.
pub open spec fn spec_authorized(record: Escrow, required: Role, caller: u64) -> bool {
    match required {
        Role::Buyer => caller == record.buyer,
        Role::Retailer => caller == record.retailer,
        Role::Any => true,
    }
}

/// Decides whether `caller` holds `required` on `record`.
pub fn authorize(record: &Escrow, required: Role, caller: u64) -> (r: bool)
    ensures
        r == spec_authorized(*record, required, caller),
{
    match required {
        Role::Buyer => caller == record.buyer,
        Role::Retailer => caller == record.retailer,
        Role::Any => true,
    }
}

} // verus!
