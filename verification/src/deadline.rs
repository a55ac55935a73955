//! The deadline policy: whether the confirmation window has elapsed.
//!
//! Centralizing the comparison keeps the boundary semantics of receipt
//! confirmation and auto-release from diverging: the boundary instant
//! `delivery_confirmed_at + CONFIRMATION_WINDOW` itself belongs to the
//! "not yet expired" side, and the two sides partition time exactly.

use vstd::prelude::*;

verus! {

/// The confirmation window: seven days, in seconds. After the retailer
/// confirms delivery, the buyer has this long to confirm receipt before
/// auto-release becomes eligible.
pub const CONFIRMATION_WINDOW: i64 = 604800;

/// The window has elapsed: `now` lies strictly after
/// `delivery_confirmed_at + CONFIRMATION_WINDOW`.
pub open spec fn spec_expired(delivery_confirmed_at: int, now: int) -> bool {
    now > delivery_confirmed_at + CONFIRMATION_WINDOW
}

/// `now` still lies within the window (boundary inclusive).
pub open spec fn spec_within_window(delivery_confirmed_at: int, now: int) -> bool {
    now <= delivery_confirmed_at + CONFIRMATION_WINDOW
}

/// Decides whether the confirmation window that started at
/// `delivery_confirmed_at` has elapsed by `now`. The comparison widens to
/// 128 bits so that timestamps anywhere in the 64-bit range are decided
/// exactly, without overflow.
pub fn expired(delivery_confirmed_at: i64, now: i64) -> (r: bool)
    ensures
        r == spec_expired(delivery_confirmed_at as int, now as int),
        r == !spec_within_window(delivery_confirmed_at as int, now as int),
{
    (now as i128) > (delivery_confirmed_at as i128) + (CONFIRMATION_WINDOW as i128)
}

/// The deadline partitions time exactly: at every instant exactly one of
/// "within the window" and "expired" holds, so buyer-initiated release and
/// auto-release can never both be eligible.
pub proof fn lemma_deadline_partition(delivery_confirmed_at: int, now: int)
    ensures
        spec_within_window(delivery_confirmed_at, now) <==> !spec_expired(
            delivery_confirmed_at,
            now,
        ),
{
}

} // verus!
