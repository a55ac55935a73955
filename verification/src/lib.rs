//! A two-party retail escrow: a buyer deposits funds into a custody account
//! bound to an escrow identifier, and the retailer is paid out only after a
//! delivery-confirmation protocol completes, with a time-bounded fallback
//! that releases the funds once the buyer has gone silent.
//!
//! The crate verifies the escrow state machine and fund-custody protocol:
//! record lifecycle, role-gated transitions, deadline arithmetic, and atomic
//! fund movement. The host runtime (clock source, transaction submission,
//! signature verification) stands outside; operations receive the
//! authenticated caller and the current time as plain values.

pub mod auth;
pub mod deadline;
pub mod errors;
pub mod laws;
pub mod model;
pub mod state;
pub mod system;
