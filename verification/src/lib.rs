//! A crowdfunding escrow: native-currency deposits are collected toward a
//! funding target until a deadline, then either swept to the owner (target
//! reached) or refunded to each depositor (target missed).
//!
//! The state machine itself is pure: every operation takes the facts the host
//! environment would supply (current time, caller identity, attached payment)
//! as plain arguments, so the whole settlement logic is verified here and a
//! host shell only wires it to a ledger.

pub mod laws;
pub mod ledger;
pub mod machine;
