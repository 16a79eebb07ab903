//! Verified core of a yield-tokenization market maker and of its companion
//! collateral-liquidation protocol.
//!
//! The library is a set of pure state transitions: every operation takes the
//! records it works on and the current time as plain values, and either
//! commits a fully computed update or leaves every record untouched.

pub mod atomliq;
pub mod curve;
pub mod fixed_point;
pub mod laws;
pub mod ledger;
pub mod oracle;
pub mod pool;
