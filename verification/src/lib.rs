//! Capital allocation across staking protocols, and the bookkeeping that turns
//! an allocation into stake orders against independently failing backends.
//!
//! Everything here is pure: network transport, clocks and secrets stay with the
//! caller, which performs the calls this crate describes and hands the replies back.

pub mod adapter;
pub mod address;
pub mod amount;
pub mod dispatcher;
pub mod eigenpod;
pub mod error;
pub mod json;
pub mod lido;
pub mod p2p;
pub mod protocol;
pub mod provider;
pub mod rounding;
pub mod strategy;
pub mod sums;
pub mod transport;
