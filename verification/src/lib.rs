//! Verified models of three ride-hailing contracts: the ride escrow, the
//! driver payout ledger and the dispute resolution desk.
//!
//! Each contract is a state machine over plain values. A call takes the
//! contract's stored state and the caller's arguments, and either rejects the
//! call (leaving the state untouched, as a failed contract call does) or
//! returns the new state together with the outside work the host must carry
//! out: token transfers, calls into the other contracts and published events.
//! The caller named in a call is the one the host has authenticated.

pub mod ledger;

pub mod ride_escrow;
pub mod escrow_laws;

pub mod driver_payout;
pub mod payout_laws;

pub mod dispute_resolution;
pub mod dispute_laws;
