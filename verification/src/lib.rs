//! A fee-collecting registry of binary polls.
//!
//! A registry sells the right to create polls and gathers, in one vault, the
//! price of each poll and the fee of each vote. A poll records at most one
//! aye or no per identity until its deadline.

pub mod address;
pub mod auth;
pub mod custody;
pub mod decimal;
pub mod error;
pub mod here;
pub mod laws;
pub mod metadata;
pub mod vote;
