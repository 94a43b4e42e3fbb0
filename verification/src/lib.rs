//! Risk flags of a bounty escrow, on the Soroban smart-contract platform.
//!
//! A bounty carries a small set of risk flags inside its escrow metadata. The
//! contract admin may replace, add or clear flags at once, or propose a change
//! that anyone may carry out after a delay. Each change of the flags leaves an
//! event behind.
//!
//! * [`types`] holds the data: addresses, metadata, proposals, keys, events, errors.
//! * [`host`] holds every call into `soroban_sdk`, and what is believed of it.
//! * [`model`] says, in mathematics alone, what each operation does.
//! * [`risk_flag`] holds the operations, proved to do what the model says.
//! * [`laws`] states what holds across operations.
//! * [`storage_laws`] states, on what storage holds, what each operation comes to.
//! * [`operation_laws`] states the same of the operations as they are called.

pub mod host;
pub mod laws;
pub mod model;
pub mod operation_laws;
pub mod reentrancy_guard;
pub mod risk_flag;
pub mod storage_laws;
pub mod types;
