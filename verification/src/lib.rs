//! A UTXO-style value-transfer ledger layered on an account-based storage
//! runtime.
//!
//! Each unspent value record (UTXO) is an addressable storage cell owned by a
//! base module and governed by a verification module.  The library covers the
//! deterministic derivation of storage addresses, the lifecycle of a record
//! (initialize, activate, deactivate), the witness codec and ECDSA-recovery
//! based spend authorization, vault accounting for deposits and withdrawals,
//! and the multi-input/multi-output transfer protocol with its zero-sum
//! balance check.
//!
//! The surrounding runtime (storage allocation, native-balance bookkeeping,
//! atomic all-or-nothing execution, instruction dispatch) stays outside this
//! crate; the operations here work on plain record values and state exactly
//! how each call transforms them.

pub mod address;
pub mod base;
pub mod bytes;
pub mod codec;
pub mod ecdsa;
pub mod error;
pub mod instruction;
pub mod state;
pub mod transfer;
pub mod vault;
