//! A settlement engine for a fixed-price, allowlisted token sale on a
//! shared, account-based ledger.
//!
//! The library holds the whole decision core: the instruction codec, the
//! persistent sale record and its byte layout, and the settlement processor
//! — a state machine that validates each operation against the record and
//! the observed collaborator state and returns the effects to commit, or
//! the error that aborts the invocation with no effect at all.  The ledger's
//! transfer and ownership primitives, the allowlist registry, and the clock
//! and storage-cost oracles are collaborators: the processor consumes their
//! readings as plain values and emits the calls to make, so that every rule
//! of the sale is stated in a contract and proved.

pub mod address;
pub mod error;
pub mod instruction;
pub mod laws;
pub mod processor;
pub mod spl;
pub mod state;
