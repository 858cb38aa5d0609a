//! A reservation/settlement engine for a pack ("loot box") vault and the
//! marketplace that shares its custody model.
//!
//! The library is the decision core of the system: it validates each
//! operation against the current records, computes the exact post-state of
//! every record it touches, and describes the payment, custody and mint
//! movements the caller must perform.  The surrounding ledger, the payment
//! rails and the asset-custody service are collaborators: they are handed in
//! as plain values (record addresses, token-account facts, the current time)
//! and handed back action descriptions, so that every rule in between is
//! verified.

#![verifier::loop_isolation(false)]

pub mod actions;
pub mod codec;
pub mod errors;
pub mod ids;
pub mod laws;
pub mod market;
pub mod math;
pub mod pack;
pub mod pack_legacy;
pub mod payment;
pub mod records;
pub mod session;
pub mod vault;

pub use ids::Id32;
