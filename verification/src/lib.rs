//! A consent-and-reward ledger for research studies.
//!
//! Researchers register studies that own a reward vault; participants
//! register, grant or revoke consent to a study, and claim the vault's
//! balance once, while their consent is active. Every transition is a pure
//! function of the records it touches and of the caller's identity, and is
//! either applied completely or rejected without any change.

pub mod state;
pub mod error;
pub mod guard;
pub mod clock;
pub mod contexts;
pub mod instructions;
pub mod theorems;
