//! Derives a reproducible secret from a phrase and a confidential pepper,
//! and keeps the pepper masked in memory between uses.

pub mod clipboard;
pub mod derive;
pub mod error;
pub mod hex;
pub mod sealed;
pub mod startup;
pub mod store;
pub mod vault;
