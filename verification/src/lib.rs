//! Migration of a mixed Lindblad open system from its textual-key exchange
//! form into a `struqture` container, with a version gate in front of it.
//!
//! The containers and the key grammar are `struqture`'s; this crate states
//! what it relies on from them in `container` and proves the migration
//! engine against those statements.

pub mod container;
pub mod digits;
pub mod engine;
pub mod error;
pub mod foreign;
pub mod key_text;
pub mod laws;
pub mod migration;
pub mod open_system;
pub mod version;
