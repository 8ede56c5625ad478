//! The ways a migration can end without a result.

use vstd::prelude::*;

verus! {

/// Why a migration was abandoned. Every variant is final: nothing is retried
/// and no partly filled system is handed out.
#[derive(Clone, Copy, Debug, PartialEq, Eq, Structural)]
pub enum MigrationError {
    /// The source does not offer the metadata or bytes a migration needs.
    NotASupportedObject,
    /// The source and the reader do not cover each other's format version.
    IncompatibleVersion,
    /// The source's bytes do not follow the foreign binary layout.
    DeserializationError,
    /// A foreign key's text is not a key of the current grammar.
    KeyConversionError,
    /// A key has another number of subsystems than the container.
    DimensionMismatch,
}

} // verus!
