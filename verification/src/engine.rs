//! The migration as a state machine, for a caller that fetches the metadata
//! and decodes the bytes itself, one after the other.
//!
//! The caller asks `pending` what to do, does it, and reports what came of
//! it; the engine decides. Reparsing the keys and rebuilding the system
//! need nothing from outside and happen within the last step.

use vstd::prelude::*;
use crate::error::MigrationError;
use crate::foreign::ForeignOpenSystem;
use crate::migration::{faultless, first_fault, rebuild, rebuilt};
use crate::open_system::MixedLindbladOpenSystemWrapper;
use crate::version::{check_format, readable, SerialisationMeta};

verus! {

/// Where a migration stands.
#[derive(Clone, Copy, Debug, PartialEq, Eq, Structural)]
pub enum Stage {
    /// The source's metadata is awaited.
    FormatCheck,
    /// The version was accepted; the decoded source is awaited.
    Decode,
    /// The system was handed out.
    Done,
    /// The migration was abandoned for the given reason.
    Failed(MigrationError),
}

/// What the caller is to do next.
#[derive(Clone, Copy, Debug, PartialEq, Eq, Structural)]
pub enum Action {
    /// Obtain and parse the source's metadata, then call `on_metadata`.
    FetchMetadata,
    /// Obtain and decode the source's bytes, then call `on_decoded`.
    DecodeBytes,
    /// Nothing: the migration has ended.
    Stop,
}

impl Stage {
    /// The migration has ended, in `Done` or in `Failed`.
    pub open spec fn is_final(self) -> bool {
        self is Done || self is Failed
    }
}

/// The action that a stage asks for.
pub open spec fn pending_spec(stage: Stage) -> Action {
    match stage {
        Stage::FormatCheck => Action::FetchMetadata,
        Stage::Decode => Action::DecodeBytes,
        _ => Action::Stop,
    }
}

/// The stage after the metadata was reported, `None` standing for metadata
/// that could not be obtained or parsed. Outside `FormatCheck` the report
/// changes nothing.
pub open spec fn after_metadata(
    stage: Stage,
    reader: SerialisationMeta,
    source: Option<SerialisationMeta>,
) -> Stage {
    if stage != Stage::FormatCheck {
        stage
    } else {
        match source {
            None => Stage::Failed(MigrationError::NotASupportedObject),
            Some(meta) => if readable(reader, meta) {
                Stage::Decode
            } else {
                Stage::Failed(MigrationError::IncompatibleVersion)
            },
        }
    }
}

/// The action that `stage` asks for.
pub fn pending(stage: Stage) -> (action: Action)
    ensures
        action == pending_spec(stage),
        action == Action::Stop <==> stage.is_final(),
{
    match stage {
        Stage::FormatCheck => Action::FetchMetadata,
        Stage::Decode => Action::DecodeBytes,
        _ => Action::Stop,
    }
}

/// Takes the report on the source's metadata.
pub fn on_metadata(stage: Stage, reader: &SerialisationMeta, source: Option<SerialisationMeta>) -> (next:
    Stage)
    ensures
        next == after_metadata(stage, *reader, source),
{
    match stage {
        Stage::FormatCheck => match source {
            None => Stage::Failed(MigrationError::NotASupportedObject),
            Some(meta) => match check_format(reader, &meta) {
                Ok(()) => Stage::Decode,
                Err(e) => Stage::Failed(e),
            },
        },
        other => other,
    }
}

/// Takes the report on the decoded source, `None` standing for bytes that
/// could not be decoded, and with it makes the last step.
///
/// Outside `Decode` the report changes nothing and no system is handed out.
/// In `Decode`, bytes that could not be decoded fail the migration with
/// `DeserializationError`. A decoded source is reparsed and rebuilt: the
/// system is handed out, and the stage is `Done`, exactly where the source
/// is without fault; else the stage is `Failed` with the first fault.
pub fn on_decoded(stage: Stage, foreign: Option<ForeignOpenSystem>) -> (r: (
    Stage,
    Option<MixedLindbladOpenSystemWrapper>,
))
    ensures
        r.1 is Some <==> stage == Stage::Decode && foreign is Some && faultless(foreign->0),
        r.1 is Some <==> r.0 == Stage::Done && stage != Stage::Done,
        r.1 is Some ==> rebuilt(foreign->0, r.1->0.internal),
        stage != Stage::Decode ==> r.0 == stage,
        stage == Stage::Decode && foreign is None ==> r.0 == Stage::Failed(
            MigrationError::DeserializationError,
        ),
        stage == Stage::Decode && foreign is Some && !faultless(foreign->0) ==> r.0 is Failed
            && first_fault(foreign->0, r.0->Failed_0),
{
    match stage {
        Stage::Decode => match foreign {
            None => (Stage::Failed(MigrationError::DeserializationError), None),
            Some(decoded) => match rebuild(&decoded) {
                Ok(sys) => (Stage::Done, Some(MixedLindbladOpenSystemWrapper { internal: sys })),
                Err(e) => (Stage::Failed(e), None),
            },
        },
        other => (other, None),
    }
}

/// A migration that has ended stays as it ended: no report moves it, and
/// none makes it hand out a system.
pub proof fn lemma_final_stages_absorb(
    stage: Stage,
    reader: SerialisationMeta,
    source: Option<SerialisationMeta>,
)
    requires
        stage.is_final(),
    ensures
        after_metadata(stage, reader, source) == stage,
        pending_spec(stage) == Action::Stop,
{
}

/// A source whose oldest supported reader is newer than this reader fails
/// at the first step with `IncompatibleVersion`, before anything is decoded.
pub proof fn lemma_newer_minimum_fails_format_check(reader: SerialisationMeta, source: SerialisationMeta)
    requires
        reader.version.precedes(source.min_version),
    ensures
        after_metadata(Stage::FormatCheck, reader, Some(source)) == Stage::Failed(
            MigrationError::IncompatibleVersion,
        ),
        pending_spec(after_metadata(Stage::FormatCheck, reader, Some(source))) == Action::Stop,
{
}

} // verus!
