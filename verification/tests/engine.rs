use lindblad_migrate::engine::{on_decoded, on_metadata, pending, Action, Stage};
use lindblad_migrate::error::MigrationError;
use lindblad_migrate::foreign::{ForeignOpenSystem, ForeignTerm};
use lindblad_migrate::version::{SerialisationMeta, Version};
use qoqo_calculator::CalculatorComplex;
use struqture::OperateOnDensityMatrix;
use struqture::OpenSystem;

fn meta(min: (u64, u64, u64), own: (u64, u64, u64)) -> SerialisationMeta {
    SerialisationMeta {
        producer: "MixedLindbladOpenSystem".to_string(),
        min_version: Version { major: min.0, minor: min.1, patch: min.2 },
        version: Version { major: own.0, minor: own.1, patch: own.2 },
    }
}

fn foreign(keys: &[&str]) -> ForeignOpenSystem {
    ForeignOpenSystem {
        spin_subsystems: 1,
        boson_subsystems: 1,
        fermion_subsystems: 1,
        hamiltonian: keys
            .iter()
            .map(|key| ForeignTerm { key: key.to_string(), value: CalculatorComplex::new(2.0, 0.0) })
            .collect(),
        noise: vec![],
    }
}

#[test]
fn stages_ask_for_their_action() {
    assert_eq!(pending(Stage::FormatCheck), Action::FetchMetadata);
    assert_eq!(pending(Stage::Decode), Action::DecodeBytes);
    assert_eq!(pending(Stage::Done), Action::Stop);
    assert_eq!(pending(Stage::Failed(MigrationError::KeyConversionError)), Action::Stop);
}

#[test]
fn full_run_hands_out_the_system() {
    let reader = meta((2, 0, 0), (2, 0, 0));
    let stage = on_metadata(Stage::FormatCheck, &reader, Some(meta((2, 0, 0), (2, 0, 0))));
    assert_eq!(stage, Stage::Decode);
    let (stage, system) = on_decoded(stage, Some(foreign(&["S0Z:Bc0a1:Fc0a0:"])));
    assert_eq!(stage, Stage::Done);
    assert_eq!(system.unwrap().internal.system().len(), 1);
}

#[test]
fn missing_metadata_is_no_supported_object() {
    let reader = meta((2, 0, 0), (2, 0, 0));
    let stage = on_metadata(Stage::FormatCheck, &reader, None);
    assert_eq!(stage, Stage::Failed(MigrationError::NotASupportedObject));
}

#[test]
fn newer_minimum_fails_before_decoding() {
    let reader = meta((2, 0, 0), (2, 0, 0));
    let stage = on_metadata(Stage::FormatCheck, &reader, Some(meta((2, 1, 0), (2, 1, 0))));
    assert_eq!(stage, Stage::Failed(MigrationError::IncompatibleVersion));
    assert_eq!(pending(stage), Action::Stop);
    let (stage, system) = on_decoded(stage, Some(foreign(&["S0Z:Bc0a1:Fc0a0:"])));
    assert_eq!(stage, Stage::Failed(MigrationError::IncompatibleVersion));
    assert!(system.is_none());
}

#[test]
fn undecodable_bytes_are_a_deserialization_error() {
    let (stage, system) = on_decoded(Stage::Decode, None);
    assert_eq!(stage, Stage::Failed(MigrationError::DeserializationError));
    assert!(system.is_none());
}

#[test]
fn one_bad_key_hands_out_nothing() {
    let (stage, system) =
        on_decoded(Stage::Decode, Some(foreign(&["S0Z:Bc0a1:Fc0a0:", "S0Z:Bc0a1:Fc0b0:"])));
    assert_eq!(stage, Stage::Failed(MigrationError::KeyConversionError));
    assert!(system.is_none());
}

#[test]
fn reports_out_of_turn_change_nothing() {
    let reader = meta((2, 0, 0), (2, 0, 0));
    let (stage, system) = on_decoded(Stage::FormatCheck, Some(foreign(&[])));
    assert_eq!(stage, Stage::FormatCheck);
    assert!(system.is_none());
    assert_eq!(on_metadata(Stage::Decode, &reader, None), Stage::Decode);
    assert_eq!(on_metadata(Stage::Done, &reader, None), Stage::Done);
    let (stage, system) = on_decoded(Stage::Done, Some(foreign(&[])));
    assert_eq!(stage, Stage::Done);
    assert!(system.is_none());
}

#[test]
fn refused_value_hands_out_nothing() {
    let source = ForeignOpenSystem {
        spin_subsystems: 1,
        boson_subsystems: 1,
        fermion_subsystems: 1,
        hamiltonian: vec![
            ForeignTerm { key: "S0Z:Bc0a1:Fc0a0:".to_string(), value: CalculatorComplex::new(2.0, 0.0) },
            ForeignTerm { key: "S0Z:Bc0a0:Fc0a0:".to_string(), value: CalculatorComplex::new(2.0, 1.0) },
        ],
        noise: vec![],
    };
    let (stage, system) = on_decoded(Stage::Decode, Some(source));
    assert_eq!(stage, Stage::Failed(MigrationError::KeyConversionError));
    assert!(system.is_none());
}
