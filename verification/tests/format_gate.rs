use lindblad_migrate::error::MigrationError;
use lindblad_migrate::version::{check_format, parse_version, SerialisationMeta, Version};

fn v(major: u64, minor: u64, patch: u64) -> Version {
    Version { major, minor, patch }
}

fn meta(min: Version, own: Version) -> SerialisationMeta {
    SerialisationMeta { producer: "reader".to_string(), min_version: min, version: own }
}

#[test]
fn older_than_compares_major_then_minor_then_patch() {
    assert!(v(1, 9, 9).is_older_than(&v(2, 0, 0)));
    assert!(v(2, 0, 9).is_older_than(&v(2, 1, 0)));
    assert!(v(2, 1, 0).is_older_than(&v(2, 1, 1)));
    assert!(!v(2, 1, 1).is_older_than(&v(2, 1, 1)));
    assert!(!v(2, 0, 0).is_older_than(&v(1, 9, 9)));
    assert!(!v(2, 1, 0).is_older_than(&v(2, 0, 9)));
}

#[test]
fn gate_passes_equal_versions() {
    let m = meta(v(2, 0, 0), v(2, 0, 0));
    assert_eq!(check_format(&m, &m), Ok(()));
}

#[test]
fn gate_passes_older_source_that_is_still_supported() {
    let reader = meta(v(2, 0, 0), v(2, 4, 0));
    let source = meta(v(2, 0, 0), v(2, 1, 3));
    assert_eq!(check_format(&reader, &source), Ok(()));
}

#[test]
fn gate_refuses_minimum_newer_than_reader() {
    let reader = meta(v(2, 0, 0), v(2, 0, 0));
    let source = meta(v(2, 0, 1), v(2, 0, 1));
    assert_eq!(check_format(&reader, &source), Err(MigrationError::IncompatibleVersion));
}

#[test]
fn gate_refuses_source_older_than_reader_supports() {
    let reader = meta(v(2, 0, 0), v(2, 0, 0));
    let source = meta(v(1, 0, 0), v(1, 14, 0));
    assert_eq!(check_format(&reader, &source), Err(MigrationError::IncompatibleVersion));
}

#[test]
fn parse_version_reads_three_numbers() {
    assert_eq!(parse_version(b"2.0.0"), Some(v(2, 0, 0)));
    assert_eq!(parse_version(b"1.14.3"), Some(v(1, 14, 3)));
    assert_eq!(parse_version(b"007.10.0"), Some(v(7, 10, 0)));
    assert_eq!(
        parse_version(b"18446744073709551615.0.1"),
        Some(v(18446744073709551615, 0, 1))
    );
}

#[test]
fn parse_version_skips_a_suffix() {
    assert_eq!(parse_version(b"2.0.0-alpha.7"), Some(v(2, 0, 0)));
    assert_eq!(parse_version(b"2.1.3+build5"), Some(v(2, 1, 3)));
    assert_eq!(parse_version(b"2.1.3-"), Some(v(2, 1, 3)));
}

#[test]
fn parse_version_refuses_other_texts() {
    assert_eq!(parse_version(b""), None);
    assert_eq!(parse_version(b"2"), None);
    assert_eq!(parse_version(b"2.0"), None);
    assert_eq!(parse_version(b"2.0."), None);
    assert_eq!(parse_version(b".0.0"), None);
    assert_eq!(parse_version(b"2..0"), None);
    assert_eq!(parse_version(b"2.0.0.1"), None);
    assert_eq!(parse_version(b"2.0.0alpha"), None);
    assert_eq!(parse_version(b"2.0.0 "), None);
    assert_eq!(parse_version(b"2.a.0"), None);
    assert_eq!(parse_version(b" 2.0.0"), None);
    assert_eq!(parse_version(b"18446744073709551616.0.0"), None);
    assert_eq!(parse_version(b"0.99999999999999999999999.0"), None);
}

#[test]
fn meta_from_fields_needs_a_version_text() {
    let m = SerialisationMeta::from_fields("p".to_string(), v(2, 0, 0), b"2.1.0").unwrap();
    assert_eq!(m.producer, "p");
    assert_eq!(m.min_version, v(2, 0, 0));
    assert_eq!(m.version, v(2, 1, 0));
    let r = SerialisationMeta::from_fields("p".to_string(), v(2, 0, 0), b"two");
    assert_eq!(r.err(), Some(MigrationError::NotASupportedObject));
}
