use git_release::ecosystem::next_version::{bump_overflows, get_next_version, version_parts};
use git_release::ecosystem::types::{EcosystemType, ReleaseKind};

#[test]
fn test_get_next_version() {
    let current_version = "2.4.0";
    let major_version = get_next_version(current_version, &ReleaseKind::Major);
    assert_eq!(major_version, "3.0.0");

    let minor_version = get_next_version(current_version, &ReleaseKind::Minor);
    assert_eq!(minor_version, "2.5.0");

    let patch_version = get_next_version(current_version, &ReleaseKind::Patch);
    assert_eq!(patch_version, "2.4.1");
}

#[test]
fn short_versions_fill_missing_components_with_zero() {
    assert_eq!(get_next_version("1.2", &ReleaseKind::Patch), "1.2.1");
    assert_eq!(get_next_version("7", &ReleaseKind::Minor), "7.1.0");
    assert_eq!(get_next_version("", &ReleaseKind::Patch), "0.0.1");
    assert_eq!(get_next_version("", &ReleaseKind::Major), "1.0.0");
}

#[test]
fn pieces_that_are_not_numbers_are_skipped() {
    // "v1" is not a number, so the components are 2, 3 and (missing) 0.
    assert_eq!(version_parts("v1.2.3"), (2, 3, 0));
    assert_eq!(get_next_version("v1.2.3", &ReleaseKind::Patch), "2.3.1");
    // "3-beta" is skipped; 4 becomes the patch component.
    assert_eq!(version_parts("1.2.3-beta.4"), (1, 2, 4));
    assert_eq!(get_next_version("1.2.3-beta.4", &ReleaseKind::Patch), "1.2.5");
    assert_eq!(version_parts("1..2"), (1, 2, 0));
}

#[test]
fn pieces_parse_like_u32() {
    assert_eq!(version_parts("+1.+2.3"), (1, 2, 3));
    assert_eq!(version_parts("01.002.3"), (1, 2, 3));
    assert_eq!(version_parts("-1.2.3.4"), (2, 3, 4));
    assert_eq!(version_parts("+.1.2.3"), (1, 2, 3));
    assert_eq!(version_parts("4294967295.0.0"), (4294967295, 0, 0));
    // Too large for u32: skipped.
    assert_eq!(version_parts("4294967296.1.2"), (1, 2, 0));
    assert_eq!(version_parts(" 1.2.3"), (2, 3, 0));
}

#[test]
fn bumps_that_would_overflow_are_detected() {
    assert!(bump_overflows("4294967295.0.0", &ReleaseKind::Major));
    assert!(!bump_overflows("4294967295.0.0", &ReleaseKind::Minor));
    assert!(bump_overflows("1.4294967295.0", &ReleaseKind::Minor));
    assert!(bump_overflows("1.2.4294967295", &ReleaseKind::Patch));
    assert!(!bump_overflows("1.2.4294967294", &ReleaseKind::Patch));
    assert_eq!(get_next_version("1.2.4294967294", &ReleaseKind::Patch), "1.2.4294967295");
}

#[test]
fn next_version_reads_back_as_the_bumped_components() {
    for current in ["0.9.9", "v3.4", "10.0.99", "x.y.z", "1.2.3.4.5"] {
        let (a, b, c) = version_parts(current);
        assert_eq!(version_parts(&get_next_version(current, &ReleaseKind::Major)), (a + 1, 0, 0));
        assert_eq!(version_parts(&get_next_version(current, &ReleaseKind::Minor)), (a, b + 1, 0));
        assert_eq!(version_parts(&get_next_version(current, &ReleaseKind::Patch)), (a, b, c + 1));
    }
}

#[test]
fn bumping_twice_composes() {
    let once = get_next_version("0.1.9", &ReleaseKind::Patch);
    assert_eq!(once, "0.1.10");
    assert_eq!(get_next_version(&once, &ReleaseKind::Patch), "0.1.11");
    assert_eq!(get_next_version(&once, &ReleaseKind::Minor), "0.2.0");
}

#[test]
fn cargo_manifest_wins_detection() {
    assert_eq!(EcosystemType::detect(true, true), Some(EcosystemType::Cargo));
    assert_eq!(EcosystemType::detect(true, false), Some(EcosystemType::Cargo));
    assert_eq!(EcosystemType::detect(false, true), Some(EcosystemType::Npm));
    assert_eq!(EcosystemType::detect(false, false), None);
}

#[test]
fn release_kinds_are_named_for_the_command_line() {
    let kinds = ReleaseKind::value_variants();
    let names: Vec<&str> = kinds.iter().map(|k| k.name()).collect();
    assert_eq!(names, vec!["major", "minor", "patch"]);
    assert_eq!(ReleaseKind::Minor.help(), "Bump minor version (x.Y.0)");
}
