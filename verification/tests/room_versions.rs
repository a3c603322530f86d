use fractal::room_upgrade::versions::{RoomVersionStability, RoomVersionsCapability};

const STABLE: RoomVersionStability = RoomVersionStability::Stable;
const UNSTABLE: RoomVersionStability = RoomVersionStability::Unstable;

fn capability(default: &str, versions: &[(&str, RoomVersionStability)]) -> RoomVersionsCapability {
    let mut capability = RoomVersionsCapability::new(default.to_owned());
    for (version, stability) in versions {
        capability = capability.with_version(version.to_string(), *stability);
    }
    capability
}

#[test]
fn default_version_is_kept() {
    assert_eq!(capability("10", &[("9", STABLE)]).default(), "10");
}

#[test]
fn only_listed_stable_versions_are_stable() {
    let capability = capability("10", &[("9", STABLE), ("10", STABLE), ("exp", UNSTABLE)]);
    assert!(capability.is_stable_version(&"9".to_owned()));
    assert!(capability.is_stable_version(&"10".to_owned()));
    assert!(!capability.is_stable_version(&"exp".to_owned()));
    assert!(!capability.is_stable_version(&"11".to_owned()));
    assert!(!capability.is_stable_version(&"09".to_owned()));
    assert!(!capability.is_stable_version(&String::new()));
}

#[test]
fn last_stability_counts() {
    let capability = capability("1", &[("1", STABLE), ("2", STABLE), ("1", UNSTABLE)]);
    assert!(!capability.is_stable_version(&"1".to_owned()));
    assert!(capability.is_stable_version(&"2".to_owned()));
}

#[test]
fn maximum_compares_numbers() {
    let capability = capability("9", &[("9", STABLE), ("10", STABLE), ("2", STABLE)]);
    assert_eq!(capability.maximum_stable_version().map(String::as_str), Some("10"));
}

#[test]
fn maximum_ignores_unstable_versions() {
    let capability = capability("9", &[("9", STABLE), ("10", UNSTABLE)]);
    assert_eq!(capability.maximum_stable_version().map(String::as_str), Some("9"));
}

#[test]
fn maximum_is_the_first_listed_one_of_the_same_rank() {
    for versions in [[("1", STABLE), ("01", STABLE)], [("01", STABLE), ("1", STABLE)]] {
        let capability = capability("1", &versions);
        assert_eq!(capability.maximum_stable_version().map(String::as_str), Some("01"));
    }
}

#[test]
fn no_stable_version_no_maximum() {
    assert_eq!(capability("1", &[]).maximum_stable_version(), None);
    assert_eq!(capability("1", &[("1", UNSTABLE)]).maximum_stable_version(), None);
}

#[test]
fn numbers_come_before_texts() {
    let capability = capability("1", &[("org.example", STABLE), ("12", STABLE)]);
    assert_eq!(capability.maximum_stable_version().map(String::as_str), Some("org.example"));
}
