use fractal::room_upgrade::info::{JoinRuleValue, UpgradeInfo};
use fractal::room_upgrade::versions::{RoomVersionStability, RoomVersionsCapability};

const EXPERIMENT_A: &str = "org.example.a";
const EXPERIMENT_B: &str = "org.example.b";

/// A server with the stable versions 1 to 12 and two experimental versions.
fn server(default: &str) -> RoomVersionsCapability {
    let mut capability = RoomVersionsCapability::new(default.to_owned());
    for version in 1..=12 {
        capability = capability.with_version(version.to_string(), RoomVersionStability::Stable);
    }
    capability
        .with_version(EXPERIMENT_A.to_owned(), RoomVersionStability::Unstable)
        .with_version(EXPERIMENT_B.to_owned(), RoomVersionStability::Unstable)
}

fn stable_versions(default: &str, versions: &[&str]) -> RoomVersionsCapability {
    versions.iter().fold(RoomVersionsCapability::new(default.to_owned()), |capability, version| {
        capability.with_version(version.to_string(), RoomVersionStability::Stable)
    })
}

fn offers(current: &str, capability: &RoomVersionsCapability) -> UpgradeInfo {
    UpgradeInfo::new(JoinRuleValue::Other).with_room_versions(&current.to_owned(), capability)
}

#[test]
fn new_info_is_empty() {
    let info = UpgradeInfo::new(JoinRuleValue::Invite);
    assert!(info.stable_room_versions.is_empty());
    assert!(info.unstable_room_versions.is_empty());
    assert_eq!(info.selected, 0);
    assert!(!info.own_user_is_creator);
    assert_eq!(info.other_creators_count, 0);
    assert_eq!(info.join_rule, JoinRuleValue::Invite);
}

#[test]
fn lower_current_version_starts_at_the_default() {
    let info = offers("9", &server("11"));
    assert_eq!(info.stable_room_versions, ["11", "12"]);
    assert!(info.unstable_room_versions.is_empty());
    assert_eq!(info.selected, 0);
}

#[test]
fn higher_current_version_starts_at_the_current_version() {
    let info = offers("10", &server("9"));
    assert_eq!(info.stable_room_versions, ["10", "11", "12"]);
    assert!(info.unstable_room_versions.is_empty());
    assert_eq!(info.selected, 0);
}

#[test]
fn equal_current_and_default_version() {
    let info = offers("12", &server("12"));
    assert_eq!(info.stable_room_versions, ["12"]);
    assert!(info.unstable_room_versions.is_empty());
    assert_eq!(info.selected, 0);
}

#[test]
fn experimental_current_version_above_a_stable_default() {
    // Every stable version of the server is lower.
    let info = offers(EXPERIMENT_A, &server("10"));
    assert!(info.stable_room_versions.is_empty());
    assert_eq!(info.unstable_room_versions, [EXPERIMENT_A]);
    assert_eq!(info.selected, 0);

    // The default is lower, but another stable version is not.
    let capability = stable_versions("5", &["5", "8", "9"]);
    let info = offers("7", &capability);
    assert_eq!(info.stable_room_versions, ["8", "9"]);
    assert_eq!(info.unstable_room_versions, ["7"]);
    assert_eq!(info.selected, 2);
}

#[test]
fn experimental_current_version_below_a_stable_default() {
    let capability = stable_versions("8", &["5", "8", "9"]);
    let info = offers("7", &capability);
    assert_eq!(info.stable_room_versions, ["8", "9"]);
    assert_eq!(info.unstable_room_versions, ["7"]);
    assert_eq!(info.selected, 0);
}

#[test]
fn stable_current_version_with_experimental_default() {
    let info = offers("10", &server(EXPERIMENT_B));
    assert_eq!(info.stable_room_versions, ["10", "11", "12"]);
    assert_eq!(info.unstable_room_versions, [EXPERIMENT_B]);
    assert_eq!(info.selected, 0);
}

#[test]
fn experimental_current_and_default_versions() {
    let info = offers(EXPERIMENT_A, &server(EXPERIMENT_B));
    assert_eq!(info.stable_room_versions, ["12"]);
    assert_eq!(info.unstable_room_versions, [EXPERIMENT_A, EXPERIMENT_B]);
    assert_eq!(info.selected, 2);

    // The default is lower than the current version.
    let info = offers(EXPERIMENT_B, &server(EXPERIMENT_A));
    assert_eq!(info.stable_room_versions, ["12"]);
    assert_eq!(info.unstable_room_versions, [EXPERIMENT_B]);
    assert_eq!(info.selected, 1);
}

#[test]
fn experimental_version_that_is_current_and_default_is_listed_once() {
    let info = offers(EXPERIMENT_A, &server(EXPERIMENT_A));
    assert_eq!(info.stable_room_versions, ["12"]);
    assert_eq!(info.unstable_room_versions, [EXPERIMENT_A]);
    assert_eq!(info.selected, 1);
}

#[test]
fn unknown_versions_are_experimental() {
    let info = offers("unknown", &RoomVersionsCapability::new("other".to_owned()));
    assert!(info.stable_room_versions.is_empty());
    assert_eq!(info.unstable_room_versions, ["unknown"]);
    assert_eq!(info.selected, 0);

    let info = offers("other", &RoomVersionsCapability::new("unknown".to_owned()));
    assert!(info.stable_room_versions.is_empty());
    assert_eq!(info.unstable_room_versions, ["other", "unknown"]);
    assert_eq!(info.selected, 1);
}

#[test]
fn lower_experimental_default_is_not_offered() {
    let capability = RoomVersionsCapability::new("10".to_owned())
        .with_version("10".to_owned(), RoomVersionStability::Unstable)
        .with_version("11".to_owned(), RoomVersionStability::Stable);
    let info = offers("11", &capability);
    assert_eq!(info.stable_room_versions, ["11"]);
    assert!(info.unstable_room_versions.is_empty());
    assert_eq!(info.selected, 0);
}

#[test]
fn highest_stable_version_is_offered_with_experimental_versions() {
    // Although it is lower than the current version.
    let capability = stable_versions("8", &["5", "6"]);
    let info = offers("7", &capability);
    assert_eq!(info.stable_room_versions, ["6"]);
    assert_eq!(info.unstable_room_versions, ["7", "8"]);
    assert_eq!(info.selected, 2);
}

#[test]
fn versions_compare_as_numbers() {
    let capability = stable_versions("9", &["10", "9", "010x", "100"]);
    let info = offers("9", &capability);
    assert_eq!(info.stable_room_versions, ["9", "10", "010x", "100"]);
}

#[test]
fn experimental_version_counts_like_an_unlisted_one() {
    for current in ["9", EXPERIMENT_A, EXPERIMENT_B, "org.example.c"] {
        for default in ["9", "12", EXPERIMENT_A, EXPERIMENT_B, "org.example.c"] {
            let without = offers(current, &server(default));
            let with = offers(
                current,
                &server(default)
                    .with_version("org.example.c".to_owned(), RoomVersionStability::Unstable),
            );
            assert_eq!(with.stable_room_versions, without.stable_room_versions);
            assert_eq!(with.unstable_room_versions, without.unstable_room_versions);
            assert_eq!(with.selected, without.selected);
        }
    }
}

#[test]
fn order_of_versions_and_creators_does_not_matter() {
    let own = "@me:example.org".to_owned();
    let creators = users(&["@a:b.c", "@me:example.org"]);
    let current = "9".to_owned();
    let new = || UpgradeInfo::new(JoinRuleValue::Invite);
    let a = new()
        .with_room_versions(&current, &server(EXPERIMENT_A))
        .with_privileged_creators(&own, &creators);
    let b = new()
        .with_privileged_creators(&own, &creators)
        .with_room_versions(&current, &server(EXPERIMENT_A));
    assert_eq!(format!("{a:?}"), format!("{b:?}"));
}

#[test]
fn versions_of_the_same_rank_are_all_listed() {
    // Stable ones by code points.
    let capability = stable_versions("1", &["2", "1", "001", "01"]);
    for (current, selected) in [("001", 0), ("01", 1), ("1", 2)] {
        let info = offers(current, &capability);
        assert_eq!(info.stable_room_versions, ["001", "01", "1", "2"]);
        assert!(info.unstable_room_versions.is_empty());
        assert_eq!(info.selected, selected);
    }

    // Of experimental ones, the current one comes first.
    for (current, default) in [("1", "01"), ("01", "1")] {
        let info = offers(current, &RoomVersionsCapability::new(default.to_owned()));
        assert!(info.stable_room_versions.is_empty());
        assert_eq!(info.unstable_room_versions, [current, default]);
        assert_eq!(info.selected, 1);
    }

    // The selected version is the one that is meant, although a stable one has the same rank.
    let info = offers("1", &stable_versions("01", &["001"]));
    assert_eq!(info.stable_room_versions, ["001"]);
    assert_eq!(info.unstable_room_versions, ["1", "01"]);
    assert_eq!(info.selected, 2);
}

#[test]
fn many_versions_of_the_same_rank_stay_in_order() {
    let versions: Vec<String> =
        (0..60).map(|i: usize| format!("{}{}", "0".repeat(59 - i % 30), i / 30 + 1)).collect();
    let ids: Vec<&str> = versions.iter().map(String::as_str).collect();
    let info = offers(ids[3], &stable_versions(ids[7], &ids));
    let mut expected = versions.clone();
    expected.sort_by_key(|id| (id.parse::<u64>().unwrap(), id.clone()));
    assert_eq!(info.stable_room_versions, expected);
    assert_eq!(info.stable_room_versions[info.selected], ids[3]);
}

#[test]
fn numbers_come_before_experiments() {
    let capability = stable_versions("1", &["org.example.msc2176", "1", "20"]);
    let info = offers("1", &capability);
    assert_eq!(info.stable_room_versions, ["1", "20", "org.example.msc2176"]);
}

#[test]
fn versions_replace_the_ones_before() {
    let info = offers("9", &server("11")).with_room_versions(&"10".to_owned(), &server("1"));
    assert_eq!(info.stable_room_versions, ["10", "11", "12"]);
}

#[test]
fn no_stable_version_below_a_stable_default_or_current_version() {
    for current in 1..=12u32 {
        for default in 1..=12u32 {
            let info = offers(&current.to_string(), &server(&default.to_string()));
            let listed: Vec<u32> =
                info.stable_room_versions.iter().map(|v| v.parse().unwrap()).collect();
            let expected: Vec<u32> = (current.max(default)..=12).collect();
            assert_eq!(listed, expected);
            assert!(info.unstable_room_versions.is_empty());
            assert_eq!(info.selected, 0);
        }
    }
}

fn users(names: &[&str]) -> Vec<String> {
    names.iter().map(|name| name.to_string()).collect()
}

#[test]
fn creators_without_our_own_user() {
    let info = UpgradeInfo::new(JoinRuleValue::Other)
        .with_privileged_creators(&"@me:example.org".to_owned(), &users(&["@a:b.c", "@d:e.f"]));
    assert!(!info.own_user_is_creator);
    assert_eq!(info.other_creators_count, 2);
}

#[test]
fn creators_with_our_own_user() {
    let own = "@me:example.org".to_owned();
    let info = UpgradeInfo::new(JoinRuleValue::Other)
        .with_privileged_creators(&own, &users(&["@a:b.c", "@me:example.org"]));
    assert!(info.own_user_is_creator);
    assert_eq!(info.other_creators_count, 1);

    let info = info.with_privileged_creators(&own, &users(&["@me:example.org"]));
    assert!(info.own_user_is_creator);
    assert_eq!(info.other_creators_count, 0);

    // Our own user is never another creator, however often it is listed.
    let twice = users(&["@me:example.org", "@a:b.c", "@me:example.org"]);
    let info = info.with_privileged_creators(&own, &twice);
    assert!(info.own_user_is_creator);
    assert_eq!(info.other_creators_count, 1);
    let info = info.with_privileged_creators(&own, &users(&["@me:example.org", "@me:example.org"]));
    assert!(info.own_user_is_creator);
    assert_eq!(info.other_creators_count, 0);

    let info = info.with_privileged_creators(&own, &[]);
    assert!(!info.own_user_is_creator);
    assert_eq!(info.other_creators_count, 0);
}

#[test]
fn creators_leave_the_versions_alone() {
    let info = offers(EXPERIMENT_A, &server(EXPERIMENT_B))
        .with_privileged_creators(&"@me:example.org".to_owned(), &users(&["@a:b.c"]));
    assert_eq!(info.stable_room_versions, ["12"]);
    assert_eq!(info.unstable_room_versions, [EXPERIMENT_A, EXPERIMENT_B]);
    assert_eq!(info.selected, 2);
}
