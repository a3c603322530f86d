use fractal::messages::Message;
use fractal::room_upgrade::dialog::{HeaderError, RoomVersion, UpgradeDialog};
use fractal::room_upgrade::info::{JoinRuleValue, UpgradeInfo};

fn info(stable: &[&str], unstable: &[&str], selected: usize) -> UpgradeInfo {
    let mut info = UpgradeInfo::new(JoinRuleValue::Other);
    info.stable_room_versions = stable.iter().map(|v| v.to_string()).collect();
    info.unstable_room_versions = unstable.iter().map(|v| v.to_string()).collect();
    info.selected = selected;
    info
}

fn sections(info: &UpgradeInfo) -> Vec<Vec<(String, bool)>> {
    UpgradeDialog::new()
        .update_version_combo(info)
        .sections
        .into_iter()
        .map(|rows| rows.into_iter().map(|row| (row.id, row.is_stable)).collect())
        .collect()
}

fn row(id: &str, is_stable: bool) -> (String, bool) {
    (id.to_owned(), is_stable)
}

#[test]
fn stable_versions_have_no_header() {
    let info = info(&["11", "12"], &[], 1);
    assert_eq!(sections(&info), [vec![row("11", true), row("12", true)]]);
    let combo = UpgradeDialog::new().update_version_combo(&info);
    assert!(!combo.has_headers);
    assert_eq!(combo.selected, 1);
}

#[test]
fn unstable_versions_have_a_header() {
    let info = info(&[], &["exp"], 0);
    assert_eq!(sections(&info), [vec![row("exp", false)]]);
    let combo = UpgradeDialog::new().update_version_combo(&info);
    assert!(combo.has_headers);
    assert_eq!(combo.selected, 0);
}

#[test]
fn stable_versions_come_before_unstable_ones() {
    let info = info(&["12"], &["exp"], 1);
    assert_eq!(sections(&info), [vec![row("12", true)], vec![row("exp", false)]]);
    let combo = UpgradeDialog::new().update_version_combo(&info);
    assert!(combo.has_headers);
    assert_eq!(combo.selected, 1);
}

#[test]
fn selected_position_that_is_too_large() {
    let info = info(&["12"], &[], usize::MAX);
    assert_eq!(UpgradeDialog::new().update_version_combo(&info).selected, u32::MAX);
}

#[test]
fn warning_for_invite_only_rooms() {
    let dialog = UpgradeDialog::new();
    assert!(dialog.update_invite_only_warning(&UpgradeInfo::new(JoinRuleValue::Invite)));
    assert!(!dialog.update_invite_only_warning(&UpgradeInfo::new(JoinRuleValue::Other)));
}

fn creators(own: bool, others: usize) -> UpgradeInfo {
    let mut info = UpgradeInfo::new(JoinRuleValue::Other);
    info.own_user_is_creator = own;
    info.other_creators_count = others;
    info
}

#[test]
fn creators_warnings() {
    let warning = |own, others| UpgradeDialog::new().update_creators_warning(&creators(own, others));
    assert_eq!(warning(false, 0), None);
    assert_eq!(warning(true, 0), None);
    assert_eq!(warning(true, 1), Some(Message::OtherCreatorDemoted));
    assert_eq!(warning(true, 2), Some(Message::OtherCreatorsDemoted));
    assert_eq!(warning(false, 1), Some(Message::CurrentCreatorDemoted));
    assert_eq!(warning(false, 3), Some(Message::CurrentCreatorsDemoted));
}

#[test]
fn section_titles() {
    let stable = RoomVersion { id: "12".to_owned(), is_stable: true };
    let unstable = RoomVersion { id: "exp".to_owned(), is_stable: false };
    let dialog = UpgradeDialog::new();
    assert_eq!(dialog.bind_header(true, true, Some(&stable)), Ok(Message::Stable));
    assert_eq!(dialog.bind_header(true, true, Some(&unstable)), Ok(Message::Experimental));
}

#[test]
fn section_titles_that_cannot_be_filled_in() {
    let dialog = UpgradeDialog::new();
    let version = RoomVersion { id: "12".to_owned(), is_stable: true };
    assert_eq!(
        dialog.bind_header(false, true, Some(&version)).unwrap_err(),
        HeaderError::NotAListHeader
    );
    assert_eq!(dialog.bind_header(false, false, None).unwrap_err(), HeaderError::NotAListHeader);
    assert_eq!(dialog.bind_header(true, false, None).unwrap_err(), HeaderError::NoLabel);
    assert_eq!(dialog.bind_header(true, true, None).unwrap_err(), HeaderError::NoRoomVersion);
}

fn selected(id: &str) -> Option<RoomVersion> {
    Some(RoomVersion { id: id.to_owned(), is_stable: true })
}

#[test]
fn dialog_shows_the_information() {
    let mut info = info(&["12"], &["exp"], 1);
    info.join_rule = JoinRuleValue::Invite;
    info.other_creators_count = 1;
    let content = UpgradeDialog::new().confirm_upgrade(&info);
    assert_eq!(content.versions.sections.len(), 2);
    assert_eq!(content.versions.selected, 1);
    assert!(content.invite_only_warning);
    assert_eq!(content.creators_warning, Some(Message::CurrentCreatorDemoted));
}

#[test]
fn upgrade_responds_once_with_the_selected_version() {
    let mut dialog = UpgradeDialog::new();
    dialog.confirm_upgrade(&info(&["11", "12"], &[], 0));
    let step = dialog.upgrade(selected("12"));
    assert_eq!(step.response, Some(Some("12".to_owned())));
    assert!(step.close);
    let step = dialog.closed();
    assert_eq!(step.response, None);
    assert!(!step.close);
}

#[test]
fn upgrade_without_selection_responds_with_nothing() {
    let mut dialog = UpgradeDialog::new();
    dialog.confirm_upgrade(&info(&["11", "12"], &[], 0));
    assert_eq!(dialog.upgrade(None).response, Some(None));
    assert_eq!(dialog.closed().response, None);
}

#[test]
fn cancel_responds_with_nothing_when_the_dialog_is_closed() {
    let mut dialog = UpgradeDialog::new();
    dialog.confirm_upgrade(&info(&["11", "12"], &[], 0));
    let step = dialog.cancel();
    assert_eq!(step.response, None);
    assert!(step.close);
    assert_eq!(dialog.closed().response, Some(None));
}

#[test]
fn nobody_gets_a_response_before_the_dialog_was_shown() {
    let mut dialog = UpgradeDialog::new();
    assert_eq!(dialog.closed().response, None);
    assert_eq!(dialog.upgrade(selected("12")).response, None);
}

#[test]
fn dialog_can_be_shown_again() {
    let mut dialog = UpgradeDialog::new();
    for version in ["11", "12"] {
        dialog.confirm_upgrade(&info(&["11", "12"], &[], 0));
        assert_eq!(dialog.upgrade(selected(version)).response, Some(Some(version.to_owned())));
        assert_eq!(dialog.closed().response, None);
    }
}
