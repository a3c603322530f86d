//! The dialog to confirm a room upgrade and select a room version.

use vstd::prelude::*;

use super::info::{JoinRuleValue, UpgradeInfo};
use super::versions::RoomVersionId;
use crate::messages::Message;
use crate::text::{optional_text, texts};

verus! {

/// A row of the list of room versions.
#[derive(Debug)]
pub struct RoomVersion {
    /// The identifier of the room version.
    pub id: RoomVersionId,
    /// Whether the room version is stable.
    pub is_stable: bool,
}

/// The list of room versions to choose from.
#[derive(Debug)]
pub struct VersionCombo {
    /// The sections of the list: the stable versions and the unstable ones, without the section
    /// that would be empty.
    pub sections: Vec<Vec<RoomVersion>>,
    /// Whether each section has a header.
    pub has_headers: bool,
    /// The position of the selected row in all the sections, or `u32::MAX` for none.
    pub selected: u32,
}

/// What the dialog shows.
#[derive(Debug)]
pub struct DialogContent {
    /// The list of room versions.
    pub versions: VersionCombo,
    /// Whether to warn that the members of an invite-only room will need an invitation.
    pub invite_only_warning: bool,
    /// The warning about the creators that will lose their privileges, if any.
    pub creators_warning: Option<Message>,
}

/// The identifier and the stability of some rows.
pub open spec fn row_texts(rows: Seq<RoomVersion>) -> Seq<(Seq<char>, bool)> {
    rows.map_values(|row: RoomVersion| (row.id@, row.is_stable))
}

/// The identifiers of a list, all with the same stability.
pub open spec fn versions_with(ids: Seq<Seq<char>>, is_stable: bool) -> Seq<(Seq<char>, bool)> {
    ids.map_values(|id: Seq<char>| (id, is_stable))
}

/// The sections of a list of room versions.
pub open spec fn section_texts(sections: Seq<Vec<RoomVersion>>) -> Seq<Seq<(Seq<char>, bool)>> {
    sections.map_values(|rows: Vec<RoomVersion>| row_texts(rows@))
}

/// The sections that are shown for the given information.
pub open spec fn expected_sections(info: UpgradeInfo) -> Seq<Seq<(Seq<char>, bool)>> {
    let stable = versions_with(texts(info.stable_room_versions@), true);
    let unstable = versions_with(texts(info.unstable_room_versions@), false);
    if unstable.len() == 0 {
        seq![stable]
    } else if stable.len() == 0 {
        seq![unstable]
    } else {
        seq![stable, unstable]
    }
}

/// The warning about the creators that will lose their privileges.
pub open spec fn expected_creators_warning(info: UpgradeInfo) -> Option<Message> {
    if info.other_creators_count == 0 {
        None
    } else if info.own_user_is_creator {
        if info.other_creators_count == 1 {
            Some(Message::OtherCreatorDemoted)
        } else {
            Some(Message::OtherCreatorsDemoted)
        }
    } else if info.other_creators_count == 1 {
        Some(Message::CurrentCreatorDemoted)
    } else {
        Some(Message::CurrentCreatorsDemoted)
    }
}

/// The title of the section of a room version.
pub open spec fn section_title(version: RoomVersion) -> Message {
    if version.is_stable {
        Message::Stable
    } else {
        Message::Experimental
    }
}

impl VersionCombo {
    /// Whether this list shows the given information.
    pub open spec fn shows(self, info: UpgradeInfo) -> bool {
        &&& section_texts(self.sections@) == expected_sections(info)
        &&& self.has_headers == (info.unstable_room_versions@.len() > 0)
        &&& self.selected == if info.selected <= u32::MAX {
            info.selected as int
        } else {
            u32::MAX as int
        }
    }
}

impl DialogContent {
    /// Whether the dialog shows the given information.
    pub open spec fn shows(self, info: UpgradeInfo) -> bool {
        &&& self.versions.shows(info)
        &&& self.invite_only_warning == (info.join_rule is Invite)
        &&& self.creators_warning == expected_creators_warning(info)
    }
}

/// The rows for some room versions of the same stability.
fn rows(versions: &Vec<RoomVersionId>, is_stable: bool) -> (rows: Vec<RoomVersion>)
    ensures
        row_texts(rows@) == versions_with(texts(versions@), is_stable),
{
    let mut rows: Vec<RoomVersion> = Vec::new();
    let mut i: usize = 0;
    while i < versions.len()
        invariant
            i <= versions@.len(),
            rows@.len() == i,
            forall|j: int|
                0 <= j < i ==> (#[trigger] rows@[j]).id@ == versions@[j]@ && rows@[j].is_stable
                    == is_stable,
        decreases versions@.len() - i,
    {
        rows.push(RoomVersion { id: versions[i].clone(), is_stable });
        i += 1;
    }
    assert(row_texts(rows@) =~= versions_with(texts(versions@), is_stable));
    rows
}

/// Why the header of a section cannot be filled in.
#[derive(Debug, Clone, Copy, PartialEq, Eq, Structural)]
pub enum HeaderError {
    /// The item is not a list header.
    NotAListHeader,
    /// The header does not have a label.
    NoLabel,
    /// The header does not belong to a room version.
    NoRoomVersion,
}

/// What happens in the dialog.
pub enum DialogEvent {
    /// The user confirmed the upgrade to the selected version, if any.
    Upgrade(Option<Seq<char>>),
    /// The user cancelled the upgrade.
    Cancel,
    /// The dialog was closed.
    Closed,
}

/// The response that an event gives to the one who waits for it, if anyone does.
pub open spec fn event_response(listening: bool, event: DialogEvent) -> Option<Option<Seq<char>>> {
    if !listening {
        None
    } else {
        match event {
            DialogEvent::Upgrade(version) => Some(version),
            DialogEvent::Cancel => None,
            DialogEvent::Closed => Some(None),
        }
    }
}

/// The responses that a sequence of events gives.
pub open spec fn responses(listening: bool, events: Seq<DialogEvent>) -> Seq<Option<Seq<char>>>
    decreases events.len(),
{
    if events.len() == 0 {
        seq![]
    } else {
        match event_response(listening, events[0]) {
            Some(response) => seq![response] + responses(false, events.skip(1)),
            None => responses(listening, events.skip(1)),
        }
    }
}

/// The text of an optional response.
pub open spec fn response_text(response: Option<Option<RoomVersionId>>) -> Option<
    Option<Seq<char>>,
> {
    match response {
        Some(id) => Some(optional_text(id)),
        None => None,
    }
}

/// What is left to do after an event in the dialog.
#[derive(Debug)]
pub struct DialogStep {
    /// The response to give to the one who waits for it: the selected room version, or nothing if
    /// the user cancelled the upgrade.
    pub response: Option<Option<RoomVersionId>>,
    /// Whether to close the dialog.
    pub close: bool,
}

/// Dialog to confirm a room upgrade and select a room version.
#[derive(Debug)]
pub struct UpgradeDialog {
    listening: bool,
}

impl UpgradeDialog {
    /// Whether someone waits for the response of the user.
    pub closed spec fn is_listening(self) -> bool {
        self.listening
    }

    /// A dialog that was not shown yet.
    pub fn new() -> (dialog: Self)
        ensures
            !dialog.is_listening(),
    {
        UpgradeDialog { listening: false }
    }

    /// Ask the user to confirm the room upgrade and select a room version among the ones that are
    /// supported by the server.
    pub fn confirm_upgrade(&mut self, info: &UpgradeInfo) -> (content: DialogContent)
        requires
            info.listed().len() > 0,
        ensures
            content.shows(*info),
            final(self).is_listening(),
    {
        let versions = self.update_version_combo(info);
        let invite_only_warning = self.update_invite_only_warning(info);
        let creators_warning = self.update_creators_warning(info);
        self.listening = true;
        DialogContent { versions, invite_only_warning, creators_warning }
    }

    /// The room versions combo row for the given details.
    pub fn update_version_combo(&self, info: &UpgradeInfo) -> (combo: VersionCombo)
        requires
            info.listed().len() > 0,
        ensures
            combo.shows(*info),
    {
        // Construct the list models for the combo row.
        let mut sections: Vec<Vec<RoomVersion>> = Vec::new();
        if info.stable_room_versions.len() > 0 {
            sections.push(rows(&info.stable_room_versions, true));
        }
        let has_headers = info.unstable_room_versions.len() > 0;
        if has_headers {
            sections.push(rows(&info.unstable_room_versions, false));
        }
        assert(section_texts(sections@) =~= expected_sections(*info));
        let selected: u32 = if info.selected <= 0xffff_ffff {
            info.selected as u32
        } else {
            u32::MAX
        };
        VersionCombo { sections, has_headers, selected }
    }

    /// Whether the invite-only warning is visible.
    pub fn update_invite_only_warning(&self, info: &UpgradeInfo) -> (visible: bool)
        ensures
            visible == (info.join_rule is Invite),
    {
        info.join_rule == JoinRuleValue::Invite
    }

    /// The creators warning.
    pub fn update_creators_warning(&self, info: &UpgradeInfo) -> (warning: Option<Message>)
        ensures
            warning == expected_creators_warning(*info),
    {
        if info.other_creators_count == 0 {
            // We are not changing the list of privileged creators.
            return None;
        }

        // The count is not part of the texts, so singular and plural are separate messages.
        let warning = if info.own_user_is_creator {
            if info.other_creators_count == 1 {
                Message::OtherCreatorDemoted
            } else {
                Message::OtherCreatorsDemoted
            }
        } else if info.other_creators_count == 1 {
            Message::CurrentCreatorDemoted
        } else {
            Message::CurrentCreatorsDemoted
        };
        Some(warning)
    }

    /// The title of a section, given whether the item to bind is a list header, whether it has a
    /// label, and the room version it belongs to.
    pub fn bind_header(
        &self,
        is_list_header: bool,
        has_label: bool,
        version: Option<&RoomVersion>,
    ) -> (title: Result<Message, HeaderError>)
        ensures
            match title {
                Ok(title) => {
                    &&& is_list_header
                    &&& has_label
                    &&& version is Some
                    &&& title == section_title(*version->0)
                },
                Err(error) => match error {
                    HeaderError::NotAListHeader => !is_list_header,
                    HeaderError::NoLabel => is_list_header && !has_label,
                    HeaderError::NoRoomVersion => is_list_header && has_label && version is None,
                },
            },
    {
        if !is_list_header {
            return Err(HeaderError::NotAListHeader);
        }
        if !has_label {
            return Err(HeaderError::NoLabel);
        }
        match version {
            Some(version) => if version.is_stable {
                Ok(Message::Stable)
            } else {
                Ok(Message::Experimental)
            },
            None => Err(HeaderError::NoRoomVersion),
        }
    }

    /// Confirm the upgrade to the selected row, if any.
    pub fn upgrade(&mut self, selected: Option<RoomVersion>) -> (step: DialogStep)
        ensures
            response_text(step.response) == event_response(
                old(self).is_listening(),
                DialogEvent::Upgrade(
                    match selected {
                        Some(version) => Some(version.id@),
                        None => None,
                    },
                ),
            ),
            step.response is Some <==> old(self).is_listening(),
            step.response is Some ==> (step.response->0 is Some <==> selected is Some),
            step.response is Some && selected is Some ==> step.response->0->0@
                == selected->0.id@,
            step.close,
            !final(self).is_listening(),
    {
        let room_version = match selected {
            Some(version) => Some(version.id),
            None => None,
        };
        let response = self.respond(room_version);
        DialogStep { response, close: true }
    }

    /// Cancel the upgrade.
    pub fn cancel(&self) -> (step: DialogStep)
        ensures
            response_text(step.response) == event_response(
                self.is_listening(),
                DialogEvent::Cancel,
            ),
            step.response is None,
            step.close,
    {
        DialogStep { response: None, close: true }
    }

    /// The dialog was closed.
    pub fn closed(&mut self) -> (step: DialogStep)
        ensures
            response_text(step.response) == event_response(
                old(self).is_listening(),
                DialogEvent::Closed,
            ),
            step.response is Some <==> old(self).is_listening(),
            step.response is Some ==> step.response->0 is None,
            !step.close,
            !final(self).is_listening(),
    {
        let response = self.respond(None);
        DialogStep { response, close: false }
    }

    /// Give a response, unless nobody waits for it.
    fn respond(&mut self, value: Option<RoomVersionId>) -> (response: Option<
        Option<RoomVersionId>,
    >)
        ensures
            response == if old(self).is_listening() {
                Some(value)
            } else {
                None
            },
            !final(self).is_listening(),
    {
        if self.listening {
            self.listening = false;
            Some(value)
        } else {
            None
        }
    }
}

/// The rows of all the sections are the listed versions, in order, so that the selected position
/// counts the same in both.
pub proof fn rows_are_the_listed_versions(info: UpgradeInfo)
    ensures
        expected_sections(info).flatten() == versions_with(texts(info.stable_room_versions@), true)
            + versions_with(texts(info.unstable_room_versions@), false),
        expected_sections(info).flatten().map_values(|row: (Seq<char>, bool)| row.0)
            == info.listed(),
{
    let stable = versions_with(texts(info.stable_room_versions@), true);
    let unstable = versions_with(texts(info.unstable_room_versions@), false);
    let sections = expected_sections(info);
    reveal_with_fuel(Seq::flatten, 3);
    assert(sections.flatten() =~= stable + unstable);
    assert(sections.flatten().map_values(|row: (Seq<char>, bool)| row.0) =~= info.listed());
}

/// Whether an event decides the response.
pub open spec fn decides(event: DialogEvent) -> bool {
    !(event is Cancel)
}

/// The user's answer is given exactly once: by the first event that decides it.
pub proof fn first_decision_is_the_response(events: Seq<DialogEvent>, first: int)
    requires
        0 <= first < events.len(),
        decides(events[first]),
        forall|i: int| 0 <= i < first ==> !decides(#[trigger] events[i]),
    ensures
        responses(true, events) == seq![event_response(true, events[first])->0],
    decreases events.len(),
{
    if first == 0 {
        nobody_listens_no_response(events.skip(1));
    } else {
        assert(!decides(events[0]));
        let rest = events.skip(1);
        assert(rest[first - 1] == events[first]);
        assert forall|i: int| 0 <= i < first - 1 implies !decides(#[trigger] rest[i]) by {
            assert(rest[i] == events[i + 1]);
        }
        first_decision_is_the_response(rest, first - 1);
    }
}

/// Without anyone who waits for it, no response is given.
pub proof fn nobody_listens_no_response(events: Seq<DialogEvent>)
    ensures
        responses(false, events) == Seq::<Option<Seq<char>>>::empty(),
    decreases events.len(),
{
    if events.len() > 0 {
        nobody_listens_no_response(events.skip(1));
    }
}

/// Confirming the upgrade, which also closes the dialog, responds with the selected room version,
/// whatever happens later.
pub proof fn upgrade_responds_with_selection(version: Option<Seq<char>>, later: Seq<DialogEvent>)
    ensures
        responses(true, seq![DialogEvent::Upgrade(version), DialogEvent::Closed] + later) == seq![
            version,
        ],
{
    let events = seq![DialogEvent::Upgrade(version), DialogEvent::Closed] + later;
    assert(events[0] == DialogEvent::Upgrade(version));
    first_decision_is_the_response(events, 0);
}

/// Cancelling the upgrade, which closes the dialog, responds with no room version, whatever happens
/// later.
pub proof fn cancel_responds_with_nothing(later: Seq<DialogEvent>)
    ensures
        responses(true, seq![DialogEvent::Cancel, DialogEvent::Closed] + later) == seq![
            None::<Seq<char>>,
        ],
{
    let events = seq![DialogEvent::Cancel, DialogEvent::Closed] + later;
    assert(events[0] is Cancel);
    assert(events[1] is Closed);
    first_decision_is_the_response(events, 1);
}

/// An event gives a response exactly if someone waits for it and the event decides: the selected
/// room version when the upgrade is confirmed, and none when the dialog is closed.
pub proof fn events_respond_as_decided(listening: bool, event: DialogEvent)
    ensures
        event_response(listening, event) is Some <==> listening && !(event is Cancel),
        listening && event is Upgrade ==> event_response(listening, event)->0 == event->Upgrade_0,
        listening && event is Closed ==> event_response(listening, event)->0 is None,
{
}

/// There is no creators warning exactly if there are no other creators. With one other creator it is
/// about one creator, and with more it is about several; and it speaks of other creators exactly if
/// our own user is a creator.
pub proof fn creators_are_warned_of(info: UpgradeInfo, warning: Option<Message>)
    requires
        warning == expected_creators_warning(info),
    ensures
        warning is None <==> info.other_creators_count == 0,
        warning is Some ==> {
            &&& warning->0 is OtherCreatorDemoted || warning->0 is CurrentCreatorDemoted
                <==> info.other_creators_count == 1
            &&& warning->0 is OtherCreatorsDemoted || warning->0 is CurrentCreatorsDemoted
                <==> info.other_creators_count > 1
            &&& warning->0 is OtherCreatorDemoted || warning->0 is OtherCreatorsDemoted
                <==> info.own_user_is_creator
            &&& warning->0 is CurrentCreatorDemoted || warning->0 is CurrentCreatorsDemoted
                <==> !info.own_user_is_creator
        },
{
}

/// The title of a section tells stable versions from experimental ones.
pub proof fn titles_tell_the_stability(version: RoomVersion)
    ensures
        section_title(version) is Stable <==> version.is_stable,
        section_title(version) is Experimental <==> !version.is_stable,
{
}

/// The list has one section for the stable versions and one for the unstable ones, in this order and
/// without an empty one. Each section has one row for each version, in order. There are headers
/// exactly if there are unstable versions. The selected position is the one of the information, as
/// far as it fits.
pub proof fn list_shows_every_version(combo: VersionCombo, info: UpgradeInfo)
    requires
        combo.shows(info),
        info.stable_room_versions@.len() > 0 || info.unstable_room_versions@.len() > 0,
    ensures
        ({
            let stable = info.stable_room_versions@;
            let unstable = info.unstable_room_versions@;
            let first: int = if stable.len() > 0 {
                1
            } else {
                0
            };
            let second: int = if unstable.len() > 0 {
                1
            } else {
                0
            };
            &&& combo.sections@.len() == first + second
            &&& stable.len() > 0 ==> {
                &&& combo.sections@[0]@.len() == stable.len()
                &&& forall|i: int|
                    0 <= i < stable.len() ==> (#[trigger] combo.sections@[0]@[i]).id@ == stable[i]@
                        && combo.sections@[0]@[i].is_stable
            }
            &&& unstable.len() > 0 ==> {
                &&& combo.sections@[first]@.len() == unstable.len()
                &&& forall|i: int|
                    0 <= i < unstable.len() ==> (#[trigger] combo.sections@[first]@[i]).id@
                        == unstable[i]@ && !combo.sections@[first]@[i].is_stable
            }
            &&& combo.has_headers <==> unstable.len() > 0
            &&& info.selected <= 0xffff_ffff ==> combo.selected == info.selected
            &&& info.selected > 0xffff_ffff ==> combo.selected == 0xffff_ffff
        }),
{
    let stable = info.stable_room_versions@;
    let unstable = info.unstable_room_versions@;
    let first: int = if stable.len() > 0 {
        1
    } else {
        0
    };
    let sections = section_texts(combo.sections@);
    assert(sections.len() == combo.sections@.len());
    if stable.len() > 0 {
        lemma_rows(combo.sections@[0]@, stable, true, sections[0]);
    }
    if unstable.len() > 0 {
        lemma_rows(combo.sections@[first]@, unstable, false, sections[first]);
    }
}

/// The rows of one section.
proof fn lemma_rows(
    rows: Seq<RoomVersion>,
    versions: Seq<RoomVersionId>,
    is_stable: bool,
    section: Seq<(Seq<char>, bool)>,
)
    requires
        section == row_texts(rows),
        section == versions_with(texts(versions), is_stable),
    ensures
        rows.len() == versions.len(),
        forall|i: int|
            0 <= i < versions.len() ==> (#[trigger] rows[i]).id@ == versions[i]@
                && rows[i].is_stable == is_stable,
{
    assert(section.len() == rows.len());
    assert(section.len() == versions.len());
    assert forall|i: int| 0 <= i < versions.len() implies (#[trigger] rows[i]).id@ == versions[i]@
        && rows[i].is_stable == is_stable by {
        assert(section[i] == (rows[i].id@, rows[i].is_stable));
        assert(section[i] == (versions[i]@, is_stable));
    }
}

/// What the dialog shows besides the list: the invite-only warning exactly for rooms that need an
/// invitation, and the creators warning exactly if there are other creators.
pub proof fn dialog_shows_every_warning(content: DialogContent, info: UpgradeInfo)
    requires
        content.shows(info),
    ensures
        content.versions.shows(info),
        content.invite_only_warning <==> info.join_rule is Invite,
        content.creators_warning == expected_creators_warning(info),
        content.creators_warning is Some <==> info.other_creators_count > 0,
{
}

} // verus!
