//! What the user is offered when they upgrade a room.

use vstd::prelude::*;

use super::versions::{texts_ascend, RoomVersionId, RoomVersionsCapability};
use crate::numeric::{compare, lemma_ties_keep_order, sort};
use crate::numeric::{numeric_rank, numeric_rank_reflexive, numeric_rank_reverses};
use crate::numeric::{numeric_rank_transitive, numerically_sorted};
use crate::text::{lemma_reordered, lemma_text_reverse, lemma_text_same, text_rank, texts, Rank};
use crate::text::position;

verus! {

/// The identifier of a user.
pub type OwnedUserId = String;

/// The rule that decides who can join a room.
#[derive(Debug, Clone, Copy, PartialEq, Eq, Structural)]
pub enum JoinRuleValue {
    /// Only invited users can join.
    Invite,
    /// Any other rule.
    Other,
}

/// The information necessary to confirm a room upgrade.
#[derive(Debug, Clone)]
pub struct UpgradeInfo {
    /// The sorted stable room versions available for the upgrade.
    pub stable_room_versions: Vec<RoomVersionId>,
    /// The sorted unstable room versions available for the upgrade.
    pub unstable_room_versions: Vec<RoomVersionId>,
    /// The position of the room version that should be selected by default, when
    /// `stable_room_versions` and `unstable_room_versions` are concatenated.
    pub selected: usize,
    /// Whether our own user is a privileged creator in the current room.
    pub own_user_is_creator: bool,
    /// The number of privileged creators that are not our own user in the current room.
    pub other_creators_count: usize,
    /// The current join rule of the room.
    pub join_rule: JoinRuleValue,
}

/// The lowest stable version that may be chosen: the higher one of the current version and the
/// default version, of those that are stable.
///
/// Where both have the same rank, it is the current version.
pub open spec fn minimum_stable(
    current: Seq<char>,
    capability: RoomVersionsCapability,
) -> Option<Seq<char>> {
    let default = capability.default_version();
    match (capability.is_stable(current), capability.is_stable(default)) {
        (true, false) => Some(current),
        (false, true) => Some(default),
        (true, true) => if numeric_rank(current, default) is Lower {
            Some(default)
        } else {
            Some(current)
        },
        (false, false) => None,
    }
}

/// Whether a stable version is offered: it is not lower than the minimum and not lower than the
/// current version, or, without a minimum, it is the highest stable version.
pub open spec fn offers_stable(
    current: Seq<char>,
    capability: RoomVersionsCapability,
    version: Seq<char>,
) -> bool {
    match minimum_stable(current, capability) {
        Some(minimum) => {
            &&& capability.is_stable(version)
            &&& !(numeric_rank(version, minimum) is Lower)
            &&& !(numeric_rank(version, current) is Lower)
        },
        None => capability.is_maximum_stable(version),
    }
}

/// Whether a version is offered although it is not stable: it is the current version, or the
/// default version if that is not lower than the current one.
pub open spec fn offers_unstable(
    current: Seq<char>,
    capability: RoomVersionsCapability,
    version: Seq<char>,
) -> bool {
    &&& !capability.is_stable(version)
    &&& {
        ||| version == current
        ||| version == capability.default_version() && !(numeric_rank(version, current) is Lower)
    }
}

/// The version that should be selected by default: the minimum stable version, or, without one,
/// the default version; but the current version in place of a lower one.
pub open spec fn preselected(current: Seq<char>, capability: RoomVersionsCapability) -> Seq<char> {
    let recommended = match minimum_stable(current, capability) {
        Some(minimum) => minimum,
        None => capability.default_version(),
    };
    if numeric_rank(recommended, current) is Lower {
        current
    } else {
        recommended
    }
}

/// Whether each version of a list is related to the later ones of the same rank.
pub open spec fn ties_are(
    list: Seq<Seq<char>>,
    related: spec_fn(Seq<char>, Seq<char>) -> bool,
) -> bool {
    forall|i: int, j: int|
        0 <= i < j < list.len() && numeric_rank(#[trigger] list[i], #[trigger] list[j]) is Same
            ==> related(list[i], list[j])
}

/// The order of texts by code points.
pub open spec fn by_code_points() -> spec_fn(Seq<char>, Seq<char>) -> bool {
    |a: Seq<char>, b: Seq<char>| text_rank(a, b) is Lower
}

/// The order in which `version` comes before every other one.
pub open spec fn first_is(version: Seq<char>) -> spec_fn(Seq<char>, Seq<char>) -> bool {
    |a: Seq<char>, b: Seq<char>| a == version
}

/// The creators that are not our own user.
pub open spec fn other_creators(creators: Seq<Seq<char>>, own: Seq<char>) -> Seq<Seq<char>> {
    creators.filter(|creator: Seq<char>| creator != own)
}

impl UpgradeInfo {
    /// The stable and the unstable versions, in the order in which they are listed.
    pub open spec fn listed(self) -> Seq<Seq<char>> {
        texts(self.stable_room_versions@) + texts(self.unstable_room_versions@)
    }

    /// Whether the lists are in order and hold each version that is offered exactly once.
    ///
    /// Of several versions of the same rank, the stable ones ascend by code points, and of the
    /// unstable ones the current version comes first.
    pub open spec fn lists_offers(
        self,
        current: Seq<char>,
        capability: RoomVersionsCapability,
    ) -> bool {
        let stable = texts(self.stable_room_versions@);
        let unstable = texts(self.unstable_room_versions@);
        &&& stable.no_duplicates()
        &&& numerically_sorted(stable)
        &&& ties_are(stable, by_code_points())
        &&& forall|version: Seq<char>| #[trigger]
            stable.contains(version) <==> offers_stable(current, capability, version)
        &&& unstable.no_duplicates()
        &&& numerically_sorted(unstable)
        &&& ties_are(unstable, first_is(current))
        &&& forall|version: Seq<char>| #[trigger]
            unstable.contains(version) <==> offers_unstable(current, capability, version)
    }

    /// Whether the selected position holds `version`.
    pub open spec fn selects(self, version: Seq<char>) -> bool {
        &&& self.selected < self.listed().len()
        &&& self.listed()[self.selected as int] == version
    }

    /// Whether this is `before` with the room versions for the upgrade.
    pub open spec fn adds_room_versions(
        self,
        before: UpgradeInfo,
        current: Seq<char>,
        capability: RoomVersionsCapability,
    ) -> bool {
        &&& self.lists_offers(current, capability)
        &&& self.selects(preselected(current, capability))
        &&& self.own_user_is_creator == before.own_user_is_creator
        &&& self.other_creators_count == before.other_creators_count
        &&& self.join_rule == before.join_rule
    }

    /// Whether this is `before` with the changes to the privileged creators.
    pub open spec fn adds_creators(
        self,
        before: UpgradeInfo,
        own: Seq<char>,
        creators: Seq<Seq<char>>,
    ) -> bool {
        &&& self.own_user_is_creator == creators.contains(own)
        &&& self.other_creators_count == other_creators(creators, own).len()
        &&& self.stable_room_versions == before.stable_room_versions
        &&& self.unstable_room_versions == before.unstable_room_versions
        &&& self.selected == before.selected
        &&& self.join_rule == before.join_rule
    }

    /// Whether the same versions are listed, in the same order, and the same one is selected.
    pub open spec fn same_versions(self, other: UpgradeInfo) -> bool {
        &&& texts(self.stable_room_versions@) == texts(other.stable_room_versions@)
        &&& texts(self.unstable_room_versions@) == texts(other.unstable_room_versions@)
        &&& self.selected == other.selected
    }

    /// Construct an empty `UpgradeInfo`.
    pub fn new(join_rule: JoinRuleValue) -> (info: Self)
        ensures
            info.listed() == Seq::<Seq<char>>::empty(),
            info.stable_room_versions@.len() == 0,
            info.unstable_room_versions@.len() == 0,
            info.selected == 0,
            !info.own_user_is_creator,
            info.other_creators_count == 0,
            info.join_rule == join_rule,
    {
        let info = UpgradeInfo {
            stable_room_versions: Vec::new(),
            unstable_room_versions: Vec::new(),
            selected: 0,
            own_user_is_creator: false,
            other_creators_count: 0,
            join_rule,
        };
        assert(info.listed() =~= Seq::<Seq<char>>::empty());
        info
    }

    /// Add information about the possible room versions for the upgrade.
    ///
    /// We do not allow users to:
    ///
    /// - Downgrade the room, i.e. use a lower room version.
    /// - Upgrade to a version lower than the server's default, if the server's default is stable.
    /// - Upgrade to an experimental version, unless it is the current version or the server's
    ///   default.
    ///
    /// If the server's default is experimental, we also allow to upgrade to the highest stable
    /// version.
    pub fn with_room_versions(
        self,
        current_room_version: &RoomVersionId,
        capability: &RoomVersionsCapability,
    ) -> (info: Self)
        ensures
            info.adds_room_versions(self, current_room_version@, *capability),
    {
        let ghost current = current_room_version@;
        let current_is_stable = capability.is_stable_version(current_room_version);
        let default_is_stable = capability.is_stable_version(capability.default());

        // The minimum stable version is the highest stable version between the current version
        // and the default version.
        let minimum_stable_version: Option<&RoomVersionId> = match (
            current_is_stable,
            default_is_stable,
        ) {
            (true, false) => Some(current_room_version),
            (false, true) => Some(capability.default()),
            (true, true) => match compare(
                current_room_version.as_str(),
                capability.default().as_str(),
            ) {
                Rank::Lower => Some(capability.default()),
                Rank::Same => Some(current_room_version),
                Rank::Higher => Some(current_room_version),
            },
            (false, false) => None,
        };
        let recommended_room_version: &RoomVersionId = match minimum_stable_version {
            Some(minimum) => minimum,
            None => capability.default(),
        };
        // Do not suggest a downgrade.
        let selected_room_version: &RoomVersionId = if compare(
            recommended_room_version.as_str(),
            current_room_version.as_str(),
        ) == Rank::Lower {
            current_room_version
        } else {
            recommended_room_version
        };

        let mut stable_room_versions: Vec<RoomVersionId> = match minimum_stable_version {
            // Keep all the stable versions higher than the minimum that are no downgrade.
            Some(minimum) => capability.stable_versions_from(minimum, current_room_version),
            // The only allowed stable version will be the maximum.
            None => match capability.maximum_stable_version() {
                Some(maximum) => {
                    let versions = vec![maximum.clone()];
                    proof {
                        lemma_only_maximum(*capability, maximum@, texts(versions@));
                    }
                    versions
                },
                None => Vec::new(),
            },
        };

        // Add the current and default room versions if they are unstable, and the default one is
        // no downgrade.
        let current_is_default = *current_room_version == *capability.default();
        let default_is_lower = compare(
            capability.default().as_str(),
            current_room_version.as_str(),
        ) == Rank::Lower;
        let mut unstable_room_versions: Vec<RoomVersionId> = Vec::new();
        if !current_is_stable {
            unstable_room_versions.push(current_room_version.clone());
        }
        if !current_is_default && !default_is_stable && !default_is_lower {
            unstable_room_versions.push(capability.default().clone());
        }
        let ghost stable = texts(stable_room_versions@);
        let ghost unstable = texts(unstable_room_versions@);
        proof {
            lemma_ascending_texts_differ(stable);
            lemma_unstable_offers(current, *capability, unstable);
        }

        // Sort all the versions.
        sort(&mut stable_room_versions);
        sort(&mut unstable_room_versions);

        proof {
            lemma_reordered(stable, texts(stable_room_versions@));
            lemma_reordered(unstable, texts(unstable_room_versions@));
            lemma_ties_keep_order(stable, texts(stable_room_versions@), by_code_points());
            lemma_ties_keep_order(unstable, texts(unstable_room_versions@), first_is(current));
            lemma_preselected_is_offered(current, *capability);
        }

        // Find the position of the selected version.
        let selected: usize = match position(&stable_room_versions, selected_room_version) {
            Some(position) => position,
            None => match position(&unstable_room_versions, selected_room_version) {
                Some(position) => stable_room_versions.len() + position,
                None => 0,
            },
        };

        UpgradeInfo { stable_room_versions, unstable_room_versions, selected, ..self }
    }

    /// Add information about the privileged creators changes.
    pub fn with_privileged_creators(
        self,
        own_creator: &OwnedUserId,
        privileged_creators: &[OwnedUserId],
    ) -> (info: Self)
        ensures
            info.adds_creators(self, own_creator@, texts(privileged_creators@)),
    {
        let ghost creators = texts(privileged_creators@);
        let mut own_user_is_creator = false;
        let mut other_creators_count: usize = 0;
        let mut i: usize = 0;
        assert(other_creators(creators.take(0), own_creator@).len() == 0) by {
            reveal(Seq::filter);
        }
        while i < privileged_creators.len()
            invariant
                i <= privileged_creators@.len(),
                creators == texts(privileged_creators@),
                own_user_is_creator == creators.take(i as int).contains(own_creator@),
                other_creators_count == other_creators(
                    creators.take(i as int),
                    own_creator@,
                ).len(),
                other_creators_count <= i,
            decreases privileged_creators@.len() - i,
        {
            let is_own = privileged_creators[i] == *own_creator;
            proof {
                let seen = creators.take(i as int);
                let creator = creators[i as int];
                assert(creators.take(i + 1) =~= seen.push(creator));
                lemma_one_more_creator(seen, creator, own_creator@);
            }
            if is_own {
                own_user_is_creator = true;
            } else {
                other_creators_count += 1;
            }
            i += 1;
        }
        assert(creators.take(i as int) =~= creators);
        UpgradeInfo { own_user_is_creator, other_creators_count, ..self }
    }
}

/// There is always a room version to choose from.
pub proof fn some_version_is_listed(
    info: UpgradeInfo,
    current: Seq<char>,
    capability: RoomVersionsCapability,
)
    requires
        info.lists_offers(current, capability),
    ensures
        info.listed().len() > 0,
{
    let version = preselected(current, capability);
    lemma_preselected_is_offered(current, capability);
    assert(texts(info.stable_room_versions@).contains(version) || texts(
        info.unstable_room_versions@,
    ).contains(version));
}

/// No version lower than the current one can be chosen. Only if both the current version and the
/// server's default are experimental, the highest stable version can, whatever its rank.
pub proof fn no_downgrade(
    info: UpgradeInfo,
    current: Seq<char>,
    capability: RoomVersionsCapability,
    version: Seq<char>,
)
    requires
        info.lists_offers(current, capability),
        info.listed().contains(version),
    ensures
        !(numeric_rank(version, current) is Lower) || {
            &&& !capability.is_stable(current)
            &&& !capability.is_stable(capability.default_version())
            &&& capability.is_maximum_stable(version)
        },
{
    lemma_listed(info, version);
    numeric_rank_reflexive(current);
    if texts(info.stable_room_versions@).contains(version) {
        assert(offers_stable(current, capability, version));
    } else {
        assert(texts(info.unstable_room_versions@).contains(version));
    }
}

/// If the server's default is stable, no other stable version lower than it can be chosen, and no
/// experimental version but the current one.
pub proof fn stable_default_is_a_lower_bound(
    info: UpgradeInfo,
    current: Seq<char>,
    capability: RoomVersionsCapability,
)
    requires
        info.lists_offers(current, capability),
        capability.is_stable(capability.default_version()),
    ensures
        forall|version: Seq<char>| #[trigger]
            info.listed().contains(version) ==> version == current && !capability.is_stable(current)
                || !(numeric_rank(version, capability.default_version()) is Lower),
{
    let stable = texts(info.stable_room_versions@);
    let unstable = texts(info.unstable_room_versions@);
    let default = capability.default_version();
    let minimum = minimum_stable(current, capability)->0;
    assert forall|version: Seq<char>| #[trigger] info.listed().contains(version) implies version
        == current && !capability.is_stable(current) || !(numeric_rank(version, default) is Lower) by {
        lemma_listed(info, version);
        if stable.contains(version) {
            numeric_rank_reflexive(default);
            numeric_rank_reverses(minimum, default);
            numeric_rank_reverses(version, minimum);
            numeric_rank_reverses(version, default);
            numeric_rank_transitive(default, minimum, version);
        } else {
            assert(unstable.contains(version));
        }
    }
}

/// An experimental version can only be chosen if it is the current version or the server's default.
pub proof fn experimental_versions_are_current_or_default(
    info: UpgradeInfo,
    current: Seq<char>,
    capability: RoomVersionsCapability,
)
    requires
        info.lists_offers(current, capability),
    ensures
        forall|version: Seq<char>| #[trigger]
            info.listed().contains(version) && !capability.is_stable(version) ==> version == current
                || version == capability.default_version(),
{
    let unstable = texts(info.unstable_room_versions@);
    assert forall|version: Seq<char>| #[trigger] info.listed().contains(version)
        && !capability.is_stable(version) implies version == current || version
        == capability.default_version() by {
        lemma_listed(info, version);
        assert(texts(info.stable_room_versions@).contains(version) || unstable.contains(version));
    }
}

/// The highest stable version can be chosen if the server's default is experimental, and otherwise
/// exactly if it is not lower than the current version.
pub proof fn highest_stable_version_is_listed(
    info: UpgradeInfo,
    current: Seq<char>,
    capability: RoomVersionsCapability,
    version: Seq<char>,
)
    requires
        info.lists_offers(current, capability),
        capability.is_maximum_stable(version),
    ensures
        info.listed().contains(version) <==> !capability.is_stable(capability.default_version())
            || !(numeric_rank(version, current) is Lower),
{
    if let Some(minimum) = minimum_stable(current, capability) {
        assert(capability.is_stable(minimum));
        numeric_rank_reverses(minimum, version);
    }
    assert(texts(info.stable_room_versions@).contains(version) <==> offers_stable(
        current,
        capability,
        version,
    ));
    assert(!texts(info.unstable_room_versions@).contains(version));
    lemma_listed(info, version);
}

/// The current version can be chosen, unless it is stable and lower than a stable default.
pub proof fn current_version_is_listed(
    info: UpgradeInfo,
    current: Seq<char>,
    capability: RoomVersionsCapability,
)
    requires
        info.lists_offers(current, capability),
    ensures
        info.listed().contains(current) <==> !(capability.is_stable(current)
            && capability.is_stable(capability.default_version()) && numeric_rank(
            current,
            capability.default_version(),
        ) is Lower),
{
    numeric_rank_reflexive(current);
    assert(texts(info.stable_room_versions@).contains(current) <==> offers_stable(
        current,
        capability,
        current,
    ));
    assert(texts(info.unstable_room_versions@).contains(current) <==> offers_unstable(
        current,
        capability,
        current,
    ));
    lemma_listed(info, current);
}

/// A version is listed if it is in one of the two lists.
proof fn lemma_listed(info: UpgradeInfo, version: Seq<char>)
    ensures
        info.listed().contains(version) <==> texts(info.stable_room_versions@).contains(version)
            || texts(info.unstable_room_versions@).contains(version),
{
    let stable = texts(info.stable_room_versions@);
    let unstable = texts(info.unstable_room_versions@);
    if stable.contains(version) {
        assert(info.listed()[stable.index_of(version)] == version);
    }
    if unstable.contains(version) {
        assert(info.listed()[stable.len() + unstable.index_of(version)] == version);
    }
    if info.listed().contains(version) {
        let i = info.listed().index_of(version);
        if i < stable.len() {
            assert(stable[i] == version);
        } else {
            assert(unstable[i - stable.len()] == version);
        }
    }
}

/// There is only one highest stable version.
pub proof fn lemma_maximum_unique(capability: RoomVersionsCapability, a: Seq<char>, b: Seq<char>)
    requires
        capability.is_maximum_stable(a),
        capability.is_maximum_stable(b),
    ensures
        a == b,
{
    numeric_rank_reverses(a, b);
    lemma_text_reverse(a, b);
    lemma_text_same(a, b);
    assert(capability.is_stable(a) && capability.is_stable(b));
}

/// The highest stable version is the only one in a list of just that version.
proof fn lemma_only_maximum(
    capability: RoomVersionsCapability,
    maximum: Seq<char>,
    list: Seq<Seq<char>>,
)
    requires
        capability.is_maximum_stable(maximum),
        list =~= seq![maximum],
    ensures
        texts_ascend(list),
        forall|version: Seq<char>| #[trigger]
            list.contains(version) <==> capability.is_maximum_stable(version),
{
    assert(list[0] == maximum);
    assert forall|version: Seq<char>| capability.is_maximum_stable(version) implies #[trigger]
    list.contains(version) by {
        lemma_maximum_unique(capability, version, maximum);
    }
}

/// Texts that strictly ascend are all different.
proof fn lemma_ascending_texts_differ(list: Seq<Seq<char>>)
    requires
        texts_ascend(list),
    ensures
        list.no_duplicates(),
{
    assert forall|i: int, j: int| 0 <= i < j < list.len() implies list[i] != list[j] by {
        lemma_text_same(list[i], list[j]);
    }
}

/// The list of unstable versions before it is sorted.
proof fn lemma_unstable_offers(
    current: Seq<char>,
    capability: RoomVersionsCapability,
    unstable: Seq<Seq<char>>,
)
    requires
        ({
            let default = capability.default_version();
            let first = if capability.is_stable(current) {
                Seq::<Seq<char>>::empty()
            } else {
                seq![current]
            };
            unstable =~= if current == default || capability.is_stable(default) || numeric_rank(
                default,
                current,
            ) is Lower {
                first
            } else {
                first.push(default)
            }
        }),
    ensures
        unstable.no_duplicates(),
        unstable.len() <= 2,
        unstable.len() == 2 ==> unstable[0] == current,
        forall|version: Seq<char>| #[trigger]
            unstable.contains(version) <==> offers_unstable(current, capability, version),
{
    assert forall|version: Seq<char>| offers_unstable(current, capability, version) implies #[trigger]
    unstable.contains(version) by {
        if version == current {
            assert(unstable[0] == version);
        } else {
            assert(unstable[unstable.len() - 1] == version);
        }
    }
}

/// The version that should be selected is offered.
proof fn lemma_preselected_is_offered(current: Seq<char>, capability: RoomVersionsCapability)
    ensures
        ({
            let version = preselected(current, capability);
            ||| offers_stable(current, capability, version)
            ||| offers_unstable(current, capability, version)
        }),
{
    numeric_rank_reflexive(current);
    numeric_rank_reverses(current, capability.default_version());
    numeric_rank_reflexive(preselected(current, capability));
}

/// What one more creator adds.
pub(crate) proof fn lemma_one_more_creator(creators: Seq<Seq<char>>, creator: Seq<char>, own: Seq<char>)
    ensures
        creators.push(creator).contains(own) <==> creators.contains(own) || creator == own,
        other_creators(creators.push(creator), own).len() == other_creators(creators, own).len()
            + if creator == own {
            0int
        } else {
            1int
        },
{
    let more = creators.push(creator);
    assert(more.drop_last() =~= creators);
    assert(more[creators.len() as int] == creator);
    if creators.contains(own) {
        assert(more[creators.index_of(own)] == own);
    }
    reveal(Seq::filter);
}

} // verus!
