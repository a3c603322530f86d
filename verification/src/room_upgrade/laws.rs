//! What holds of the information for a room upgrade as a whole: it depends on nothing but what was
//! added to it, and not on the order.

use vstd::prelude::*;

use super::info::{by_code_points, first_is, offers_stable, offers_unstable, preselected, ties_are};
use super::info::{lemma_maximum_unique, lemma_one_more_creator, UpgradeInfo};
use super::versions::{highest_stable_version_is_highest, RoomVersionStability};
use super::versions::RoomVersionsCapability;
use crate::numeric::{numeric_rank, numeric_rank_reflexive, numeric_rank_reverses};
use crate::numeric::{numeric_rank_transitive, numerically_sorted};
use crate::text::{lemma_text_reverse, text_rank, texts};

verus! {

/// The room versions replace the ones that were added before: they depend on the current version
/// and on the capability only. The rest is kept.
pub proof fn room_versions_replace_earlier_ones(
    a: UpgradeInfo,
    b: UpgradeInfo,
    current: Seq<char>,
    capability: RoomVersionsCapability,
    from_a: UpgradeInfo,
    from_b: UpgradeInfo,
)
    requires
        from_a.adds_room_versions(a, current, capability),
        from_b.adds_room_versions(b, current, capability),
    ensures
        from_a.same_versions(from_b),
        from_a.own_user_is_creator == a.own_user_is_creator,
        from_a.other_creators_count == a.other_creators_count,
        from_a.join_rule == a.join_rule,
{
    let stable = texts(from_a.stable_room_versions@);
    let unstable = texts(from_a.unstable_room_versions@);
    let other_stable = texts(from_b.stable_room_versions@);
    let other_unstable = texts(from_b.unstable_room_versions@);
    assert forall|s: Seq<char>| #[trigger] stable.contains(s) <==> other_stable.contains(s) by {
        assert(offers_stable(current, capability, s) <==> other_stable.contains(s));
    }
    assert forall|s: Seq<char>| #[trigger] unstable.contains(s) <==> other_unstable.contains(s) by {
        assert(offers_unstable(current, capability, s) <==> other_unstable.contains(s));
    }
    assert forall|s: Seq<char>, t: Seq<char>|
        #[trigger] by_code_points()(s, t) && by_code_points()(t, s) implies s == t by {
        lemma_text_reverse(s, t);
    }
    lemma_sorted_list_is_unique(stable, other_stable, by_code_points());
    lemma_sorted_list_is_unique(unstable, other_unstable, first_is(current));

    // A version is either stable or not, so that it is listed only once.
    let i = from_a.selected as int;
    let j = from_b.selected as int;
    let n = stable.len();
    assert(from_a.listed()[i] == from_a.listed()[j]);
    if i < n {
        assert(stable.contains(stable[i]));
    } else {
        assert(unstable.contains(unstable[i - n]));
    }
    if j < n {
        assert(stable.contains(stable[j]));
    } else {
        assert(unstable.contains(unstable[j - n]));
    }
}

/// A version that is listed as experimental counts no more than one that is not listed: the result
/// is the same.
pub proof fn experimental_is_like_unlisted(
    info: UpgradeInfo,
    current: Seq<char>,
    version: Seq<char>,
    without: RoomVersionsCapability,
    with: RoomVersionsCapability,
    from_without: UpgradeInfo,
    from_with: UpgradeInfo,
)
    requires
        forall|s: RoomVersionStability| !#[trigger] without.lists(version, s),
        with.default_version() == without.default_version(),
        forall|other: Seq<char>, s: RoomVersionStability| #[trigger]
            with.lists(other, s) <==> if other == version {
                s is Unstable
            } else {
                without.lists(other, s)
            },
        from_without.adds_room_versions(info, current, without),
        from_with.adds_room_versions(info, current, with),
    ensures
        from_with.same_versions(from_without),
        from_with.own_user_is_creator == from_without.own_user_is_creator,
        from_with.other_creators_count == from_without.other_creators_count,
        from_with.join_rule == from_without.join_rule,
{
    lemma_same_stable_versions(without, with, current);
    assert(from_with.lists_offers(current, without)) by {
        let stable = texts(from_with.stable_room_versions@);
        let unstable = texts(from_with.unstable_room_versions@);
        assert forall|s: Seq<char>| #[trigger] stable.contains(s) <==> offers_stable(
            current,
            without,
            s,
        ) by {
            assert(stable.contains(s) <==> offers_stable(current, with, s));
        }
        assert forall|s: Seq<char>| #[trigger] unstable.contains(s) <==> offers_unstable(
            current,
            without,
            s,
        ) by {
            assert(unstable.contains(s) <==> offers_unstable(current, with, s));
        }
    }
    room_versions_replace_earlier_ones(info, info, current, without, from_with, from_without);
}

/// It does not matter whether the room versions or the privileged creators are added first.
pub proof fn order_of_additions_does_not_matter(
    info: UpgradeInfo,
    current: Seq<char>,
    capability: RoomVersionsCapability,
    own: Seq<char>,
    creators: Seq<Seq<char>>,
    with_versions: UpgradeInfo,
    versions_first: UpgradeInfo,
    with_creators: UpgradeInfo,
    creators_first: UpgradeInfo,
)
    requires
        with_versions.adds_room_versions(info, current, capability),
        versions_first.adds_creators(with_versions, own, creators),
        with_creators.adds_creators(info, own, creators),
        creators_first.adds_room_versions(with_creators, current, capability),
    ensures
        versions_first.same_versions(creators_first),
        versions_first.own_user_is_creator == creators_first.own_user_is_creator,
        versions_first.other_creators_count == creators_first.other_creators_count,
        versions_first.join_rule == creators_first.join_rule,
{
    room_versions_replace_earlier_ones(
        info,
        with_creators,
        current,
        capability,
        with_versions,
        creators_first,
    );
}

/// What is offered depends on the capability through its default and its stable versions only.
proof fn lemma_same_stable_versions(
    a: RoomVersionsCapability,
    b: RoomVersionsCapability,
    current: Seq<char>,
)
    requires
        a.default_version() == b.default_version(),
        forall|version: Seq<char>| #[trigger] a.is_stable(version) == b.is_stable(version),
    ensures
        forall|version: Seq<char>| #[trigger]
            offers_stable(current, a, version) == offers_stable(current, b, version),
        forall|version: Seq<char>| #[trigger]
            offers_unstable(current, a, version) == offers_unstable(current, b, version),
        forall|version: Seq<char>| #[trigger]
            offers_stable(current, b, version) == offers_stable(current, a, version),
        forall|version: Seq<char>| #[trigger]
            offers_unstable(current, b, version) == offers_unstable(current, a, version),
        preselected(current, a) == preselected(current, b),
{
    assert forall|version: Seq<char>| #[trigger]
        a.is_maximum_stable(version) == b.is_maximum_stable(version) by {
        assert(forall|other: Seq<char>| #[trigger] b.is_stable(other) == a.is_stable(other));
    }
}

/// There is only one way to sort a list if it is settled how texts of the same rank are ordered.
proof fn lemma_sorted_list_is_unique(
    a: Seq<Seq<char>>,
    b: Seq<Seq<char>>,
    related: spec_fn(Seq<char>, Seq<char>) -> bool,
)
    requires
        a.no_duplicates(),
        b.no_duplicates(),
        numerically_sorted(a),
        numerically_sorted(b),
        ties_are(a, related),
        ties_are(b, related),
        forall|s: Seq<char>, t: Seq<char>| #[trigger] related(s, t) && related(t, s) ==> s == t,
        forall|s: Seq<char>| #[trigger] a.contains(s) <==> b.contains(s),
    ensures
        a == b,
    decreases a.len(),
{
    if a.len() == 0 {
        if b.len() > 0 {
            assert(b.contains(b[0]));
            assert(a.contains(b[0]));
        }
        assert(a =~= b);
    } else {
        let top = a.last();
        assert(a.contains(top));
        assert(b.contains(top));
        let other = b.last();
        assert(b.contains(other));
        assert(a.contains(other));
        let i = a.index_of(other);
        let j = b.index_of(top);
        assert(!(numeric_rank(a[i], a[a.len() - 1]) is Higher));
        assert(!(numeric_rank(b[j], b[b.len() - 1]) is Higher));
        numeric_rank_reverses(top, other);
        if top != other {
            assert(related(a[i], a[a.len() - 1]));
            assert(related(b[j], b[b.len() - 1]));
        }
        let shorter = a.drop_last();
        let other_shorter = b.drop_last();
        assert forall|s: Seq<char>| #[trigger] shorter.contains(s) <==> other_shorter.contains(
            s,
        ) by {
            lemma_without_last(a, s);
            lemma_without_last(b, s);
            assert(a.contains(s) <==> b.contains(s));
        }
        lemma_shorter_is_sorted(a, related);
        lemma_shorter_is_sorted(b, related);
        lemma_sorted_list_is_unique(shorter, other_shorter, related);
        assert(a =~= shorter.push(top));
        assert(b =~= other_shorter.push(other));
    }
}

/// A sorted list stays sorted without its last element.
proof fn lemma_shorter_is_sorted(
    list: Seq<Seq<char>>,
    related: spec_fn(Seq<char>, Seq<char>) -> bool,
)
    requires
        list.len() > 0,
        numerically_sorted(list),
        ties_are(list, related),
    ensures
        numerically_sorted(list.drop_last()),
        ties_are(list.drop_last(), related),
{
    let shorter = list.drop_last();
    assert forall|i: int, j: int| 0 <= i <= j < shorter.len() implies !(#[trigger] numeric_rank(
        shorter[i],
        shorter[j],
    ) is Higher) by {
        assert(!(numeric_rank(list[i], list[j]) is Higher));
    }
    assert forall|i: int, j: int|
        0 <= i < j < shorter.len() && numeric_rank(
            #[trigger] shorter[i],
            #[trigger] shorter[j],
        ) is Same implies related(shorter[i], shorter[j]) by {
        assert(related(list[i], list[j]));
    }
}

/// What a list without duplicates holds without its last element.
proof fn lemma_without_last(list: Seq<Seq<char>>, s: Seq<char>)
    requires
        list.len() > 0,
        list.no_duplicates(),
    ensures
        list.drop_last().contains(s) <==> list.contains(s) && s != list.last(),
{
    if list.drop_last().contains(s) {
        let i = list.drop_last().index_of(s);
        assert(list[i] == s);
    }
    if list.contains(s) && s != list.last() {
        let i = list.index_of(s);
        assert(list.drop_last()[i] == s);
    }
}

/// If the current version or the server's default is stable, the stable versions to choose from are
/// all the ones that are lower than neither the current version nor a stable default.
pub proof fn every_stable_upgrade_is_listed(
    before: UpgradeInfo,
    info: UpgradeInfo,
    current: Seq<char>,
    capability: RoomVersionsCapability,
    version: Seq<char>,
)
    requires
        info.adds_room_versions(before, current, capability),
        capability.is_stable(current) || capability.is_stable(capability.default_version()),
    ensures
        texts(info.stable_room_versions@).contains(version) <==> {
            &&& capability.is_stable(version)
            &&& !(numeric_rank(version, current) is Lower)
            &&& capability.is_stable(capability.default_version()) ==> !(numeric_rank(
                version,
                capability.default_version(),
            ) is Lower)
        },
        capability.is_stable(version) && !(numeric_rank(version, current) is Lower) && (
        capability.is_stable(capability.default_version()) ==> !(numeric_rank(
            version,
            capability.default_version(),
        ) is Lower)) ==> info.listed().contains(version),
{
    let default = capability.default_version();
    let stable = texts(info.stable_room_versions@);
    assert(stable.contains(version) <==> offers_stable(current, capability, version));
    numeric_rank_reverses(current, default);
    numeric_rank_reverses(current, version);
    numeric_rank_reverses(default, version);
    if !(numeric_rank(current, default) is Higher) && !(numeric_rank(default, version) is Higher) {
        numeric_rank_transitive(current, default, version);
    }
    if !(numeric_rank(default, current) is Higher) && !(numeric_rank(current, version) is Higher) {
        numeric_rank_transitive(default, current, version);
    }
    if stable.contains(version) {
        let k = stable.index_of(version);
        assert(info.listed()[k] == version);
    }
}

/// If neither the current version nor the server's default is stable, there is one stable version to
/// choose from if the server has any: one that no other stable version of the server outranks.
pub proof fn only_the_highest_stable_version_is_listed(
    before: UpgradeInfo,
    info: UpgradeInfo,
    current: Seq<char>,
    capability: RoomVersionsCapability,
    version: Seq<char>,
)
    requires
        info.adds_room_versions(before, current, capability),
        !capability.is_stable(current),
        !capability.is_stable(capability.default_version()),
    ensures
        info.stable_room_versions@.len() <= 1,
        texts(info.stable_room_versions@).contains(version) ==> {
            &&& capability.is_stable(version)
            &&& forall|other: Seq<char>| #[trigger]
                capability.is_stable(other) ==> !(numeric_rank(version, other) is Lower)
            &&& forall|other: Seq<char>| #[trigger]
                capability.is_stable(other) && numeric_rank(version, other) is Same && other
                    != version ==> text_rank(version, other) is Lower
        },
        capability.is_maximum_stable(version) ==> info.stable_room_versions@.len() == 1
            && info.stable_room_versions@[0]@ == version,
{
    let stable = texts(info.stable_room_versions@);
    assert(stable.contains(version) <==> offers_stable(current, capability, version));
    if stable.len() > 1 {
        assert(stable.contains(stable[0]) && stable.contains(stable[1]));
        lemma_maximum_unique(capability, stable[0], stable[1]);
    }
    if stable.contains(version) {
        assert forall|other: Seq<char>| #[trigger] capability.is_stable(other) implies !(
        numeric_rank(version, other) is Lower) && (numeric_rank(version, other) is Same && other
            != version ==> text_rank(version, other) is Lower) by {
            highest_stable_version_is_highest(capability, version, other);
        }
        let k = stable.index_of(version);
        assert(info.stable_room_versions@[k]@ == version);
    }
}

/// The experimental versions to choose from are the current version, and the server's default if it
/// is not lower, as far as they are not stable.
pub proof fn every_experimental_upgrade_is_listed(
    before: UpgradeInfo,
    info: UpgradeInfo,
    current: Seq<char>,
    capability: RoomVersionsCapability,
    version: Seq<char>,
)
    requires
        info.adds_room_versions(before, current, capability),
    ensures
        texts(info.unstable_room_versions@).contains(version) ==> !capability.is_stable(version)
            && (version == current || version == capability.default_version()),
        !capability.is_stable(current) ==> texts(info.unstable_room_versions@).contains(current),
        !capability.is_stable(capability.default_version()) && capability.default_version()
            != current ==> (texts(info.unstable_room_versions@).contains(
            capability.default_version(),
        ) <==> !(numeric_rank(capability.default_version(), current) is Lower)),
{
    let default = capability.default_version();
    let unstable = texts(info.unstable_room_versions@);
    assert(unstable.contains(version) <==> offers_unstable(current, capability, version));
    assert(unstable.contains(current) <==> offers_unstable(current, capability, current));
    assert(unstable.contains(default) <==> offers_unstable(current, capability, default));
}

/// Each list ascends and holds no version twice. Of two versions of the same rank, the stable one
/// that is lower by code points comes first, and the experimental one that is the current version.
pub proof fn lists_ascend(
    before: UpgradeInfo,
    info: UpgradeInfo,
    current: Seq<char>,
    capability: RoomVersionsCapability,
    i: int,
    j: int,
)
    requires
        info.adds_room_versions(before, current, capability),
        0 <= i < j,
    ensures
        j < info.stable_room_versions@.len() ==> {
            let a = info.stable_room_versions@[i]@;
            let b = info.stable_room_versions@[j]@;
            ||| numeric_rank(a, b) is Lower
            ||| numeric_rank(a, b) is Same && text_rank(a, b) is Lower
        },
        j < info.unstable_room_versions@.len() ==> {
            let a = info.unstable_room_versions@[i]@;
            let b = info.unstable_room_versions@[j]@;
            ||| numeric_rank(a, b) is Lower
            ||| numeric_rank(a, b) is Same && a == current && b != current
        },
{
    let stable = texts(info.stable_room_versions@);
    let unstable = texts(info.unstable_room_versions@);
    if j < stable.len() {
        assert(!(numeric_rank(stable[i], stable[j]) is Higher));
        assert(numeric_rank(stable[i], stable[j]) is Same ==> by_code_points()(
            stable[i],
            stable[j],
        ));
    }
    if j < unstable.len() {
        assert(!(numeric_rank(unstable[i], unstable[j]) is Higher));
        assert(numeric_rank(unstable[i], unstable[j]) is Same ==> first_is(current)(
            unstable[i],
            unstable[j],
        ));
    }
}

/// The selected position, counted through the stable and then the experimental versions, is the one
/// of the current version if the server's default is lower, or if the current version is stable and
/// the default is not a higher stable version. Otherwise it is the one of the default. The rest of
/// the information is kept.
pub proof fn selection_is_the_recommended_version(
    before: UpgradeInfo,
    info: UpgradeInfo,
    current: Seq<char>,
    capability: RoomVersionsCapability,
)
    requires
        info.adds_room_versions(before, current, capability),
    ensures
        ({
            let stable = info.stable_room_versions@;
            let unstable = info.unstable_room_versions@;
            let default = capability.default_version();
            let rank = numeric_rank(default, current);
            let selected = if info.selected < stable.len() {
                stable[info.selected as int]@
            } else {
                unstable[info.selected - stable.len()]@
            };
            &&& info.selected < stable.len() + unstable.len()
            &&& rank is Lower ==> selected == current
            &&& capability.is_stable(current) && !capability.is_stable(default) ==> selected
                == current
            &&& capability.is_stable(current) && rank is Same ==> selected == current
            &&& capability.is_stable(default) && rank is Higher ==> selected == default
            &&& !capability.is_stable(current) && !(rank is Lower) ==> selected == default
        }),
        info.own_user_is_creator == before.own_user_is_creator,
        info.other_creators_count == before.other_creators_count,
        info.join_rule == before.join_rule,
{
    let default = capability.default_version();
    numeric_rank_reverses(current, default);
    numeric_rank_reflexive(current);
}

/// How the information changes with the list of creators: without creators nothing is counted, and
/// one more creator is counted exactly if it is not our own user, who is a creator if listed. The
/// rest of the information is kept.
pub proof fn creators_are_counted_one_by_one(
    before: UpgradeInfo,
    own: Seq<char>,
    creators: Seq<Seq<char>>,
    one_more: Seq<char>,
    info: UpgradeInfo,
    more_info: UpgradeInfo,
    no_info: UpgradeInfo,
)
    requires
        no_info.adds_creators(before, own, Seq::empty()),
        info.adds_creators(before, own, creators),
        more_info.adds_creators(before, own, creators.push(one_more)),
    ensures
        !no_info.own_user_is_creator,
        no_info.other_creators_count == 0,
        one_more == own ==> more_info.own_user_is_creator && more_info.other_creators_count
            == info.other_creators_count,
        one_more != own ==> more_info.own_user_is_creator == info.own_user_is_creator
            && more_info.other_creators_count == info.other_creators_count + 1,
        texts(info.stable_room_versions@) == texts(before.stable_room_versions@),
        texts(info.unstable_room_versions@) == texts(before.unstable_room_versions@),
        info.selected == before.selected,
        info.join_rule == before.join_rule,
{
    lemma_one_more_creator(creators, one_more, own);
    reveal(Seq::filter);
}

/// The listed versions are the stable ones and then the experimental ones.
pub proof fn listed_versions_are_concatenated(info: UpgradeInfo, i: int)
    ensures
        info.listed().len() == info.stable_room_versions@.len()
            + info.unstable_room_versions@.len(),
        0 <= i < info.stable_room_versions@.len() ==> info.listed()[i]
            == info.stable_room_versions@[i]@,
        0 <= i < info.unstable_room_versions@.len() ==> info.listed()[
            info.stable_room_versions@.len() + i
        ] == info.unstable_room_versions@[i]@,
{
}

} // verus!
