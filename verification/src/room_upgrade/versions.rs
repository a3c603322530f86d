//! The room versions that a homeserver supports.

use vstd::prelude::*;

use crate::numeric::{compare, numeric_rank, numeric_rank_reflexive, numeric_rank_reverses};
use crate::numeric::numeric_rank_transitive;
use crate::text::{compare_texts, Rank};
use crate::text::{lemma_text_reverse, lemma_text_same, lemma_text_transitive, text_rank, texts};

verus! {

/// The identifier of a room version.
pub type RoomVersionId = String;

/// The stability of a room version.
#[derive(Debug, Clone, Copy, PartialEq, Eq, Structural)]
pub enum RoomVersionStability {
    /// The room version is stable.
    Stable,
    /// The room version is anything else than stable.
    Unstable,
}

/// Whether the identifiers of a list of entries strictly ascend by code points.
pub open spec fn ascending(entries: Seq<(Seq<char>, RoomVersionStability)>) -> bool {
    forall|i: int, j: int|
        0 <= i < j < entries.len() ==> text_rank(
            (#[trigger] entries[i]).0,
            (#[trigger] entries[j]).0,
        ) is Lower
}

/// The entries of a list, with the identifiers as texts.
pub open spec fn entry_texts(list: Seq<(RoomVersionId, RoomVersionStability)>) -> Seq<
    (Seq<char>, RoomVersionStability),
> {
    list.map_values(|entry: (RoomVersionId, RoomVersionStability)| (entry.0@, entry.1))
}

/// Whether the texts of a list strictly ascend by code points.
pub open spec fn texts_ascend(list: Seq<Seq<char>>) -> bool {
    forall|i: int, j: int|
        0 <= i < j < list.len() ==> text_rank(#[trigger] list[i], #[trigger] list[j]) is Lower
}

/// Whether neither `minimum` nor `current` outranks a version.
pub open spec fn is_kept(version: Seq<char>, minimum: Seq<char>, current: Seq<char>) -> bool {
    !(numeric_rank(version, minimum) is Lower) && !(numeric_rank(version, current) is Lower)
}

/// The room versions that a homeserver supports, and the one it uses by default.
///
/// Each room version is listed at most once, in the order of the code points of its identifier.
#[derive(Debug)]
pub struct RoomVersionsCapability {
    default: RoomVersionId,
    available: Vec<(RoomVersionId, RoomVersionStability)>,
}

impl RoomVersionsCapability {
    /// The default room version.
    pub closed spec fn default_version(self) -> Seq<char> {
        self.default@
    }

    /// The supported room versions and their stability, in order.
    pub closed spec fn entries(self) -> Seq<(Seq<char>, RoomVersionStability)> {
        entry_texts(self.available@)
    }

    /// Whether the entries are in order, and so each listed once.
    #[verifier::type_invariant]
    pub open spec fn well_formed(self) -> bool {
        ascending(self.entries())
    }

    /// Whether `version` is listed with the given stability.
    pub open spec fn lists(self, version: Seq<char>, stability: RoomVersionStability) -> bool {
        self.entries().contains((version, stability))
    }

    /// Whether `version` is listed as stable.
    pub open spec fn is_stable(self, version: Seq<char>) -> bool {
        self.lists(version, RoomVersionStability::Stable)
    }

    /// Whether `version` is the first listed one of the stable versions that no stable version
    /// outranks.
    pub open spec fn is_maximum_stable(self, version: Seq<char>) -> bool {
        &&& self.is_stable(version)
        &&& forall|other: Seq<char>| #[trigger]
            self.is_stable(other) ==> {
                let rank = numeric_rank(other, version);
                ||| rank is Lower
                ||| rank is Same && !(text_rank(other, version) is Lower)
            }
    }

    /// A capability without any supported room version.
    pub fn new(default: RoomVersionId) -> (capability: Self)
        ensures
            capability.default_version() == default@,
            capability.entries() == Seq::<(Seq<char>, RoomVersionStability)>::empty(),
    {
        let capability = RoomVersionsCapability { default, available: Vec::new() };
        assert(capability.entries() =~= Seq::<(Seq<char>, RoomVersionStability)>::empty());
        capability
    }

    /// The default room version.
    pub fn default(&self) -> (version: &RoomVersionId)
        ensures
            version@ == self.default_version(),
    {
        &self.default
    }

    /// This capability with `version` listed with the given stability, in place of any other
    /// stability it was listed with.
    pub fn with_version(
        self,
        version: RoomVersionId,
        stability: RoomVersionStability,
    ) -> (capability: Self)
        ensures
            capability.default_version() == self.default_version(),
            forall|other: Seq<char>, s: RoomVersionStability| #[trigger]
                capability.lists(other, s) <==> if other == version@ {
                    s == stability
                } else {
                    self.lists(other, s)
                },
    {
        proof {
            use_type_invariant(&self);
        }
        let ghost before = self.entries();
        let RoomVersionsCapability { default, mut available } = self;
        let mut i: usize = 0;
        let mut found = false;
        while i < available.len() && !found
            invariant
                i <= available@.len(),
                before.len() == available@.len(),
                ascending(before),
                forall|j: int|
                    0 <= j < before.len() ==> #[trigger] before[j] == (
                        available@[j].0@,
                        available@[j].1,
                    ),
                forall|j: int| 0 <= j < i ==> text_rank((#[trigger] before[j]).0, version@) is Lower,
                found ==> i < before.len() && !(text_rank(before[i as int].0, version@) is Lower),
            decreases
                available@.len() - i + if found {
                    0int
                } else {
                    1int
                },
        {
            if compare_texts(available[i].0.as_str(), version.as_str()) == Rank::Lower {
                i += 1;
            } else {
                found = true;
            }
        }
        let ghost entry = (version@, stability);
        let ghost at = i as int;
        let replace = found && available[i].0 == version;
        if replace {
            available.set(i, (version, stability));
        } else {
            available.insert(i, (version, stability));
        }
        proof {
            let after = if replace {
                before.update(at, entry)
            } else {
                before.insert(at, entry)
            };
            assert(entry_texts(available@) =~= after);
            lemma_entry_placed(before, after, at, entry, replace);
        }
        RoomVersionsCapability { default, available }
    }

    /// Whether the given room version is stable.
    pub fn is_stable_version(&self, version: &RoomVersionId) -> (stable: bool)
        ensures
            stable == self.is_stable(version@),
    {
        proof {
            use_type_invariant(self);
        }
        let ghost entries = self.entries();
        let mut i: usize = 0;
        while i < self.available.len()
            invariant
                i <= self.available@.len(),
                entries == self.entries(),
                entries.len() == self.available@.len(),
                ascending(entries),
                forall|j: int| 0 <= j < i ==> (#[trigger] entries[j]).0 != version@,
            decreases self.available@.len() - i,
        {
            assert(entries[i as int] == (self.available@[i as int].0@, self.available@[i as int].1));
            if self.available[i].0 == *version {
                proof {
                    if self.is_stable(version@) {
                        let j = entries.index_of((version@, RoomVersionStability::Stable));
                        assert(entries[j].0 == version@);
                        lemma_text_same(version@, version@);
                        assert(i == j);
                    } else {
                        assert(entries[i as int] != (version@, RoomVersionStability::Stable));
                    }
                }
                return self.available[i].1 == RoomVersionStability::Stable;
            }
            i += 1;
        }
        assert(!self.is_stable(version@));
        false
    }

    /// The maximum stable room version in these capabilities.
    ///
    /// Of several stable versions of the highest rank, it is the first listed one.
    pub fn maximum_stable_version(&self) -> (maximum: Option<&RoomVersionId>)
        ensures
            match maximum {
                Some(version) => self.is_maximum_stable(version@),
                None => forall|version: Seq<char>| !#[trigger] self.is_stable(version),
            },
    {
        proof {
            use_type_invariant(self);
        }
        let ghost entries = self.entries();
        let mut maximum: Option<usize> = None;
        let mut i: usize = 0;
        while i < self.available.len()
            invariant
                i <= self.available@.len(),
                entries == self.entries(),
                entries.len() == self.available@.len(),
                forall|j: int|
                    0 <= j < entries.len() ==> #[trigger] entries[j] == (
                        self.available@[j].0@,
                        self.available@[j].1,
                    ),
                match maximum {
                    Some(m) => {
                        &&& m < i
                        &&& entries[m as int].1 is Stable
                        &&& forall|j: int|
                            0 <= j < i && (#[trigger] entries[j]).1 is Stable ==> {
                                let rank = numeric_rank(entries[j].0, entries[m as int].0);
                                rank is Lower || rank is Same && m <= j
                            }
                    },
                    None => forall|j: int| 0 <= j < i ==> !((#[trigger] entries[j]).1 is Stable),
                },
            decreases self.available@.len() - i,
        {
            let ghost previous = maximum;
            // Discard unstable versions.
            if self.available[i].1 == RoomVersionStability::Stable {
                proof {
                    numeric_rank_reflexive(entries[i as int].0);
                }
                // Keep the maximum.
                match maximum {
                    None => {
                        maximum = Some(i);
                    },
                    Some(m) => {
                        let rank = compare(
                            self.available[i].0.as_str(),
                            self.available[m].0.as_str(),
                        );
                        if rank == Rank::Higher {
                            proof {
                                let top = entries[m as int].0;
                                let next = entries[i as int].0;
                                numeric_rank_reverses(next, top);
                                assert forall|j: int|
                                    0 <= j < i + 1 && (#[trigger] entries[j]).1 is Stable implies {
                                    let rank = numeric_rank(entries[j].0, next);
                                    rank is Lower || rank is Same && i <= j
                                } by {
                                    if j < i {
                                        numeric_rank_transitive(entries[j].0, top, next);
                                    }
                                }
                            }
                            maximum = Some(i);
                        }
                    },
                }
            }
            i += 1;
        }
        match maximum {
            None => {
                assert forall|version: Seq<char>| !#[trigger] self.is_stable(version) by {
                    if self.is_stable(version) {
                        let j = entries.index_of((version, RoomVersionStability::Stable));
                        assert(entries[j].1 is Stable);
                    }
                }
                None
            },
            Some(m) => {
                proof {
                    let top = entries[m as int].0;
                    assert(entries[m as int] == (top, RoomVersionStability::Stable));
                    assert forall|other: Seq<char>| #[trigger] self.is_stable(other) implies {
                        let rank = numeric_rank(other, top);
                        rank is Lower || rank is Same && !(text_rank(other, top) is Lower)
                    } by {
                        let j = entries.index_of((other, RoomVersionStability::Stable));
                        assert(entries[j].0 == other);
                        if numeric_rank(other, top) is Same {
                            lemma_text_same(other, top);
                            lemma_text_reverse(top, other);
                        }
                    }
                }
                Some(&self.available[m].0)
            },
        }
    }

    /// The stable versions that neither `minimum` nor `current` outranks, in the order in which they
    /// are listed.
    pub(crate) fn stable_versions_from(
        &self,
        minimum: &RoomVersionId,
        current: &RoomVersionId,
    ) -> (versions: Vec<RoomVersionId>)
        ensures
            texts_ascend(texts(versions@)),
            forall|version: Seq<char>| #[trigger]
                texts(versions@).contains(version) <==> {
                    &&& self.is_stable(version)
                    &&& is_kept(version, minimum@, current@)
                },
    {
        proof {
            use_type_invariant(self);
        }
        let ghost entries = self.entries();
        let mut versions: Vec<RoomVersionId> = Vec::new();
        let mut i: usize = 0;
        while i < self.available.len()
            invariant
                i <= self.available@.len(),
                entries == self.entries(),
                ascending(entries),
                entries.len() == self.available@.len(),
                forall|j: int|
                    0 <= j < entries.len() ==> #[trigger] entries[j] == (
                        self.available@[j].0@,
                        self.available@[j].1,
                    ),
                texts_ascend(texts(versions@)),
                forall|k: int|
                    0 <= k < versions@.len() ==> is_kept(
                        (#[trigger] versions@[k])@,
                        minimum@,
                        current@,
                    ) && entries.take(i as int).contains(
                        (versions@[k]@, RoomVersionStability::Stable),
                    ),
                forall|j: int|
                    0 <= j < i && (#[trigger] entries[j]).1 is Stable && is_kept(
                        entries[j].0,
                        minimum@,
                        current@,
                    ) ==> texts(versions@).contains(entries[j].0),
            decreases self.available@.len() - i,
        {
            let ghost before = versions@;
            let ghost id = entries[i as int].0;
            assert(entries.take(i + 1) =~= entries.take(i as int).push(entries[i as int]));
            // Discard unstable versions.
            if self.available[i].1 == RoomVersionStability::Stable {
                let version = &self.available[i].0;
                if compare(version.as_str(), minimum.as_str()) != Rank::Lower && compare(
                    version.as_str(),
                    current.as_str(),
                ) != Rank::Lower {
                    versions.push(version.clone());
                }
            }
            proof {
                let pushed = versions@.len() > before.len();
                assert forall|k: int| 0 <= k < before.len() implies text_rank(
                    (#[trigger] before[k])@,
                    id,
                ) is Lower by {
                    let j = entries.take(i as int).index_of(
                        (before[k]@, RoomVersionStability::Stable),
                    );
                    assert(entries[j].0 == before[k]@);
                }
                if pushed {
                    assert(texts(versions@) =~= texts(before).push(id));
                    assert(texts(versions@)[before.len() as int] == id);
                }
                assert forall|k: int| 0 <= k < versions@.len() implies is_kept(
                    (#[trigger] versions@[k])@,
                    minimum@,
                    current@,
                ) && entries.take(i + 1).contains(
                    (versions@[k]@, RoomVersionStability::Stable),
                ) by {
                    if k < before.len() {
                        let j = entries.take(i as int).index_of(
                            (before[k]@, RoomVersionStability::Stable),
                        );
                        assert(entries.take(i + 1)[j] == entries.take(i as int)[j]);
                    } else {
                        assert(entries.take(i + 1)[i as int] == entries[i as int]);
                    }
                }
                assert forall|j: int|
                    0 <= j < i + 1 && (#[trigger] entries[j]).1 is Stable && is_kept(
                        entries[j].0,
                        minimum@,
                        current@,
                    ) implies texts(versions@).contains(entries[j].0) by {
                    if j < i {
                        let k = texts(before).index_of(entries[j].0);
                        assert(texts(versions@)[k] == entries[j].0);
                    }
                }
            }
            i += 1;
        }
        proof {
            assert(entries.take(i as int) =~= entries);
            assert forall|version: Seq<char>| #[trigger]
                texts(versions@).contains(version) <==> self.is_stable(version) && is_kept(
                    version,
                    minimum@,
                    current@,
                ) by {
                if texts(versions@).contains(version) {
                    let k = texts(versions@).index_of(version);
                    assert(versions@[k]@ == version);
                }
                if self.is_stable(version) && is_kept(version, minimum@, current@) {
                    let j = entries.index_of((version, RoomVersionStability::Stable));
                    assert(entries[j].1 is Stable);
                }
            }
        }
        versions
    }
}

/// An entry that replaces one with the same identifier, or that is inserted where it belongs,
/// leaves the entries in order and does not touch the other ones.
proof fn lemma_entry_placed(
    before: Seq<(Seq<char>, RoomVersionStability)>,
    after: Seq<(Seq<char>, RoomVersionStability)>,
    at: int,
    entry: (Seq<char>, RoomVersionStability),
    replace: bool,
)
    requires
        ascending(before),
        0 <= at <= before.len(),
        forall|j: int| 0 <= j < at ==> text_rank((#[trigger] before[j]).0, entry.0) is Lower,
        at < before.len() ==> !(text_rank(before[at].0, entry.0) is Lower),
        replace <==> at < before.len() && before[at].0 == entry.0,
        after == if replace {
            before.update(at, entry)
        } else {
            before.insert(at, entry)
        },
    ensures
        ascending(after),
        forall|other: Seq<char>, s: RoomVersionStability| #[trigger]
            after.contains((other, s)) <==> if other == entry.0 {
                s == entry.1
            } else {
                before.contains((other, s))
            },
{
    assert forall|j: int| at <= j < before.len() implies text_rank(
        entry.0,
        (#[trigger] before[j]).0,
    ) == if replace && j == at {
        Rank::Same
    } else {
        Rank::Lower
    } by {
        lemma_text_same(before[at].0, entry.0);
        lemma_text_reverse(before[at].0, entry.0);
        if j > at {
            lemma_text_transitive(entry.0, before[at].0, before[j].0);
        }
    }
    assert(after[at] == entry);
    assert forall|other: Seq<char>, s: RoomVersionStability| #[trigger]
        after.contains((other, s)) <==> if other == entry.0 {
            s == entry.1
        } else {
            before.contains((other, s))
        } by {
        lemma_text_same(entry.0, other);
        lemma_text_same(other, entry.0);
        if after.contains((other, s)) {
            let j = after.index_of((other, s));
            if j < at {
                assert(before[j] == after[j]);
            } else if j > at {
                assert(before[if replace { j } else { j - 1 }] == after[j]);
            }
        }
        if other != entry.0 && before.contains((other, s)) {
            let j = before.index_of((other, s));
            if j < at {
                assert(after[j] == before[j]);
            } else {
                assert(after[if replace { j } else { j + 1 }] == before[j]);
            }
        }
    }
}

/// A version is stable exactly if there is an entry that says so.
pub proof fn stable_versions_have_an_entry(
    capability: RoomVersionsCapability,
    version: Seq<char>,
    stability: RoomVersionStability,
)
    ensures
        capability.lists(version, stability) <==> exists|i: int|
            {
                &&& 0 <= i < capability.entries().len()
                &&& (#[trigger] capability.entries()[i]).0 == version
                &&& capability.entries()[i].1 == stability
            },
        capability.is_stable(version) <==> capability.lists(version, RoomVersionStability::Stable),
{
    let entries = capability.entries();
    if capability.lists(version, stability) {
        let i = entries.index_of((version, stability));
        assert(entries[i].0 == version);
    }
    if exists|i: int|
        0 <= i < entries.len() && (#[trigger] entries[i]).0 == version && entries[i].1
            == stability {
        let i = choose|i: int|
            0 <= i < entries.len() && (#[trigger] entries[i]).0 == version && entries[i].1
                == stability;
        assert(entries[i] == (version, stability));
    }
}

/// The highest stable version is stable, no stable version ranks higher, and of those that rank the
/// same it is the first one by code points.
pub proof fn highest_stable_version_is_highest(
    capability: RoomVersionsCapability,
    highest: Seq<char>,
    other: Seq<char>,
)
    requires
        capability.is_maximum_stable(highest),
    ensures
        capability.is_stable(highest),
        capability.is_stable(other) ==> !(numeric_rank(highest, other) is Lower),
        capability.is_stable(other) && numeric_rank(highest, other) is Same && other != highest
            ==> text_rank(highest, other) is Lower,
{
    numeric_rank_reverses(highest, other);
    lemma_text_reverse(highest, other);
    lemma_text_same(highest, other);
}

} // verus!
