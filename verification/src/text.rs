//! Texts: how they are compared, and how strings stand for them.

use vstd::prelude::*;

verus! {

/// How a value compares with another one.
#[derive(Debug, Clone, Copy, PartialEq, Eq, Structural)]
pub enum Rank {
    /// The first value comes before the second one.
    Lower,
    /// Neither value comes before the other one.
    Same,
    /// The first value comes after the second one.
    Higher,
}

impl Rank {
    /// How the second value compares with the first one.
    pub open spec fn reverse(self) -> Rank {
        match self {
            Rank::Lower => Rank::Higher,
            Rank::Same => Rank::Same,
            Rank::Higher => Rank::Lower,
        }
    }

    /// This rank, or `next` where this rank does not tell the values apart.
    pub open spec fn or_else(self, next: Rank) -> Rank {
        if self is Same {
            next
        } else {
            self
        }
    }
}

/// How two numbers compare.
pub open spec fn int_rank(a: int, b: int) -> Rank {
    if a < b {
        Rank::Lower
    } else if a == b {
        Rank::Same
    } else {
        Rank::Higher
    }
}

/// How two texts compare, character by character, by code point.
pub open spec fn text_rank(a: Seq<char>, b: Seq<char>) -> Rank
    decreases a.len(),
{
    if a.len() == 0 {
        if b.len() == 0 {
            Rank::Same
        } else {
            Rank::Lower
        }
    } else if b.len() == 0 {
        Rank::Higher
    } else {
        int_rank(a[0] as int, b[0] as int).or_else(text_rank(a.skip(1), b.skip(1)))
    }
}

/// The texts of a list of strings.
pub open spec fn texts(list: Seq<String>) -> Seq<Seq<char>> {
    list.map_values(|s: String| s@)
}

/// The text of an optional string.
pub open spec fn optional_text(value: Option<String>) -> Option<Seq<char>> {
    match value {
        Some(value) => Some(value@),
        None => None,
    }
}

/// Compares two texts by code points.
pub fn compare_texts(a: &str, b: &str) -> (rank: Rank)
    ensures
        rank == text_rank(a@, b@),
{
    let a_len: usize = a.unicode_len();
    let b_len: usize = b.unicode_len();
    let mut i: usize = 0;
    assert(a@.skip(0) =~= a@);
    assert(b@.skip(0) =~= b@);
    while i < a_len && i < b_len
        invariant
            a_len == a@.len(),
            b_len == b@.len(),
            i <= a_len,
            i <= b_len,
            text_rank(a@, b@) == text_rank(a@.skip(i as int), b@.skip(i as int)),
        decreases a_len - i,
    {
        let x: char = a.get_char(i);
        let y: char = b.get_char(i);
        assert(a@.skip(i as int).skip(1) =~= a@.skip(i + 1));
        assert(b@.skip(i as int).skip(1) =~= b@.skip(i + 1));
        if x < y {
            return Rank::Lower;
        }
        if y < x {
            return Rank::Higher;
        }
        i += 1;
    }
    if i < b_len {
        Rank::Lower
    } else if i < a_len {
        Rank::Higher
    } else {
        Rank::Same
    }
}

/// Whether two texts are equal.
pub fn same_text(a: &str, b: &str) -> (same: bool)
    ensures
        same == (a@ == b@),
{
    proof {
        lemma_text_same(a@, b@);
    }
    compare_texts(a, b) == Rank::Same
}

/// The position of a text in a list.
pub fn position(list: &Vec<String>, text: &String) -> (found: Option<usize>)
    ensures
        match found {
            Some(i) => i < list@.len() && list@[i as int]@ == text@,
            None => !texts(list@).contains(text@),
        },
{
    let mut i: usize = 0;
    while i < list.len()
        invariant
            i <= list@.len(),
            forall|j: int| 0 <= j < i ==> (#[trigger] texts(list@)[j]) != text@,
        decreases list@.len() - i,
    {
        if list[i] == *text {
            return Some(i);
        }
        i += 1;
    }
    None
}

/// Swapping two texts reverses their rank.
pub proof fn lemma_text_reverse(a: Seq<char>, b: Seq<char>)
    ensures
        text_rank(b, a) == text_rank(a, b).reverse(),
    decreases a.len(),
{
    if a.len() > 0 && b.len() > 0 {
        lemma_text_reverse(a.skip(1), b.skip(1));
    }
}

/// Two texts have the same rank exactly if they are equal.
pub proof fn lemma_text_same(a: Seq<char>, b: Seq<char>)
    ensures
        text_rank(a, b) is Same <==> a == b,
    decreases a.len(),
{
    if a.len() == 0 || b.len() == 0 {
        assert(a.len() == b.len() ==> a =~= b);
    } else {
        lemma_text_same(a.skip(1), b.skip(1));
        if text_rank(a, b) is Same {
            assert(a =~= seq![a[0]] + a.skip(1));
            assert(b =~= seq![b[0]] + b.skip(1));
        }
    }
}

/// The order of texts is transitive.
pub proof fn lemma_text_transitive(a: Seq<char>, b: Seq<char>, c: Seq<char>)
    requires
        !(text_rank(a, b) is Higher),
        !(text_rank(b, c) is Higher),
    ensures
        text_rank(a, c) == text_rank(a, b).or_else(text_rank(b, c)),
    decreases a.len(),
{
    if a.len() > 0 && b.len() > 0 && c.len() > 0 {
        if a[0] == b[0] && b[0] == c[0] {
            lemma_text_transitive(a.skip(1), b.skip(1), c.skip(1));
        }
    }
}

/// A reordered list holds the same elements as often.
pub proof fn lemma_reordered(before: Seq<Seq<char>>, after: Seq<Seq<char>>)
    requires
        before.to_multiset() == after.to_multiset(),
    ensures
        before.len() == after.len(),
        forall|s: Seq<char>| #[trigger] after.contains(s) <==> before.contains(s),
        before.no_duplicates() ==> after.no_duplicates(),
{
    before.to_multiset_ensures();
    after.to_multiset_ensures();
    assert forall|s: Seq<char>| #[trigger] after.contains(s) <==> before.contains(s) by {
        assert(before.contains(s) <==> before.to_multiset().count(s) > 0);
        assert(after.contains(s) <==> after.to_multiset().count(s) > 0);
    }
    if before.no_duplicates() {
        before.lemma_multiset_has_no_duplicates();
        after.lemma_multiset_has_no_duplicates_conv();
    }
}

/// The texts of a list are the ones of its strings, one by one.
pub proof fn texts_are_those_of_the_strings(list: Seq<String>)
    ensures
        texts(list).len() == list.len(),
        forall|i: int| 0 <= i < list.len() ==> #[trigger] texts(list)[i] == list[i]@,
{
}

/// An optional string has a text exactly if there is a string.
pub proof fn optional_text_is_the_one_of_the_string(value: Option<String>)
    ensures
        optional_text(value) is Some <==> value is Some,
        value is Some ==> optional_text(value)->0 == value->0@,
{
}

/// The first difference decides how two texts compare, and a text comes before a longer one that
/// starts with it.
pub proof fn first_difference_decides(common: Seq<char>, a: Seq<char>, b: Seq<char>)
    ensures
        a.len() == 0 && b.len() > 0 ==> text_rank(common + a, common + b) is Lower,
        a.len() > 0 && b.len() > 0 && (a[0] as int) < (b[0] as int) ==> text_rank(
            common + a,
            common + b,
        ) is Lower,
        text_rank(common + a, common + b) == text_rank(a, b),
    decreases common.len(),
{
    if common.len() == 0 {
        assert(common + a =~= a);
        assert(common + b =~= b);
    } else {
        assert((common + a).skip(1) =~= common.skip(1) + a);
        assert((common + b).skip(1) =~= common.skip(1) + b);
        first_difference_decides(common.skip(1), a, b);
    }
}

} // verus!
