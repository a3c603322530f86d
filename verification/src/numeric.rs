//! The order in which room versions are compared and listed.
//!
//! Room version identifiers are free text. They are compared as alternating runs of numbers and
//! other text, so that `10` comes after `9`, and two numbers that only differ in leading zeros have
//! the same rank.

use vstd::prelude::*;

use crate::text::{int_rank, lemma_text_reverse, lemma_text_transitive, text_rank, texts, Rank};

verus! {

/// A run of characters of an identifier.
pub enum Segment {
    /// A decimal number.
    Number(int),
    /// Text that is not a number.
    Text(Seq<char>),
}

/// How two segments compare: numbers by value, texts by code points, and every number before every
/// text.
pub open spec fn segment_rank(a: Segment, b: Segment) -> Rank {
    match (a, b) {
        (Segment::Number(m), Segment::Number(n)) => int_rank(m, n),
        (Segment::Number(_), Segment::Text(_)) => Rank::Lower,
        (Segment::Text(_), Segment::Number(_)) => Rank::Higher,
        (Segment::Text(s), Segment::Text(t)) => text_rank(s, t),
    }
}

/// How two sequences of segments compare, segment by segment.
pub open spec fn segments_rank(a: Seq<Segment>, b: Seq<Segment>) -> Rank
    decreases a.len(),
{
    if a.len() == 0 {
        if b.len() == 0 {
            Rank::Same
        } else {
            Rank::Lower
        }
    } else if b.len() == 0 {
        Rank::Higher
    } else {
        segment_rank(a[0], b[0]).or_else(segments_rank(a.skip(1), b.skip(1)))
    }
}

/// Whether a character is a decimal digit.
pub open spec fn is_digit(c: char) -> bool {
    0x30 <= c as int <= 0x39
}

/// Whether a text is a number: it has digits and nothing else.
pub open spec fn is_number(text: Seq<char>) -> bool {
    text.len() > 0 && forall|i: int| 0 <= i < text.len() ==> is_digit(#[trigger] text[i])
}

/// Whether a text has no digits.
pub open spec fn has_no_digit(text: Seq<char>) -> bool {
    forall|i: int| 0 <= i < text.len() ==> !is_digit(#[trigger] text[i])
}

/// The value of a number.
pub open spec fn number_value(text: Seq<char>) -> int
    decreases text.len(),
{
    if text.len() == 0 {
        0
    } else {
        10 * number_value(text.drop_last()) + (text.last() as int - 0x30)
    }
}

/// Whether a character is a sign.
pub open spec fn is_sign(c: char) -> bool {
    c == '+' || c == '-'
}

/// How many digits a text starts with.
pub open spec fn leading_digits(text: Seq<char>) -> int
    decreases text.len(),
{
    if text.len() > 0 && is_digit(text[0]) {
        1 + leading_digits(text.skip(1))
    } else {
        0
    }
}

/// The value of the number that a text starts with.
pub open spec fn leading_value(text: Seq<char>) -> int {
    number_value(text.take(leading_digits(text)))
}

/// The segments that `numeric_sort::SegmentIter` yields for a text that mixes digits and other
/// characters.
pub uninterp spec fn mixed_segments(text: Seq<char>) -> Seq<Segment>;

/// The segments of a text: one for a number and for a text without digits, and otherwise `mixed`,
/// where the first segment is the number that the text starts with, or is a text if it starts with
/// neither a digit nor a sign.
pub open spec fn segments(text: Seq<char>, mixed: Seq<Segment>) -> Seq<Segment> {
    if text.len() == 0 {
        seq![]
    } else if is_number(text) {
        seq![Segment::Number(number_value(text))]
    } else if has_no_digit(text) {
        seq![Segment::Text(text)]
    } else if is_digit(text[0]) {
        seq![Segment::Number(leading_value(text))] + mixed.skip(1)
    } else if !is_sign(text[0]) {
        seq![Segment::Text(mixed[0]->Text_0)] + mixed.skip(1)
    } else {
        mixed
    }
}

/// How two identifiers compare.
pub open spec fn numeric_rank(a: Seq<char>, b: Seq<char>) -> Rank {
    segments_rank(segments(a, mixed_segments(a)), segments(b, mixed_segments(b)))
}

/// Whether a list of identifiers is in ascending order.
pub open spec fn numerically_sorted(list: Seq<Seq<char>>) -> bool {
    forall|i: int, j: int|
        0 <= i <= j < list.len() ==> !(#[trigger] numeric_rank(list[i], list[j]) is Higher)
}

/// The identifiers of a list that have the same rank as `target`, in order.
pub open spec fn of_rank(list: Seq<Seq<char>>, target: Seq<char>) -> Seq<Seq<char>> {
    list.filter(|id: Seq<char>| numeric_rank(id, target) is Same)
}

/// Compares two identifiers with `numeric_sort::cmp`.
///
/// That function is trusted to compare lexicographically the sequences of segments of the two
/// strings, where numbers compare by value, texts by code points, and every number comes before
/// every text. A string of digits is one number, a string without digits is one text, and an empty
/// string has no segments. A string that starts with digits starts with their number, and one that
/// starts with neither a digit nor a sign starts with a text. How else a string that mixes digits
/// and other characters is cut into segments is not stated.
#[verifier::external_body]
pub(crate) fn compare(a: &str, b: &str) -> (rank: Rank)
    ensures
        rank == segments_rank(
            segments(a@, mixed_segments(a@)),
            segments(b@, mixed_segments(b@)),
        ),
{
    match numeric_sort::cmp(a, b) {
        std::cmp::Ordering::Less => Rank::Lower,
        std::cmp::Ordering::Equal => Rank::Same,
        std::cmp::Ordering::Greater => Rank::Higher,
    }
}

/// Sorts a list of identifiers with `numeric_sort::sort`.
///
/// That function is trusted to reorder the list so that it ascends by `numeric_sort::cmp`, and to
/// leave identifiers of the same rank in the order they were in.
#[verifier::external_body]
pub(crate) fn sort(list: &mut Vec<String>)
    ensures
        texts(final(list)@).to_multiset() == texts(old(list)@).to_multiset(),
        numerically_sorted(texts(final(list)@)),
        forall|target: Seq<char>| #[trigger]
            of_rank(texts(final(list)@), target) == of_rank(texts(old(list)@), target),
{
    numeric_sort::sort(list.as_mut_slice());
}

/// A relation that holds from each identifier of a list to every later one still does, after the
/// list was sorted, among those of the same rank.
pub(crate) proof fn lemma_ties_keep_order(
    before: Seq<Seq<char>>,
    after: Seq<Seq<char>>,
    related: spec_fn(Seq<char>, Seq<char>) -> bool,
)
    requires
        forall|i: int, j: int|
            0 <= i < j < before.len() ==> related(#[trigger] before[i], #[trigger] before[j]),
        forall|target: Seq<char>| #[trigger] of_rank(after, target) == of_rank(before, target),
    ensures
        forall|i: int, j: int|
            0 <= i < j < after.len() && numeric_rank(
                #[trigger] after[i],
                #[trigger] after[j],
            ) is Same ==> related(after[i], after[j]),
{
    assert forall|i: int, j: int|
        0 <= i < j < after.len() && numeric_rank(
            #[trigger] after[i],
            #[trigger] after[j],
        ) is Same implies related(after[i], after[j]) by {
        let target = after[j];
        let same = |id: Seq<char>| numeric_rank(id, target) is Same;
        numeric_rank_reflexive(target);
        assert(of_rank(after, target) == of_rank(before, target));
        let (k, l) = lemma_filter_keeps_order(after, same, i, j);
        let (m, n) = lemma_filter_comes_in_order(before, same, k, l);
        assert(related(before[m], before[n]));
    }
}

/// Two elements that are kept by a filter stay in order.
proof fn lemma_filter_keeps_order<A>(list: Seq<A>, kept: spec_fn(A) -> bool, i: int, j: int) -> (at: (
    int,
    int,
))
    requires
        0 <= i < j < list.len(),
        kept(list[i]),
        kept(list[j]),
    ensures
        0 <= at.0 < at.1 < list.filter(kept).len(),
        list.filter(kept)[at.0] == list[i],
        list.filter(kept)[at.1] == list[j],
    decreases list.len(),
{
    reveal(Seq::filter);
    let shorter = list.drop_last();
    if j < shorter.len() {
        lemma_filter_keeps_order(shorter, kept, i, j)
    } else {
        let k = lemma_filter_keeps(shorter, kept, i);
        (k, shorter.filter(kept).len() as int)
    }
}

/// An element that a filter accepts is kept.
proof fn lemma_filter_keeps<A>(list: Seq<A>, kept: spec_fn(A) -> bool, i: int) -> (at: int)
    requires
        0 <= i < list.len(),
        kept(list[i]),
    ensures
        0 <= at < list.filter(kept).len(),
        list.filter(kept)[at] == list[i],
    decreases list.len(),
{
    reveal(Seq::filter);
    let shorter = list.drop_last();
    if i < shorter.len() {
        lemma_filter_keeps(shorter, kept, i)
    } else {
        shorter.filter(kept).len() as int
    }
}

/// Two elements that a filter kept were in the same order before.
proof fn lemma_filter_comes_in_order<A>(
    list: Seq<A>,
    kept: spec_fn(A) -> bool,
    k: int,
    l: int,
) -> (from: (int, int))
    requires
        0 <= k < l < list.filter(kept).len(),
    ensures
        0 <= from.0 < from.1 < list.len(),
        list[from.0] == list.filter(kept)[k],
        list[from.1] == list.filter(kept)[l],
    decreases list.len(),
{
    reveal(Seq::filter);
    let shorter = list.drop_last();
    if l < shorter.filter(kept).len() {
        lemma_filter_comes_in_order(shorter, kept, k, l)
    } else {
        let i = lemma_filter_comes_from(shorter, kept, k);
        (i, shorter.len() as int)
    }
}

/// An element that a filter kept was there before.
proof fn lemma_filter_comes_from<A>(list: Seq<A>, kept: spec_fn(A) -> bool, k: int) -> (from: int)
    requires
        0 <= k < list.filter(kept).len(),
    ensures
        0 <= from < list.len(),
        list[from] == list.filter(kept)[k],
    decreases list.len(),
{
    reveal(Seq::filter);
    let shorter = list.drop_last();
    if k < shorter.filter(kept).len() {
        lemma_filter_comes_from(shorter, kept, k)
    } else {
        shorter.len() as int
    }
}

/// The order of segments is transitive.
proof fn lemma_segment_transitive(a: Segment, b: Segment, c: Segment)
    requires
        !(segment_rank(a, b) is Higher),
        !(segment_rank(b, c) is Higher),
    ensures
        segment_rank(a, c) == segment_rank(a, b).or_else(segment_rank(b, c)),
{
    if let (Segment::Text(s), Segment::Text(t), Segment::Text(u)) = (a, b, c) {
        lemma_text_transitive(s, t, u);
    }
}

proof fn lemma_segments_reverse(a: Seq<Segment>, b: Seq<Segment>)
    ensures
        segments_rank(b, a) == segments_rank(a, b).reverse(),
    decreases a.len(),
{
    if a.len() > 0 && b.len() > 0 {
        if let (Segment::Text(s), Segment::Text(t)) = (a[0], b[0]) {
            lemma_text_reverse(s, t);
        }
        lemma_segments_reverse(a.skip(1), b.skip(1));
    }
}

proof fn lemma_segments_transitive(a: Seq<Segment>, b: Seq<Segment>, c: Seq<Segment>)
    requires
        !(segments_rank(a, b) is Higher),
        !(segments_rank(b, c) is Higher),
    ensures
        segments_rank(a, c) == segments_rank(a, b).or_else(segments_rank(b, c)),
    decreases a.len(),
{
    if a.len() > 0 && b.len() > 0 && c.len() > 0 {
        lemma_segment_transitive(a[0], b[0], c[0]);
        if segment_rank(a[0], b[0]) is Same && segment_rank(b[0], c[0]) is Same {
            lemma_segments_transitive(a.skip(1), b.skip(1), c.skip(1));
        }
    }
}

/// Swapping two identifiers reverses their rank.
pub proof fn numeric_rank_reverses(a: Seq<char>, b: Seq<char>)
    ensures
        numeric_rank(b, a) == numeric_rank(a, b).reverse(),
{
    lemma_segments_reverse(segments(a, mixed_segments(a)), segments(b, mixed_segments(b)));
}

/// An identifier has the same rank as itself.
pub proof fn numeric_rank_reflexive(a: Seq<char>)
    ensures
        numeric_rank(a, a) is Same,
{
    numeric_rank_reverses(a, a);
}

/// The order of identifiers is transitive: going up twice goes up, and identifiers of the same
/// rank are interchangeable.
pub proof fn numeric_rank_transitive(a: Seq<char>, b: Seq<char>, c: Seq<char>)
    requires
        !(numeric_rank(a, b) is Higher),
        !(numeric_rank(b, c) is Higher),
    ensures
        numeric_rank(a, c) == numeric_rank(a, b).or_else(numeric_rank(b, c)),
{
    lemma_segments_transitive(
        segments(a, mixed_segments(a)),
        segments(b, mixed_segments(b)),
        segments(c, mixed_segments(c)),
    );
}

/// Numbers compare by value, so that `10` comes after `9`.
pub proof fn numbers_compare_by_value(a: Seq<char>, b: Seq<char>)
    requires
        is_number(a),
        is_number(b),
    ensures
        numeric_rank(a, b) == int_rank(number_value(a), number_value(b)),
{
    lemma_single_segments(Segment::Number(number_value(a)), Segment::Number(number_value(b)));
}

/// A number with one more leading zero has the same rank.
pub proof fn leading_zeros_keep_the_rank(number: Seq<char>)
    requires
        is_number(number),
    ensures
        is_number(seq!['0'] + number),
        numeric_rank(seq!['0'] + number, number) is Same,
{
    lemma_leading_zero(number);
    numbers_compare_by_value(seq!['0'] + number, number);
}

/// Every number comes before every text that starts with neither a digit nor a sign.
pub proof fn numbers_come_before_texts(number: Seq<char>, text: Seq<char>)
    requires
        is_number(number),
        text.len() > 0,
        !is_digit(text[0]),
        !is_sign(text[0]),
    ensures
        numeric_rank(number, text) is Lower,
{
}

/// Texts without digits compare by code points.
pub proof fn texts_without_digits_compare_by_code_points(a: Seq<char>, b: Seq<char>)
    requires
        a.len() > 0 && has_no_digit(a),
        b.len() > 0 && has_no_digit(b),
    ensures
        numeric_rank(a, b) == text_rank(a, b),
{
    assert(!is_digit(a[0]) && !is_digit(b[0]));
    lemma_single_segments(Segment::Text(a), Segment::Text(b));
}

/// Texts that start with different numbers compare like these.
pub proof fn leading_numbers_decide(a: Seq<char>, b: Seq<char>)
    requires
        a.len() > 0 && is_digit(a[0]),
        b.len() > 0 && is_digit(b[0]),
        leading_value(a) != leading_value(b),
    ensures
        numeric_rank(a, b) == int_rank(leading_value(a), leading_value(b)),
{
    lemma_first_segment(a);
    lemma_first_segment(b);
}

/// A text that starts with a digit starts with a number.
proof fn lemma_first_segment(text: Seq<char>)
    requires
        text.len() > 0,
        is_digit(text[0]),
    ensures
        segments(text, mixed_segments(text)).len() > 0,
        segments(text, mixed_segments(text))[0] == Segment::Number(leading_value(text)),
{
    if is_number(text) {
        lemma_number_leads(text);
        assert(text.take(text.len() as int) =~= text);
    }
}

/// All of a number are leading digits.
proof fn lemma_number_leads(text: Seq<char>)
    requires
        forall|i: int| 0 <= i < text.len() ==> is_digit(#[trigger] text[i]),
    ensures
        leading_digits(text) == text.len(),
    decreases text.len(),
{
    if text.len() > 0 {
        assert(is_digit(text[0]));
        lemma_number_leads(text.skip(1));
    }
}

/// Sequences of one segment compare like that segment.
proof fn lemma_single_segments(a: Segment, b: Segment)
    ensures
        segments_rank(seq![a], seq![b]) == segment_rank(a, b),
{
    reveal_with_fuel(segments_rank, 2);
}

/// A leading zero does not change the value of a number.
proof fn lemma_leading_zero(number: Seq<char>)
    ensures
        number_value(seq!['0'] + number) == number_value(number),
    decreases number.len(),
{
    let longer = seq!['0'] + number;
    if number.len() == 0 {
        assert(longer.drop_last() =~= number);
    } else {
        assert(longer.drop_last() =~= seq!['0'] + number.drop_last());
        lemma_leading_zero(number.drop_last());
    }
}

/// Every further digit of a number counts ten times less than the ones before it.
pub proof fn digits_make_a_number(text: Seq<char>, digit: char)
    ensures
        is_digit(digit) <==> '0' <= digit <= '9',
        number_value(Seq::empty()) == 0,
        number_value(text.push(digit)) == 10 * number_value(text) + (digit as int - '0' as int),
        is_digit(digit) && is_number(text) ==> is_number(text.push(digit)),
        is_number(text.push(digit)) ==> is_digit(digit),
        is_digit(digit) ==> is_number(seq![digit]),
{
    let longer = text.push(digit);
    assert(longer.drop_last() =~= text);
    assert(longer[text.len() as int] == digit);
}

} // verus!
