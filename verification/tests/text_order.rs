use fractal::text::{compare_texts, same_text, Rank};

#[test]
fn texts_compare_by_code_points() {
    assert_eq!(compare_texts("", ""), Rank::Same);
    assert_eq!(compare_texts("", "a"), Rank::Lower);
    assert_eq!(compare_texts("a", ""), Rank::Higher);
    assert_eq!(compare_texts("10", "9"), Rank::Lower);
    assert_eq!(compare_texts("ab", "abc"), Rank::Lower);
    assert_eq!(compare_texts("abd", "abc"), Rank::Higher);
    assert_eq!(compare_texts("é", "z"), Rank::Higher);
    assert_eq!(compare_texts("é", "é"), Rank::Same);
}

#[test]
fn texts_compare_like_strings() {
    let texts = ["", "0", "10", "9", "a", "aa", "b", "é", "\u{ffff}", "\u{10000}"];
    for a in texts {
        for b in texts {
            let expected = if a < b {
                Rank::Lower
            } else if a == b {
                Rank::Same
            } else {
                Rank::Higher
            };
            assert_eq!(compare_texts(a, b), expected);
            assert_eq!(same_text(a, b), a == b);
        }
    }
}
