use quickcheck::{quickcheck, TestResult};
use shub::display::{ellipsize, snake_case_to_statement, statement_from_graphemes};

#[test]
fn test_ellipsize() {
    fn has_max_length_threshold(text: String, threshold: usize) -> TestResult {
        if threshold < 3 {
            return TestResult::discard();
        }
        TestResult::from_bool(ellipsize(&text, threshold).chars().count() <= threshold)
    }

    quickcheck(has_max_length_threshold as fn(_, _) -> TestResult);

    fn has_ellipsis_at_the_end(text: String, threshold: usize) -> TestResult {
        if threshold < 3 {
            return TestResult::discard();
        }
        if text.chars().count() <= threshold {
            return TestResult::discard();
        }
        let ellipsized = ellipsize(&text, threshold);
        TestResult::from_bool(ellipsized.ends_with("..."))
    }

    quickcheck(has_ellipsis_at_the_end as fn(_, _) -> TestResult);
}

#[test]
fn test_snake_case_to_statement() {
    let input = "hello_world";
    let output = snake_case_to_statement(input);
    assert_eq!("Hello world", output);
}

#[test]
fn ellipsize_keeps_short_texts_and_cuts_long_ones() {
    assert_eq!(ellipsize("abc", 3), "abc");
    assert_eq!(ellipsize("abcd", 3), "a..");
    assert_eq!(ellipsize("hello world", 8), "hello..");
    assert_eq!(ellipsize("a\nb cdefgh", 5), "a b..");
    assert_eq!(ellipsize("   abcdef", 5), "..");
    // The length is taken in bytes, the cut in characters.
    assert_eq!(ellipsize("\u{e9}\u{e9}", 3), "\u{e9}..");
}

#[test]
fn statement_capitalises_the_first_cluster_only() {
    assert_eq!(snake_case_to_statement(""), "");
    assert_eq!(snake_case_to_statement("_x_"), "_x ");
    assert_eq!(snake_case_to_statement("\u{e9}_a"), "\u{c9} a");
    let clusters = vec!["ab".to_owned(), "_".to_owned(), "c".to_owned()];
    assert_eq!(statement_from_graphemes(&clusters), "AB c");
}
