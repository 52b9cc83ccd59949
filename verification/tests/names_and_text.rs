use remote_log_tui::names::{names_ordered, sort_names};
use remote_log_tui::text::{concat2, concat3, decimal_text, right_align};

fn strings(names: &[&str]) -> Vec<String> {
    names.iter().map(|n| n.to_string()).collect()
}

#[test]
fn names_sort_like_strings() {
    let mut expected = strings(&[
        "web-2", "web-10", "api", "", "Zeta", "été", "a\u{10FFFF}", "a\u{FFFF}", "web", "api", "日本",
    ]);
    let sorted = sort_names(expected.clone());
    expected.sort();
    assert_eq!(sorted, expected);
    assert_eq!(sorted[0], "");
    assert_eq!(sorted[1], "Zeta");
}

#[test]
fn sorting_twice_changes_nothing() {
    let once = sort_names(strings(&["c", "a", "b", "a"]));
    assert_eq!(once, strings(&["a", "a", "b", "c"]));
    assert_eq!(sort_names(once.clone()), once);
}

#[test]
fn sorting_nothing_gives_nothing() {
    assert!(sort_names(Vec::new()).is_empty());
}

#[test]
fn a_prefix_comes_first() {
    let (a, b) = ("web".to_string(), "web-1".to_string());
    assert!(names_ordered(&a, &b));
    assert!(!names_ordered(&b, &a));
    assert!(names_ordered(&a, &a));
}

#[test]
fn numbers_are_decimal() {
    for n in [0usize, 1, 9, 10, 99, 100, 12345, 20_000, usize::MAX] {
        assert_eq!(decimal_text(n), n.to_string());
    }
}

#[test]
fn alignment_pads_on_the_left() {
    assert_eq!(right_align("7", 6), "     7");
    assert_eq!(right_align("123456", 6), "123456");
    assert_eq!(right_align("1234567", 6), "1234567");
    assert_eq!(right_align("é", 3), "  é");
    assert_eq!(right_align("", 0), "");
}

#[test]
fn texts_are_joined_in_order() {
    assert_eq!(concat2("a", "b"), "ab");
    assert_eq!(concat3("a", "…", "c"), "a…c");
}
