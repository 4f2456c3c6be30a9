use feign::request::render_path;
use feign::text::{i64_to_string, replace_all, u64_to_string};

#[test]
fn test_replace_both_occurrences() {
    let subs = vec![("id".to_string(), "7".to_string())];
    let r = render_path("/a/<id>/b/<id>", &subs);
    assert_eq!(r, "/a/7/b/7");
}

#[test]
fn test_absent_placeholder_is_no_op() {
    let subs = vec![("id".to_string(), "7".to_string())];
    let r = render_path("/fixed", &subs);
    assert_eq!(r, "/fixed");
}

#[test]
fn test_substitutions_apply_in_declaration_order() {
    let subs = vec![
        ("a".to_string(), "<b>".to_string()),
        ("b".to_string(), "2".to_string()),
    ];
    // The first step writes a "<b>" into the path; the second step, running
    // after it, replaces that occurrence too.
    let r = render_path("/x/<a>", &subs);
    assert_eq!(r, "/x/2");
}

#[test]
fn test_replace_all_plain() {
    assert_eq!(replace_all("abcabc", "b", "xy"), "axycaxyc");
    assert_eq!(replace_all("aaa", "aa", "b"), "ba");
    assert_eq!(replace_all("hello", "z", "y"), "hello");
}

#[test]
fn test_empty_substitution_list() {
    let subs: Vec<(String, String)> = Vec::new();
    assert_eq!(render_path("/as/<is>", &subs), "/as/<is>");
}

#[test]
fn test_decimal_rendering() {
    assert_eq!(u64_to_string(0), "0");
    assert_eq!(u64_to_string(12), "12");
    assert_eq!(u64_to_string(18446744073709551615), "18446744073709551615");
    assert_eq!(i64_to_string(-1), "-1");
    assert_eq!(i64_to_string(-9223372036854775808), "-9223372036854775808");
    assert_eq!(i64_to_string(9223372036854775807), "9223372036854775807");
    assert_eq!(i64_to_string(0), "0");
}
