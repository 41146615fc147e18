use rynamo::text::{
    append_decimal, chars_of, contains_text, decimal_string, find, glue, glue3, insert_char,
    insert_text, join_strings, lowercase_contains, matches_at, rank, remove_char, remove_last,
    signed_decimal_string, starts_with, starts_with_char, trim_leading, trim_trailing, Rank,
};

fn chars(s: &str) -> Vec<char> {
    s.chars().collect()
}

#[test]
fn decimal_text_of_numbers() {
    assert_eq!(decimal_string(0), "0");
    assert_eq!(decimal_string(7), "7");
    assert_eq!(decimal_string(10), "10");
    assert_eq!(decimal_string(1234567890), "1234567890");
    assert_eq!(decimal_string(u64::MAX), u64::MAX.to_string());
    assert_eq!(signed_decimal_string(0), "0");
    assert_eq!(signed_decimal_string(-1), "-1");
    assert_eq!(signed_decimal_string(i64::MAX), i64::MAX.to_string());
    assert_eq!(signed_decimal_string(i64::MIN), i64::MIN.to_string());
    let mut out = "n=".to_string();
    append_decimal(&mut out, 305);
    assert_eq!(out, "n=305");
}

#[test]
fn joining_puts_the_separator_between() {
    let parts = |v: &[&str]| v.iter().map(|s| s.to_string()).collect::<Vec<_>>();
    assert_eq!(join_strings(&parts(&[]), ","), "");
    assert_eq!(join_strings(&parts(&["a"]), ","), "a");
    assert_eq!(join_strings(&parts(&["a", "b", "c"]), ", "), "a, b, c");
    assert_eq!(join_strings(&parts(&["", ""]), "&"), "&");
    assert_eq!(glue("a", "b"), "ab");
    assert_eq!(glue3("a", "", "c"), "ac");
}

#[test]
fn characters_of_a_text() {
    assert_eq!(chars_of(""), Vec::<char>::new());
    assert_eq!(chars_of("aé日"), vec!['a', 'é', '日']);
}

#[test]
fn prefixes_and_suffixes() {
    assert!(starts_with_char("@odata", '@'));
    assert!(!starts_with_char("a@", '@'));
    assert!(!starts_with_char("", '@'));
    assert!(starts_with(&chars("https://x"), &chars("http")));
    assert!(starts_with(&chars("http"), &chars("")));
    assert!(!starts_with(&chars("htt"), &chars("http")));
}

#[test]
fn finding_the_first_occurrence() {
    let hay = chars("abcabc");
    assert_eq!(find(&hay, &chars("bc"), 0), Some(1));
    assert_eq!(find(&hay, &chars("bc"), 2), Some(4));
    assert_eq!(find(&hay, &chars("bc"), 5), None);
    assert_eq!(find(&hay, &chars("x"), 0), None);
    assert_eq!(find(&hay, &chars(""), 0), Some(0));
    assert_eq!(find(&hay, &chars(""), 6), Some(6));
    assert_eq!(find(&hay, &chars(""), 7), None);
    assert_eq!(find(&chars(""), &chars("a"), 0), None);
    assert!(matches_at(&hay, &chars("cab"), 2));
    assert!(!matches_at(&hay, &chars("cab"), 1));
}

#[test]
fn dictionary_order_is_by_code_point() {
    let r = |a: &str, b: &str| rank(&chars(a), &chars(b));
    assert_eq!(r("a", "b"), Rank::Before);
    assert_eq!(r("b", "a"), Rank::After);
    assert_eq!(r("a", "a"), Rank::Same);
    assert_eq!(r("", ""), Rank::Same);
    assert_eq!(r("", "a"), Rank::Before);
    assert_eq!(r("a", "ab"), Rank::Before);
    assert_eq!(r("ab", "a"), Rank::After);
    assert_eq!(r("B", "a"), Rank::Before);
    assert_eq!(r("z", "é"), Rank::Before);
    for (a, b) in [("abc", "abd"), ("Z", "a"), ("a", "é"), ("", "x"), ("x", "x")] {
        let expected = match a.cmp(b) {
            std::cmp::Ordering::Less => Rank::Before,
            std::cmp::Ordering::Equal => Rank::Same,
            std::cmp::Ordering::Greater => Rank::After,
        };
        assert_eq!(r(a, b), expected);
    }
}

#[test]
fn sorted_insertion_keeps_order_and_drops_repeats() {
    let mut sorted: Vec<String> = Vec::new();
    for key in ["m", "a", "z", "m", "b", "a", ""] {
        insert_text(&mut sorted, key.to_string());
    }
    assert_eq!(sorted, vec!["", "a", "b", "m", "z"]);
    assert!(contains_text(&sorted, &"m".to_string()));
    assert!(!contains_text(&sorted, &"q".to_string()));
}

#[test]
fn trimming_runs_of_a_character() {
    assert_eq!(trim_trailing("https://test.crm.dynamics.com/", '/'), "https://test.crm.dynamics.com");
    assert_eq!(trim_trailing("a//", '/'), "a");
    assert_eq!(trim_trailing("///", '/'), "");
    assert_eq!(trim_trailing("/a", '/'), "/a");
    assert_eq!(trim_trailing("", '/'), "");
    assert_eq!(trim_leading("//a/b/", '/'), "a/b/");
    assert_eq!(trim_leading("a", '/'), "a");
    assert_eq!(trim_leading("", '/'), "");
}

#[test]
fn lower_case_search_uses_the_lower_case_form() {
    assert!(lowercase_contains("Account Name", &chars("count n")));
    assert!(lowercase_contains("ÄRGER", &chars("ärg")));
    assert!(!lowercase_contains("Account", &chars("Acc")));
    assert!(lowercase_contains("", &chars("")));
}

#[test]
fn editing_a_text_by_character() {
    assert_eq!(remove_last("abc"), "ab");
    assert_eq!(remove_last("日本"), "日");
    assert_eq!(remove_last(""), "");
    assert_eq!(insert_char("ac", 1, 'b'), "abc");
    assert_eq!(insert_char("ab", 2, 'c'), "abc");
    assert_eq!(insert_char("ab", 9, 'c'), "abc");
    assert_eq!(insert_char("", 0, 'é'), "é");
    assert_eq!(insert_char("日本", 1, 'x'), "日x本");
    assert_eq!(remove_char("abc", 1), "ac");
    assert_eq!(remove_char("abc", 3), "abc");
    assert_eq!(remove_char("日本", 0), "本");
}
