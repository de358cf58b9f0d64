use pixfetch::strutil::{
    after_last_str, contains_str, eq_str, join_strings, remove_char, space_string, split_string,
    trim_char, u64_dec,
};

#[test]
fn decimal_rendering() {
    assert_eq!(u64_dec(0), "0");
    assert_eq!(u64_dec(9), "9");
    assert_eq!(u64_dec(10), "10");
    assert_eq!(u64_dec(1234567890), "1234567890");
    assert_eq!(u64_dec(u64::MAX), "18446744073709551615");
}

#[test]
fn spaces_of_each_width() {
    assert_eq!(space_string(0), "");
    assert_eq!(space_string(1), " ");
    assert_eq!(space_string(9), "         ");
}

#[test]
fn string_equality() {
    assert!(eq_str("", ""));
    assert!(eq_str("abc", "abc"));
    assert!(!eq_str("abc", "abd"));
    assert!(!eq_str("abc", "ab"));
}

#[test]
fn substring_search() {
    assert!(contains_str("Arch Linux", "Linux"));
    assert!(contains_str("anything", ""));
    assert!(!contains_str("Arch", "Linux"));
    assert!(!contains_str("ab", "abc"));
    assert!(contains_str("rolling release", "rolling"));
}

#[test]
fn splitting_matches_std() {
    let cases = ["", "a", "a b", " a ", "a  b", "x y z"];
    for s in cases {
        let mine: Vec<String> = split_string(s, ' ');
        let std: Vec<&str> = s.split(' ').collect();
        assert_eq!(mine, std);
    }
}

#[test]
fn joining_matches_std() {
    let parts: Vec<String> = vec!["a".into(), "".into(), "c".into()];
    assert_eq!(join_strings(&parts, " "), "a  c");
    let one: Vec<String> = vec!["x".into()];
    assert_eq!(join_strings(&one, " "), "x");
    let none: Vec<String> = vec![];
    assert_eq!(join_strings(&none, " "), "");
}

#[test]
fn trimming_matches_std() {
    let cases = ["", "\n", "\n\nx\n", "x", "a\nb", "\n\n"];
    for s in cases {
        assert_eq!(trim_char(s, '\n'), s.trim_matches('\n'));
    }
}

#[test]
fn removing_matches_std() {
    let cases = ["", "\n", "a\nb\n", "abc"];
    for s in cases {
        assert_eq!(remove_char(s, '\n'), s.replace('\n', ""));
    }
}

#[test]
fn after_last_matches_rsplit_once() {
    assert_eq!(after_last_str("/bin/zsh", '/'), Some("zsh".to_string()));
    assert_eq!(after_last_str("zsh", '/'), None);
    assert_eq!(after_last_str("a/", '/'), Some("".to_string()));
    assert_eq!(
        after_last_str("/usr/local/bin/fish", '/'),
        Some("fish".to_string())
    );
}
