use omarchyiso::order::sort_strings;
use omarchyiso::text::{
    chars_of, concat_str, contains_str, decimal_string, join_path_str, path_parent_str,
    signed_decimal_string, split_nonempty_lines, str_eq, strip_prefix_or_keep,
    trim_trailing_slashes,
};

fn strings(v: &[&str]) -> Vec<String> {
    v.iter().map(|s| s.to_string()).collect()
}

#[test]
fn lines_skip_empty_and_strip_crlf() {
    assert_eq!(split_nonempty_lines("a\nb\r\n\nc"), strings(&["a", "b", "c"]));
    assert_eq!(split_nonempty_lines("one\ntwo\n"), strings(&["one", "two"]));
    assert_eq!(split_nonempty_lines(""), Vec::<String>::new());
    assert_eq!(split_nonempty_lines("\n\r\n\n"), Vec::<String>::new());
}

#[test]
fn lines_keep_lone_carriage_return_at_end() {
    // `str::lines` removes a `\r` only in front of a `\n`.
    assert_eq!(split_nonempty_lines("x\r"), strings(&["x\r"]));
    assert_eq!("x\r".lines().collect::<Vec<_>>(), vec!["x\r"]);
}

#[test]
fn lines_agree_with_std() {
    for text in ["a\nb", "a\r\nb\r\n", "\r\r\n", "p\n\nq\n\n", "  \nz"] {
        let expected: Vec<String> =
            text.lines().filter(|l| !l.is_empty()).map(|s| s.to_string()).collect();
        assert_eq!(split_nonempty_lines(text), expected, "text {:?}", text);
    }
}

#[test]
fn substring_search() {
    assert!(contains_str("hello world", "lo w"));
    assert!(contains_str("abc", ""));
    assert!(contains_str("", ""));
    assert!(!contains_str("abc", "abcd"));
    assert!(!contains_str("abc", "ac"));
    assert!(contains_str("aaab", "aab"));
}

#[test]
fn trailing_slashes_removed() {
    assert_eq!(trim_trailing_slashes("nvim/"), "nvim");
    assert_eq!(trim_trailing_slashes("a//"), "a");
    assert_eq!(trim_trailing_slashes("/"), "");
    assert_eq!(trim_trailing_slashes("a/b"), "a/b");
}

#[test]
fn decimals() {
    assert_eq!(decimal_string(0), "0");
    assert_eq!(decimal_string(7), "7");
    assert_eq!(decimal_string(1234), "1234");
    assert_eq!(decimal_string(usize::MAX), usize::MAX.to_string());
    assert_eq!(signed_decimal_string(-42), "-42");
    assert_eq!(signed_decimal_string(i32::MIN), i32::MIN.to_string());
    assert_eq!(signed_decimal_string(0), "0");
}

#[test]
fn paths() {
    assert_eq!(join_path_str("/home/u", "omarchyiso_build"), "/home/u/omarchyiso_build");
    assert_eq!(join_path_str("/", "omarchyiso_build"), "/omarchyiso_build");
    assert_eq!(join_path_str("", "x"), "x");
    assert_eq!(join_path_str(".", "x"), "./x");
    assert_eq!(path_parent_str("/home/u/omarchyiso_build").as_deref(), Some("/home/u"));
    assert_eq!(path_parent_str("/omarchyiso_build").as_deref(), Some("/"));
    assert_eq!(path_parent_str("./omarchyiso_build").as_deref(), Some("."));
    assert_eq!(path_parent_str("omarchyiso_build").as_deref(), Some(""));
    assert_eq!(path_parent_str("/"), None);
    assert_eq!(path_parent_str(""), None);
    assert_eq!(path_parent_str("a/").as_deref(), Some(""));
    assert_eq!(path_parent_str("a//b").as_deref(), Some("a"));
}

#[test]
fn parent_agrees_with_std() {
    let cases = [
        "", "/", "//", "a", "a/", "a//", "a/b", "a//b", "a/b/", "/a", "/a/", "//a", "/a/b/c",
        ".", "./", "./a", "./a/", "..", "../a", "a/..", "a/.", "a/./b", "a/./", "/.", "/./a",
        ".a", ".a/b", "a/b/.", "x.", "a/b//./", "/home/u/omarchyiso_build", "./.", "a/.b",
    ];
    for p in cases {
        let expected = std::path::Path::new(p).parent().map(|q| q.to_str().unwrap().to_string());
        assert_eq!(path_parent_str(p), expected, "path {:?}", p);
    }
}

#[test]
fn prefixes_and_equality() {
    assert_eq!(strip_prefix_or_keep(".config/nvim", ".config/"), "nvim");
    assert_eq!(strip_prefix_or_keep(".bashrc", ".config/"), ".bashrc");
    assert_eq!(strip_prefix_or_keep(".config", ".config/"), ".config");
    assert!(str_eq("abc", "abc"));
    assert!(!str_eq("abc", "abd"));
    assert!(!str_eq("ab", "abc"));
    assert_eq!(concat_str("ab", "cd"), "abcd");
    assert_eq!(chars_of("héllo"), vec!['h', 'é', 'l', 'l', 'o']);
}

#[test]
fn sorting_matches_std() {
    let input = strings(&["b", "a", "B", ".z", "a/", "é", "ab", "a", ""]);
    let mut expected = input.clone();
    expected.sort();
    assert_eq!(sort_strings(input), expected);
    assert_eq!(sort_strings(Vec::new()), Vec::<String>::new());
}
