use chadd_updater::text::{chars_of, contains, ends_with, last_piece, matches_at, trim_leading};

fn chars(s: &str) -> Vec<char> {
    s.chars().collect()
}

#[test]
fn chars_of_lists_the_characters_in_order() {
    assert_eq!(chars_of(""), Vec::<char>::new());
    assert_eq!(chars_of("abc"), vec!['a', 'b', 'c']);
    assert_eq!(chars_of("héllo"), vec!['h', 'é', 'l', 'l', 'o']);
}

#[test]
fn matches_at_checks_one_position() {
    let s = chars("app-setup.exe");
    assert!(matches_at(&s, &chars("setup"), 4));
    assert!(!matches_at(&s, &chars("setup"), 3));
    assert!(matches_at(&s, &chars(""), 13));
    assert!(!matches_at(&s, &chars(""), 14));
    assert!(!matches_at(&s, &chars(".exe"), 10));
    assert!(matches_at(&s, &chars(".exe"), 9));
    assert!(!matches_at(&chars("ab"), &chars("abc"), 0));
}

#[test]
fn ends_with_and_contains_agree_with_the_standard_library() {
    let texts = ["", "a", "setup", "app-setup-x64.exe", "exe", ".exe", "x.exe.zip", "ééé.exe", "aab"];
    let patterns = ["", "a", "ab", ".exe", "setup", "x64", "é", "éé", "installer", "aab", "aaab"];
    for t in texts {
        for p in patterns {
            assert_eq!(ends_with(&chars(t), &chars(p)), t.ends_with(p), "{:?} ends with {:?}", t, p);
            assert_eq!(contains(&chars(t), &chars(p)), t.contains(p), "{:?} contains {:?}", t, p);
        }
    }
}

#[test]
fn trim_leading_takes_the_whole_leading_run() {
    assert_eq!(trim_leading("v1.2.3", 'v'), "1.2.3");
    assert_eq!(trim_leading("vv1.0", 'v'), "1.0");
    assert_eq!(trim_leading("1.0v", 'v'), "1.0v");
    assert_eq!(trim_leading("v", 'v'), "");
    assert_eq!(trim_leading("", 'v'), "");
    assert_eq!(trim_leading("V1.0", 'v'), "V1.0");
    assert_eq!(trim_leading("véé", 'v'), "éé");
    for s in ["v1", "vvv", "av", "", "v v", "éva"] {
        assert_eq!(trim_leading(s, 'v'), s.trim_start_matches('v'));
    }
}

#[test]
fn last_piece_is_what_follows_the_last_separator() {
    assert_eq!(last_piece("a/b/c", '/'), "c");
    assert_eq!(last_piece("a/b/", '/'), "");
    assert_eq!(last_piece("abc", '/'), "abc");
    assert_eq!(last_piece("", '/'), "");
    assert_eq!(last_piece("/", '/'), "");
    assert_eq!(last_piece("é/ü", '/'), "ü");
    for s in ["https://host/dir/file.exe", "x", "//", "a//b", "a/b/c/"] {
        assert_eq!(last_piece(s, '/'), s.split('/').last().unwrap());
    }
}
