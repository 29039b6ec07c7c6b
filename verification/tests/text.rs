use tempest::paths::{join, path_file_name};
use tempest::text::{parse_u32_exec, trimmed, u32_decimal};

#[test]
fn decimal_round_trip() {
    for n in [0u32, 7, 10, 99, 100, 4294967295] {
        let s = u32_decimal(n);
        assert_eq!(s, n.to_string());
        assert_eq!(parse_u32_exec(&s), Some(n));
    }
}

#[test]
fn parse_u32_matches_std() {
    for s in ["", "+", "-1", "+5", "007", "4294967296", "12a", " 1", "99999999999"] {
        assert_eq!(parse_u32_exec(s), s.parse::<u32>().ok(), "{s:?}");
    }
}

#[test]
fn trim_matches_std() {
    for s in ["  a b  ", "\u{3000}x\u{2028}", "", "   ", "x"] {
        let t: String = trimmed(s).into_iter().collect();
        assert_eq!(t, s.trim());
    }
}

#[test]
fn join_matches_pathbuf() {
    for (a, b) in [("/a", "b"), ("/a/", "b"), ("", "b"), ("/a", "/b"), ("a", "")] {
        let expected = std::path::Path::new(a).join(b).to_string_lossy().into_owned();
        assert_eq!(join(a, b), expected, "{a:?} {b:?}");
    }
}

#[test]
fn file_name_matches_std() {
    for p in ["/a/b", "/a/b/", "a/.", "a/..", "/", "", ".", "./x", "x//y//", "GE-Proton9-1"] {
        let expected = std::path::Path::new(p).file_name().map(|s| s.to_string_lossy().into_owned());
        assert_eq!(path_file_name(p), expected, "{p:?}");
    }
}
