use flightcore_ng_core::decimal::{parse_u32, parse_u64, u64_to_decimal};
use flightcore_ng_core::bootstrap::Os;
use flightcore_ng_core::paths::{is_wine_installed, join, proton_dir, tmp_dir, wine_dir};
use flightcore_ng_core::text::{
    contains, ends_with, eq, extension, split, starts_with, strip_prefix, strip_v, text_before,
};

#[test]
fn parse_u64_reads_plain_digits() {
    assert_eq!(parse_u64("0"), Some(0));
    assert_eq!(parse_u64("42"), Some(42));
    assert_eq!(parse_u64("007"), Some(7));
    assert_eq!(parse_u64("18446744073709551615"), Some(u64::MAX));
}

#[test]
fn parse_u64_accepts_one_plus_sign() {
    assert_eq!(parse_u64("+7"), Some(7));
    assert_eq!(parse_u64("++7"), None);
    assert_eq!(parse_u64("+"), None);
}

#[test]
fn parse_u64_refuses_other_text() {
    assert_eq!(parse_u64(""), None);
    assert_eq!(parse_u64("-1"), None);
    assert_eq!(parse_u64("12a"), None);
    assert_eq!(parse_u64(" 1"), None);
    assert_eq!(parse_u64("18446744073709551616"), None);
}

#[test]
fn parse_agrees_with_std() {
    for text in ["0", "1", "+5", "", "+", "-3", "99999999999", "4294967295", "4294967296", "1x", "٣"] {
        assert_eq!(parse_u64(text), text.parse::<u64>().ok(), "{text}");
        assert_eq!(parse_u32(text), text.parse::<u32>().ok(), "{text}");
    }
}

#[test]
fn parse_u32_refuses_overflow() {
    assert_eq!(parse_u32("4294967295"), Some(u32::MAX));
    assert_eq!(parse_u32("4294967296"), None);
}

#[test]
fn decimal_text_roundtrips() {
    for n in [0u64, 9, 10, 1237970, u64::MAX] {
        let text = u64_to_decimal(n);
        assert_eq!(text, n.to_string());
        assert_eq!(parse_u64(&text), Some(n));
    }
}

#[test]
fn text_helpers() {
    assert!(eq("abc", "abc"));
    assert!(!eq("abc", "abd"));
    assert!(starts_with("Northstar.release", "Northstar"));
    assert!(!starts_with("North", "Northstar"));
    assert!(ends_with("GE-Proton9-20.tar.gz", ".tar.gz"));
    assert!(!ends_with("gz", ".tar.gz"));
    assert!(contains("Northstar.release.v1.zip", "Northstar.release"));
    assert!(contains("abc", ""));
    assert!(!contains("abc", "abcd"));
    assert_eq!(strip_prefix("v1.2.3", "v"), Some("1.2.3".to_string()));
    assert_eq!(strip_prefix("1.2.3", "v"), None);
    assert_eq!(strip_v("v1.2.3"), "1.2.3");
    assert_eq!(strip_v("vv1"), "v1");
    assert_eq!(strip_v("1.2"), "1.2");
    assert_eq!(text_before("GE-Proton9-20.tar.gz", '.'), "GE-Proton9-20");
    assert_eq!(text_before("plain", '.'), "plain");
}

#[test]
fn split_matches_str_split() {
    for text in ["", "/", "/R2Northstar/NorthstarMods/pull/1", "a//b/", "no-slash"] {
        let expected: Vec<String> = text.split('/').map(String::from).collect();
        assert_eq!(split(text, '/'), expected, "{text}");
    }
}

#[test]
fn extension_matches_path_extension() {
    for name in ["settings.json", "settings.json.bak3", ".bashrc", "..", "a.", "noext", "x.tar.gz", ".a.b"] {
        let expected = std::path::Path::new(name)
            .extension()
            .map(|e| e.to_string_lossy().to_string());
        assert_eq!(extension(name), expected, "{name}");
    }
}

#[test]
fn join_follows_pathbuf_join() {
    assert_eq!(join("/home/u/.local/share/flightcore-ng", "tmp"), "/home/u/.local/share/flightcore-ng/tmp");
    assert_eq!(join("/base/", "tmp"), "/base/tmp");
    assert_eq!(join("", "tmp"), "tmp");
    assert_eq!(join("/base", "/abs"), "/abs");
    for (base, rel) in [("/a", "b"), ("/a/", "b"), ("", "b"), ("/a", "/b"), ("a", "b/c")] {
        let expected = std::path::Path::new(base).join(rel).to_string_lossy().to_string();
        assert_eq!(join(base, rel), expected);
    }
}

#[test]
fn launcher_directories() {
    assert_eq!(tmp_dir(Os::Linux, "/data"), "/data/tmp");
    assert_eq!(proton_dir("/data"), "/data/proton");
    assert_eq!(wine_dir("/data"), "/data/wine");
}

#[test]
fn wine_is_installed_only_when_both_directories_exist() {
    assert!(is_wine_installed(Some(true), Some(true)));
    assert!(!is_wine_installed(Some(true), Some(false)));
    assert!(!is_wine_installed(Some(false), Some(true)));
    assert!(!is_wine_installed(None, Some(true)));
    assert!(!is_wine_installed(Some(true), None));
}
