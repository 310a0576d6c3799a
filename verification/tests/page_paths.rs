use tlt::args::Platform;
use tlt::error::Error;
use tlt::text::{colonize, hyphenate, join_hyphen, lowercase, replace_all, str_eq};
use tlt::util::{existing_page_path, page_path};

#[test]
fn page_path_english_common() {
    let p = page_path("root", &Platform::Common, "en", "my-cmd");
    assert_eq!(p, "root/pages/common/my-cmd.md");
}

#[test]
fn page_path_other_language_has_language_suffix() {
    let p = page_path("root", &Platform::Linux, "fr", "tar");
    assert_eq!(p, "root/pages.fr/linux/tar.md");
    let en = page_path("root", &Platform::Linux, "en", "tar");
    assert_eq!(en, "root/pages/linux/tar.md");
    assert_ne!(p, en);
}

#[test]
fn page_path_replaces_spaces_with_hyphens() {
    let p = page_path("/repo", &Platform::OsX, "zh_TW", "git checkout");
    assert_eq!(p, "/repo/pages.zh_TW/osx/git-checkout.md");
}

#[test]
fn page_path_distinct_platforms_distinct_paths() {
    let platforms = [
        Platform::Linux,
        Platform::OsX,
        Platform::Windows,
        Platform::Android,
        Platform::SunOs,
        Platform::Common,
    ];
    for (i, a) in platforms.iter().enumerate() {
        for (j, b) in platforms.iter().enumerate() {
            let pa = page_path("r", a, "en", "x");
            let pb = page_path("r", b, "en", "x");
            assert_eq!(i == j, pa == pb);
        }
    }
}

#[test]
fn page_path_distinct_languages_distinct_paths() {
    let fr = page_path("r", &Platform::Common, "fr", "tar");
    let de = page_path("r", &Platform::Common, "de", "tar");
    let en = page_path("r", &Platform::Common, "en", "tar");
    assert_ne!(fr, de);
    assert_ne!(fr, en);
    assert_ne!(de, en);
}

#[test]
fn page_path_distinct_names_distinct_paths() {
    let a = page_path("r", &Platform::Common, "en", "tar");
    let b = page_path("r", &Platform::Common, "en", "tac");
    assert_ne!(a, b);
}

#[test]
fn normalization_is_idempotent_on_samples() {
    for raw in ["My Cmd", "GIT Checkout", "already-normal", "", "A B C"] {
        let once = hyphenate(&lowercase(raw));
        let twice = hyphenate(&lowercase(&once));
        assert_eq!(once, twice);
    }
}

#[test]
fn normalization_example() {
    assert_eq!(hyphenate(&lowercase("My Cmd")), "my-cmd");
}

#[test]
fn platform_names_round_trip() {
    let cases = [
        (Platform::Linux, "linux"),
        (Platform::OsX, "osx"),
        (Platform::Windows, "windows"),
        (Platform::Android, "android"),
        (Platform::SunOs, "sunos"),
        (Platform::Common, "common"),
    ];
    for (p, name) in cases {
        assert_eq!(p.name(), name);
        assert_eq!(Platform::from_str(name), Ok(p));
    }
}

#[test]
fn platform_macos_parses_to_osx() {
    assert_eq!(Platform::from_str("macos"), Ok(Platform::OsX));
}

#[test]
fn platform_rejects_unknown() {
    let r = Platform::from_str("plan9");
    assert_eq!(
        r,
        Err(
            "invalid platform 'plan9' (possible values: linux, macos, osx, windows, android, sunos, common)'"
                .to_string(),
        ),
    );
}

#[test]
fn existing_page_path_present() {
    let r = existing_page_path("root", &Platform::Common, "en", "tar", true);
    assert_eq!(r, Ok("root/pages/common/tar.md".to_string()));
}

#[test]
fn existing_page_path_absent() {
    let r = existing_page_path("root", &Platform::Windows, "fr", "tar", false);
    assert_eq!(
        r,
        Err(Error::Msg("fr/windows/tar: page does not exist".to_string())),
    );
}

#[test]
fn join_hyphen_words() {
    assert_eq!(join_hyphen(&vec![]), "");
    assert_eq!(join_hyphen(&vec!["git".to_string()]), "git");
    assert_eq!(
        join_hyphen(&vec!["git".to_string(), "checkout".to_string(), "b".to_string()]),
        "git-checkout-b",
    );
}

#[test]
fn replace_all_replaces_every_occurrence() {
    assert_eq!(replace_all("abcabc", "b", "xx"), "axxcaxxc");
    assert_eq!(replace_all("example of example", "example", "ls"), "ls of ls");
    assert_eq!(replace_all("nothing here", "absent", "x"), "nothing here");
}

#[test]
fn replace_all_is_left_to_right_without_overlap() {
    assert_eq!(replace_all("aaa", "aa", "b"), "ba");
}

#[test]
fn colonize_replaces_slashes() {
    assert_eq!(colonize("user/tldr"), "user:tldr");
}

#[test]
fn str_eq_compares_contents() {
    assert!(str_eq("abc", "abc"));
    assert!(!str_eq("abc", "abd"));
    assert!(!str_eq("abc", "ab"));
}
