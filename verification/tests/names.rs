use std::path::Path;
use toolbox::names::{eq_ignore_case, extension, has_extension, to_lower, with_extension};

fn std_extension(name: &str) -> Option<String> {
    Path::new(name).extension().map(|e| e.to_string_lossy().to_string())
}

#[test]
fn extension_follows_the_last_dot() {
    assert_eq!(extension("photo.webp"), Some("webp".to_string()));
    assert_eq!(extension("x.tar.webp"), Some("webp".to_string()));
    assert_eq!(extension("a."), Some(String::new()));
    assert_eq!(extension("a.WeBp"), Some("WeBp".to_string()));
}

#[test]
fn names_without_extension() {
    assert_eq!(extension("noext"), None);
    assert_eq!(extension(".webp"), None);
    assert_eq!(extension(""), None);
    assert_eq!(extension(".."), None);
    assert_eq!(extension("."), None);
}

#[test]
fn extension_agrees_with_std_paths() {
    let names = [
        "a.webp", "a.WEBP", ".webp", "a.", "x.tar.webp", "noext", "..", ".", "..a", "a..b", "ü.webp",
        "пример.png", "a.b.", ".a.b", "...", "a.webpx",
    ];
    for name in names {
        assert_eq!(extension(name), std_extension(name), "{}", name);
        assert_eq!(
            has_extension(name, "webp"),
            std_extension(name).map(|e| e.eq_ignore_ascii_case("webp")).unwrap_or(false),
            "{}",
            name
        );
    }
}

#[test]
fn with_extension_agrees_with_std_paths() {
    let names = ["a.webp", "a.WEBP", ".webp", "a.", "x.tar.webp", "noext", "a..b", "ü.webp", ".a.b"];
    for name in names {
        let mut expected = Path::new(name).to_path_buf();
        assert!(expected.set_extension("png"));
        assert_eq!(with_extension(name, "png"), expected.to_string_lossy().to_string(), "{}", name);
    }
}

#[test]
fn with_extension_exact_values() {
    assert_eq!(with_extension("photo.webp", "png"), "photo.png");
    assert_eq!(with_extension("noext", "png"), "noext.png");
    assert_eq!(with_extension(".hidden", "png"), ".hidden.png");
    assert_eq!(with_extension("x.tar.webp", "png"), "x.tar.png");
}

#[test]
fn case_is_ignored_for_ascii_letters_only() {
    assert!(eq_ignore_case("WebP", "webp"));
    assert!(eq_ignore_case("", ""));
    assert!(!eq_ignore_case("webp", "web"));
    assert!(!eq_ignore_case("webp", "webq"));
    assert!(!eq_ignore_case("[", "{"));
    assert!(!eq_ignore_case("@", "`"));
    assert!(!eq_ignore_case("Ä", "ä"));
    assert_eq!(to_lower('A'), 'a');
    assert_eq!(to_lower('Z'), 'z');
    assert_eq!(to_lower('a'), 'a');
    assert_eq!(to_lower('['), '[');
    assert_eq!(to_lower('@'), '@');
    assert_eq!(to_lower('Я'), 'Я');
}

#[test]
fn has_extension_matches_any_case() {
    assert!(has_extension("a.webp", "webp"));
    assert!(has_extension("a.WEBP", "webp"));
    assert!(has_extension("a.WebP", "WEBP"));
    assert!(!has_extension("a.png", "webp"));
    assert!(!has_extension("webp", "webp"));
    assert!(!has_extension(".webp", "webp"));
    assert!(!has_extension("a.webp.bak", "webp"));
}
