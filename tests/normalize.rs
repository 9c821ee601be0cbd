use pydigger::normalize_url;

#[test]
fn test_normalize_url_empty() {
    assert_eq!(normalize_url(""), "");
    assert_eq!(normalize_url("\t"), "");
}

#[test]
fn test_normalize_url_lowercase() {
    assert_eq!(normalize_url("GitHub"), "github");
    assert_eq!(normalize_url("HOME-PAGE"), "homepage");
}

#[test]
fn test_normalize_url_removes_whitespace() {
    assert_eq!(normalize_url("home page"), "homepage");
    assert_eq!(normalize_url("home\tpage"), "homepage");
    assert_eq!(normalize_url("home\npage"), "homepage");
    assert_eq!(normalize_url("home\r\npage"), "homepage");
}

#[test]
fn test_normalize_url_removes_hyphens_and_underscores() {
    assert_eq!(normalize_url("home-page"), "homepage");
    assert_eq!(normalize_url("home_page"), "homepage");
    assert_eq!(normalize_url("home--page__test"), "homepagetest");
}

#[test]
fn test_normalize_url_complex() {
    assert_eq!(normalize_url("Home-Page!"), "homepage");
    assert_eq!(normalize_url("  GitHub  "), "github");
    assert_eq!(normalize_url("Source_Code"), "sourcecode");
    assert_eq!(normalize_url("Bug!Tracker"), "bugtracker");
}

#[test]
fn test_normalize_url_all_punctuation() {
    assert_eq!(normalize_url("!\"#$%&'()*+,-./:;<=>?@[\\]^_`{|}~"), "");
}

#[test]
fn test_normalize_url_preserves_alphanumeric() {
    assert_eq!(normalize_url("abc123"), "abc123");
    assert_eq!(normalize_url("Home123Page"), "home123page");
}

#[test]
fn normalize_is_idempotent_on_examples() {
    for label in ["Home-Page!", "  home page  ", "Source_Code", "GitHub", "\x0bx\x0cY"] {
        let once = normalize_url(label);
        assert_eq!(normalize_url(&once), once);
    }
    assert_eq!(normalize_url("Home-Page!"), normalize_url("  home page  "));
    assert_eq!(normalize_url("  home page  "), "homepage");
}

#[test]
fn normalize_keeps_non_ascii_punctuation_and_lowercases_unicode() {
    assert_eq!(normalize_url("Ünïcode·Label"), "ünïcode·label");
    assert_eq!(normalize_url("a\x0bb\x0cc"), "abc");
}
