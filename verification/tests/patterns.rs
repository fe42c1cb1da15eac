use cucumber::cucumber_regex::{build, try_build};
use cucumber::helpers::r;

#[test]
fn helpers_it_makes_a_regex() {
    let regex = r("^Hello Regex$");
    assert!(regex.is_match("Hello Regex"));
}

#[test]
fn regex_it_makes_a_regex() {
    let regex = build("^Hello Regex$");
    assert!(regex.is_match("Hello Regex"));
}

#[test]
fn lib_it_makes_a_regex() {
    let regex = build("^Hello Regex$");
    assert!(regex.is_match("Hello Regex"));
    assert_eq!(regex.as_str(), "^Hello Regex$");
}

#[test]
fn try_build_rejects_an_invalid_pattern() {
    assert!(try_build("(unclosed").is_none());
    assert!(try_build("[z-a]").is_none());
    let regex = try_build("^a(b)?$").unwrap();
    assert_eq!(regex.as_str(), "^a(b)?$");
    assert!(regex.is_match("ab"));
}
