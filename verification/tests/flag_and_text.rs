use ipfetch::flag::{flag_key, flag_url};
use ipfetch::text::{remove_spaces, spaces_to_underscores};

#[test]
fn flag_key_replaces_spaces_with_underscores() {
    assert_eq!(flag_key("United States"), "United_States");
    assert_eq!(flag_key("Bosnia and Herzegovina"), "Bosnia_and_Herzegovina");
    assert_eq!(flag_key("France"), "France");
    assert_eq!(flag_key(""), "");
}

#[test]
fn flag_url_is_host_slash_key() {
    assert_eq!(
        flag_url("United States"),
        "https://raw.githubusercontent.com/mark-ruddy/ipfetch/main/country_flags/United_States"
    );
}

#[test]
fn remove_spaces_strips_every_space() {
    assert_eq!(remove_spaces("Example Org"), "ExampleOrg");
    assert_eq!(remove_spaces("   "), "");
    assert_eq!(remove_spaces(""), "");
    assert_eq!(remove_spaces("a b c"), "abc");
    assert_eq!(remove_spaces("none"), "none");
}

#[test]
fn underscores_preserve_case_and_other_characters() {
    assert_eq!(spaces_to_underscores("a b"), "a_b");
    assert_eq!(spaces_to_underscores("  "), "__");
    assert_eq!(spaces_to_underscores("x"), "x");
}
