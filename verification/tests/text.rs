//! Behaviour of the character-exact string comparison behind tag equality.

use cef_updater::text::str_eq;

#[test]
fn equal_and_unequal_strings() {
    assert!(str_eq("", ""));
    assert!(str_eq("v1.0", "v1.0"));
    assert!(!str_eq("v1.0", "v1.1"));
    assert!(!str_eq("v1.0", "v1.0.0"));
    assert!(!str_eq("v1.0", ""));
}

#[test]
fn comparison_is_by_characters_not_bytes() {
    assert!(str_eq("caf\u{e9}", "caf\u{e9}"));
    assert!(!str_eq("caf\u{e9}", "cafe"));
}
