use registry_auth::text::{canonical_namespace, join, port_numeral, trim_end_slashes};

#[test]
fn canonical_namespace_is_lowercase() {
    assert_eq!(canonical_namespace("LingBou"), "lingbou");
}

#[test]
fn canonical_namespace_folds_ascii_only() {
    assert_eq!(canonical_namespace(""), "");
    assert_eq!(canonical_namespace("AZaz@[`{09"), "azaz@[`{09");
    assert_eq!(canonical_namespace("ÀÉ-İ-ß"), "ÀÉ-İ-ß");
}

#[test]
fn canonical_namespace_is_idempotent_and_ignores_case() {
    let once = canonical_namespace("MixedCASE");
    assert_eq!(canonical_namespace(&once), once);
    assert_eq!(canonical_namespace("mIXEDcase"), once);
    assert_ne!(canonical_namespace("mixed-case"), once);
}

#[test]
fn trailing_slashes_are_trimmed() {
    assert_eq!(trim_end_slashes("https://a/"), "https://a");
    assert_eq!(trim_end_slashes("https://a///"), "https://a");
    assert_eq!(trim_end_slashes("/a/b"), "/a/b");
    assert_eq!(trim_end_slashes("é//"), "é");
    assert_eq!(trim_end_slashes("//"), "");
    assert_eq!(trim_end_slashes(""), "");
}

#[test]
fn port_numerals_have_no_leading_zeros() {
    assert_eq!(port_numeral(0), "0");
    assert_eq!(port_numeral(9), "9");
    assert_eq!(port_numeral(10), "10");
    assert_eq!(port_numeral(8080), "8080");
    assert_eq!(port_numeral(65535), "65535");
}

#[test]
fn joining_keeps_the_order() {
    assert_eq!(join("ab", "c"), "abc");
    assert_eq!(join("", ""), "");
}
