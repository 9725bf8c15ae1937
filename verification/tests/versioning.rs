use helium_updater::versioning::{compare_versions, normalize_version_string, parse_version, VersionParts};
use std::cmp::Ordering;

#[test]
fn normalize_finds_first_dotted_version() {
    assert_eq!(
        normalize_version_string("Helium 0.4.5.1 (Chromium 137.0.7151.68)"),
        Some("0.4.5.1".to_string())
    );
    assert_eq!(normalize_version_string("v1.2.3-beta"), Some("1.2.3".to_string()));
    assert_eq!(normalize_version_string("1.2."), Some("1.2".to_string()));
    assert_eq!(normalize_version_string("a1.b2.3"), Some("2.3".to_string()));
}

#[test]
fn normalize_needs_a_dot_between_digits() {
    assert_eq!(normalize_version_string("1..2"), None);
    assert_eq!(normalize_version_string("12."), None);
    assert_eq!(normalize_version_string("release"), None);
    assert_eq!(normalize_version_string(""), None);
    assert_eq!(normalize_version_string(".5"), None);
}

#[test]
fn normalize_is_idempotent_on_examples() {
    for text in ["v137.0.7151.68 stable", "x 1.2 y", "0.4.5.1"] {
        let once = normalize_version_string(text).unwrap();
        assert_eq!(normalize_version_string(&once), Some(once.clone()));
    }
}

#[test]
fn parse_reads_four_numbers() {
    assert_eq!(parse_version("1.2"), Some(VersionParts([1, 2, 0, 0])));
    assert_eq!(parse_version("Chromium 137.0.7151.68"), Some(VersionParts([137, 0, 7151, 68])));
    assert_eq!(parse_version("1.2.3.4.5"), Some(VersionParts([1, 2, 3, 4])));
    assert_eq!(parse_version("007.1"), Some(VersionParts([7, 1, 0, 0])));
}

#[test]
fn parse_rejects_overflow_in_first_four_pieces() {
    assert_eq!(parse_version("99999999999.1"), None);
    assert_eq!(parse_version("1.2.3.4294967296"), None);
    assert_eq!(parse_version("1.2.3.4294967295"), Some(VersionParts([1, 2, 3, 4294967295])));
    assert_eq!(parse_version("1.2.3.4.99999999999"), Some(VersionParts([1, 2, 3, 4])));
    assert_eq!(parse_version("no version"), None);
}

#[test]
fn compare_orders_numerically() {
    assert_eq!(compare_versions(Some("1.2"), Some("1.10")), Some(Ordering::Less));
    assert_eq!(compare_versions(Some("2.0"), Some("1.99.99")), Some(Ordering::Greater));
    assert_eq!(compare_versions(Some("v1.2.0"), Some("1.2")), Some(Ordering::Equal));
    assert_eq!(compare_versions(None, Some("1.2")), None);
    assert_eq!(compare_versions(Some("1.2"), Some("none")), None);
}

#[test]
fn compare_is_antisymmetric_on_examples() {
    let pairs = [("1.2", "1.3"), ("137.0.1.2", "136.9"), ("1.0", "1.0.0.0")];
    for (a, b) in pairs {
        let ab = compare_versions(Some(a), Some(b)).unwrap();
        let ba = compare_versions(Some(b), Some(a)).unwrap();
        assert_eq!(ab, ba.reverse());
    }
}

#[test]
fn version_parts_compare_matches_ord() {
    let a = VersionParts([1, 2, 3, 4]);
    let b = VersionParts([1, 2, 4, 0]);
    assert_eq!(a.compare(&b), Ordering::Less);
    assert_eq!(a.compare(&b), a.cmp(&b));
    assert_eq!(b.compare(&a), Ordering::Greater);
    assert_eq!(a.compare(&a), Ordering::Equal);
}

#[test]
fn compare_is_transitive_on_examples() {
    let (a, b, c) = ("1.2.3", "1.10", "2.0.0.1");
    assert_eq!(compare_versions(Some(a), Some(b)), Some(Ordering::Less));
    assert_eq!(compare_versions(Some(b), Some(c)), Some(Ordering::Less));
    assert_eq!(compare_versions(Some(a), Some(c)), Some(Ordering::Less));
}

#[test]
fn normalized_version_reads_as_the_text_it_came_from() {
    let text = "Helium v0.4.5.1 build";
    let n = normalize_version_string(text).unwrap();
    assert_eq!(parse_version(&n), parse_version(text));
}
