use driveguard::error::UpdateError;
use driveguard::version::Version;

#[test]
fn test_version_parsing() {
    let v1 = Version::parse("0.1.0").unwrap();
    let v2 = Version::parse("v0.1.3").unwrap();
    let v3 = Version::parse("0.2.0").unwrap();
    let v4 = Version::parse("0.1.3r5").unwrap();
    let v5 = Version::parse("v0.1.3r137").unwrap();

    assert!(v2 > v1);
    assert!(v3 > v2);
    assert!(v1.is_compatible_with(&v2));
    // Compatibility is equality of the major number, and 0.1.0 and 0.2.0 share major 0.
    assert!(v1.is_compatible_with(&v3));

    assert!(v1.is_stable());
    assert!(v4.is_test());
    assert_eq!(v4.rc, Some(5));
    assert_eq!(v5.rc, Some(137));

    assert_eq!(v4.to_string(), "0.1.3r5");
    assert_eq!(v5.to_string(), "0.1.3r137");

    assert_eq!(v4.base_version(), Version::parse("0.1.3").unwrap());
}

#[test]
fn round_trip_through_text() {
    for s in ["0.1.0", "v0.1.3", "V2.10.7", "0.1.3r5", "v10.20.30r0", "4294967295.0.1r4294967295", "007.08.9"] {
        let v = Version::parse(s).unwrap();
        let again = Version::parse(&v.to_string()).unwrap();
        assert_eq!(again, v);
    }
    assert_eq!(Version::parse("007.08.9").unwrap().to_string(), "7.8.9");
}

#[test]
fn ordering_of_releases() {
    let a = Version::parse("0.1.0").unwrap();
    let b = Version::parse("v0.1.3").unwrap();
    let c = Version::parse("0.2.0").unwrap();
    assert!(a < b && b < c);
    assert!(a.is_newer_than(&Version::parse("0.0.9").unwrap()));
    assert!(!a.is_newer_than(&a));
}

#[test]
fn test_build_sorts_after_its_stable_build() {
    let stable = Version::parse("0.1.3").unwrap();
    let rc5 = Version::parse("0.1.3r5").unwrap();
    let rc6 = Version::parse("0.1.3r6").unwrap();
    assert!(rc5 > stable);
    assert!(rc6 > rc5);
    assert!(Version::parse("0.1.4").unwrap() > rc6);
}

#[test]
fn compatibility_follows_major() {
    let v = Version::parse("0.1.3").unwrap();
    assert!(v.is_compatible_with(&Version::parse("0.1.0").unwrap()));
    assert!(!v.is_compatible_with(&Version::parse("1.2.0").unwrap()));
    assert!(v.is_compatible_with(&Version::parse("0.2.0").unwrap()));
}

#[test]
fn test_build_numbers() {
    let v = Version::parse("0.1.3r5").unwrap();
    assert!(v.is_test());
    assert!(!v.is_stable());
    assert_eq!(v.rc, Some(5));
    assert_eq!(Version::parse("0.1.3r137").unwrap().rc, Some(137));
    assert_eq!(v.base_version(), Version::parse("0.1.3").unwrap());
}

#[test]
fn malformed_versions_are_rejected() {
    for s in ["", "1.2", "vv0.1.0", "vV0.1.0", "Vv1.2.3", "v", "+1.2.3", "1.+2.3", "1.2.3.4", "a.b.c", "1.2.3r", "1.2.3rx", "1.2.3r1r2", "1..3", "Vv1.2.3", "4294967296.0.0", "1.2.-3", " 1.2.3", "1.2.3 "] {
        assert_eq!(Version::parse(s), Err(UpdateError::InvalidVersionFormat), "{}", s);
    }
}

#[test]
fn one_prefix_letter_only() {
    assert_eq!(Version::parse("v0.1.0").unwrap(), Version::parse("0.1.0").unwrap());
    assert_eq!(Version::parse("V0.1.0").unwrap(), Version::parse("0.1.0").unwrap());
    assert_eq!(Version::parse("vv0.1.0"), Err(UpdateError::InvalidVersionFormat));
    assert_eq!(Version::parse("vV0.1.0"), Err(UpdateError::InvalidVersionFormat));
}

#[test]
fn printing_gives_back_canonical_text() {
    for (s, body) in [("0.1.3", "0.1.3"), ("v10.0.7r0", "10.0.7r0"), ("V4294967295.1.20r137", "4294967295.1.20r137")] {
        assert_eq!(Version::parse(s).unwrap().to_string(), body);
    }
}
