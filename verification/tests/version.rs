use ktra::error::Error;
use ktra::version::Version;

#[test]
fn version_text_round_trip() {
    let v = Version::parse("1.2.3-alpha.1+build.5").unwrap();
    assert_eq!(v.major, 1);
    assert_eq!(v.minor, 2);
    assert_eq!(v.patch, 3);
    assert_eq!(v.pre, "alpha.1");
    assert_eq!(v.build, "build.5");
    assert_eq!(v.to_text(), "1.2.3-alpha.1+build.5");
}

#[test]
fn version_text_of_large_numbers() {
    let v = Version::new(18446744073709551615, 10, 0);
    assert_eq!(v.to_text(), "18446744073709551615.10.0");
    assert_eq!(Version::new(0, 0, 0).to_text(), "0.0.0");
}

#[test]
fn malformed_versions_are_rejected() {
    assert_eq!(Version::parse("1.2"), Err(Error::SemVer));
    assert_eq!(Version::parse("01.2.3"), Err(Error::SemVer));
    assert_eq!(Version::parse(""), Err(Error::SemVer));
    assert_eq!(Version::parse("v1.2.3"), Err(Error::SemVer));
    assert_eq!(Version::parse("1.2.3 "), Err(Error::SemVer));
}

#[test]
fn versions_are_equal_in_all_parts() {
    let a = Version::parse("1.2.3-rc.1").unwrap();
    assert!(a.equals(&a.clone()));
    assert!(!a.equals(&Version::new(1, 2, 3)));
    assert!(!Version::new(1, 2, 3).equals(&Version::new(1, 2, 4)));
    assert!(!Version::parse("1.2.3+a").unwrap().equals(&Version::parse("1.2.3+b").unwrap()));
}
