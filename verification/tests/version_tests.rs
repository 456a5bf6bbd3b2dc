use bedrock_updater::error::BedrockUpdaterError;
use bedrock_updater::version::{VersionOrder, VersionString, find_version_span, version_text};

fn v(major: u64, minor: u64, patch: u64, build: u64) -> VersionString {
    VersionString { major, minor, patch, build }
}

#[test]
fn parse_artifact_name() {
    let r = VersionString::parse("bedrock-server-linux-x64-1.21.0.3.zip").unwrap();
    assert_eq!(r, v(1, 21, 0, 3));
}

#[test]
fn parse_plain_version() {
    let r = VersionString::parse("1.20.81.1").unwrap();
    assert_eq!(r, v(1, 20, 81, 1));
}

#[test]
fn parse_no_digits() {
    let r = VersionString::parse("bedrock-server-linux.zip");
    assert_eq!(r, Err(BedrockUpdaterError::NoVersionString));
}

#[test]
fn parse_too_few_components() {
    let r = VersionString::parse("1.2.3");
    assert_eq!(r, Err(BedrockUpdaterError::NoVersionString));
}

#[test]
fn parse_takes_first_four_components() {
    let r = VersionString::parse("1.2.3.4.5").unwrap();
    assert_eq!(r, v(1, 2, 3, 4));
}

#[test]
fn parse_takes_first_match() {
    let r = VersionString::parse("a-0.1.2.3-and-9.9.9.9").unwrap();
    assert_eq!(r, v(0, 1, 2, 3));
}

#[test]
fn parse_skips_incomplete_prefix() {
    let r = VersionString::parse("1.2.3a1.2.3.4").unwrap();
    assert_eq!(r, v(1, 2, 3, 4));
}

#[test]
fn parse_leading_zeros() {
    let r = VersionString::parse("01.002.0.10").unwrap();
    assert_eq!(r, v(1, 2, 0, 10));
}

#[test]
fn parse_max_component() {
    let r = VersionString::parse("18446744073709551615.0.0.1").unwrap();
    assert_eq!(r, v(u64::MAX, 0, 0, 1));
}

#[test]
fn parse_component_overflow() {
    let r = VersionString::parse("18446744073709551616.0.0.1");
    assert_eq!(r, Err(BedrockUpdaterError::UnparseableVersion));
}

#[test]
fn parse_same_text_compares_equal() {
    let a = VersionString::parse("bedrock-server-linux-x64-1.21.0.3.zip").unwrap();
    let b = VersionString::parse("bedrock-server-linux-x64-1.21.0.3.zip").unwrap();
    assert_eq!(a.compare(&b), VersionOrder::Equal);
}

#[test]
fn compare_equal() {
    assert_eq!(v(1, 20, 0, 1).compare(&v(1, 20, 0, 1)), VersionOrder::Equal);
}

#[test]
fn compare_less_in_each_field() {
    assert_eq!(v(1, 2, 3, 4).compare(&v(2, 0, 0, 0)), VersionOrder::Less);
    assert_eq!(v(1, 2, 3, 4).compare(&v(1, 3, 0, 0)), VersionOrder::Less);
    assert_eq!(v(1, 2, 3, 4).compare(&v(1, 2, 4, 0)), VersionOrder::Less);
    assert_eq!(v(1, 2, 3, 4).compare(&v(1, 2, 3, 5)), VersionOrder::Less);
}

#[test]
fn compare_greater_mirrors_less() {
    assert_eq!(v(2, 0, 0, 0).compare(&v(1, 2, 3, 4)), VersionOrder::Greater);
    assert_eq!(v(1, 21, 0, 0).compare(&v(1, 20, 0, 1)), VersionOrder::Greater);
}

#[test]
fn compare_most_significant_field_wins() {
    // 1.21.0.3 is newer than 1.20.99.99
    assert_eq!(v(1, 21, 0, 3).compare(&v(1, 20, 99, 99)), VersionOrder::Greater);
}

#[test]
fn version_text_of_artifact_name() {
    let t = version_text("bedrock-server-linux-x64-1.21.0.3.zip").unwrap();
    assert_eq!(t, "1.21.0.3");
}

#[test]
fn version_text_keeps_source_form() {
    let t = version_text("x-01.2.3.40-y").unwrap();
    assert_eq!(t, "01.2.3.40");
}

#[test]
fn version_text_absent() {
    assert!(version_text("no version here").is_none());
}

#[test]
fn version_text_reparses_to_same_version() {
    let name = "bedrock-server-linux-x64-1.21.0.3.zip";
    let parsed = VersionString::parse(name).unwrap();
    let text = version_text(name).unwrap();
    let reparsed = VersionString::parse(&text).unwrap();
    assert_eq!(parsed.compare(&reparsed), VersionOrder::Equal);
}

#[test]
fn find_version_span_bounds() {
    let (start, end) = find_version_span("abc-1.21.0.3.zip").unwrap();
    assert_eq!((start, end), (4, 12));
}
