//! Tests of region extraction from bucket hosts.

use origin_signer::extract_region;

#[test]
fn extracts_region_from_well_formed_host() {
    let r = extract_region("s3.us-west-002.example.com").unwrap();
    assert_eq!(r, "us-west-002");
}

#[test]
fn extracts_region_from_backblaze_style_host() {
    let r = extract_region("s3.eu-central-003.backblazeb2.com").unwrap();
    assert_eq!(r, "eu-central-003");
}

#[test]
fn extracts_region_from_aws_style_host() {
    let r = extract_region("s3.us-east-1.amazonaws.com").unwrap();
    assert_eq!(r, "us-east-1");
}

#[test]
fn rejects_host_without_prefix() {
    let e = extract_region("bucket.example.com").unwrap_err();
    assert_eq!(e.host, "bucket.example.com");
}

#[test]
fn rejects_empty_region() {
    assert!(extract_region("s3..example.com").is_err());
}

#[test]
fn rejects_region_with_bad_character() {
    assert!(extract_region("s3.us_west.example.com").is_err());
}

#[test]
fn rejects_missing_domain() {
    assert!(extract_region("s3.us-west-002").is_err());
    assert!(extract_region("s3.us-west-002.").is_err());
}

#[test]
fn rejects_empty_and_short_hosts() {
    assert!(extract_region("").is_err());
    assert!(extract_region("s3").is_err());
    assert!(extract_region("s3.").is_err());
}

#[test]
fn extraction_is_deterministic() {
    for _ in 0..3 {
        assert_eq!(
            extract_region("s3.us-west-002.example.com").unwrap(),
            "us-west-002"
        );
        assert_eq!(
            extract_region("not-a-bucket-host").unwrap_err().host,
            "not-a-bucket-host"
        );
    }
}
