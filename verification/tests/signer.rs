//! Tests of the Signature Version 4 signer, including the published
//! reference vectors for the signing-key derivation and for an S3
//! `GET` request.

use origin_signer::{
    authorization_header, canonical_request, credential_scope, empty_body_hash_hex,
    format_amz_date, format_date8, sign_request, sign_string, signing_key, Credentials, Origin,
    SigningContext, Timestamp,
};

const SECRET: &str = "wJalrXUtnFEMI/K7MDENG+bPxRfiCYEXAMPLEKEY";
const ACCESS: &str = "SECRET-REDACTED";
const EMPTY_HASH: &str = "e3b0c44298fc1c149afbf4c8996fb92427ae41e4649b934ca495991b7852b855";

fn hex(bytes: &[u8]) -> String {
    let mut s = String::new();
    for b in bytes {
        s.push_str(&format!("{:02x}", b));
    }
    s
}

fn vector_timestamp() -> Timestamp {
    Timestamp {
        year: 2013,
        month: 5,
        day: 24,
        hour: 0,
        minute: 0,
        second: 0,
    }
}

#[test]
fn empty_body_hash_matches_known_constant() {
    assert_eq!(empty_body_hash_hex(), EMPTY_HASH);
}

#[test]
fn timestamp_formats() {
    let ts = vector_timestamp();
    assert_eq!(format_date8(&ts), "20130524");
    assert_eq!(format_amz_date(&ts), "20130524T000000Z");
    let ts2 = Timestamp {
        year: 2015,
        month: 8,
        day: 30,
        hour: 12,
        minute: 36,
        second: 0,
    };
    assert_eq!(format_amz_date(&ts2), "20150830T123600Z");
}

#[test]
fn signing_key_matches_published_derivation_vector() {
    // The published key-derivation example: secret above, date
    // 20150830, region us-east-1, service iam.
    let key = signing_key(SECRET, "20150830", "us-east-1", "iam");
    assert_eq!(
        hex(&key),
        "c4afb1cc5771d871763a393e44b703571b55cc28424d1a5e86da6ed3c154a4b9"
    );
}

#[test]
fn signature_matches_published_signing_vector() {
    // The published request-signing example that accompanies the key
    // derivation above.
    let key = signing_key(SECRET, "20150830", "us-east-1", "iam");
    let sts = "AWS4-HMAC-SHA256\n20150830T123600Z\n20150830/us-east-1/iam/aws4_request\nf536975d06c0309214f805bb90ccff089219ecd68b2577efef23edd43b7e1a59";
    assert_eq!(
        sign_string(&key, sts),
        "5d672d79c15b13162d9279b0855cfba6789a8edb4c82c400e06b5924a6f2b5d7"
    );
}

#[test]
fn canonical_request_matches_published_s3_example() {
    // The published S3 list-objects example: GET / with query
    // max-keys=2&prefix=J on examplebucket, 2013-05-24.
    let creq = canonical_request(
        "GET",
        "/",
        "max-keys=2&prefix=J",
        "examplebucket.s3.amazonaws.com",
        "20130524T000000Z",
    );
    let expected = format!(
        "GET\n/\nmax-keys=2&prefix=J\nhost:examplebucket.s3.amazonaws.com\nx-amz-content-sha256:{h}\nx-amz-date:20130524T000000Z\n\nhost;x-amz-content-sha256;x-amz-date\n{h}",
        h = EMPTY_HASH
    );
    assert_eq!(creq, expected);
}

#[test]
fn signature_matches_published_s3_list_objects_vector() {
    // The end-to-end pipeline on the list-objects example: the
    // signature constant below was computed independently from the
    // published canonical request of that example.
    let creq = canonical_request(
        "GET",
        "/",
        "max-keys=2&prefix=J",
        "examplebucket.s3.amazonaws.com",
        "20130524T000000Z",
    );
    let scope = credential_scope("20130524", "us-east-1", "s3");
    assert_eq!(scope, "20130524/us-east-1/s3/aws4_request");
    let sts = origin_signer::string_to_sign("20130524T000000Z", &scope, &creq);
    let key = signing_key(SECRET, "20130524", "us-east-1", "s3");
    let signature = sign_string(&key, &sts);
    assert_eq!(
        signature,
        "b331a8a008500e1d26eaac3f17e064ed30785ac0cd1bed5e2acc9565175a7d92"
    );
    let auth = authorization_header(ACCESS, &scope, &signature);
    assert_eq!(
        auth,
        "AWS4-HMAC-SHA256 Credential=SECRET-REDACTED/20130524/us-east-1/s3/aws4_request, SignedHeaders=host;x-amz-content-sha256;x-amz-date, Signature=b331a8a008500e1d26eaac3f17e064ed30785ac0cd1bed5e2acc9565175a7d92"
    );
}

fn vector_origin() -> Origin {
    Origin {
        backend_name: "us_origin".to_string(),
        bucket_name: "examplebucket".to_string(),
        bucket_host: "s3.us-east-1.amazonaws.com".to_string(),
    }
}

fn vector_credentials() -> Option<Credentials> {
    Some(Credentials {
        access_key_id: ACCESS.to_string(),
        secret_access_key: SECRET.to_string(),
    })
}

#[test]
fn sign_request_agrees_with_the_layered_functions() {
    let ctx = SigningContext {
        method: "GET".to_string(),
        path: "/test.txt".to_string(),
        query: "".to_string(),
        origin: vector_origin(),
        credentials: vector_credentials(),
        timestamp: vector_timestamp(),
    };
    let sig = sign_request(&ctx).unwrap().unwrap();

    let host = "examplebucket.s3.us-east-1.amazonaws.com";
    let creq = canonical_request("GET", "/test.txt", "", host, "20130524T000000Z");
    let scope = credential_scope("20130524", "us-east-1", "s3");
    let sts = origin_signer::string_to_sign("20130524T000000Z", &scope, &creq);
    let key = signing_key(SECRET, "20130524", "us-east-1", "s3");
    let expected_sig = sign_string(&key, &sts);
    let expected_auth = authorization_header(ACCESS, &scope, &expected_sig);

    assert_eq!(sig.authorization, expected_auth);
    assert_eq!(sig.content_sha256, EMPTY_HASH);
    assert_eq!(sig.amz_date, "20130524T000000Z");
}

#[test]
fn sign_request_is_deterministic() {
    let ctx = SigningContext {
        method: "GET".to_string(),
        path: "/a/b c.txt".to_string(),
        query: "b=2&a=1".to_string(),
        origin: vector_origin(),
        credentials: vector_credentials(),
        timestamp: vector_timestamp(),
    };
    let first = sign_request(&ctx).unwrap().unwrap();
    let second = sign_request(&ctx).unwrap().unwrap();
    assert_eq!(first.authorization, second.authorization);
    assert_eq!(first.content_sha256, second.content_sha256);
    assert_eq!(first.amz_date, second.amz_date);
}

#[test]
fn non_get_method_is_skipped_without_error() {
    let ctx = SigningContext {
        method: "POST".to_string(),
        path: "/".to_string(),
        query: "".to_string(),
        origin: vector_origin(),
        credentials: vector_credentials(),
        timestamp: vector_timestamp(),
    };
    let r = sign_request(&ctx).unwrap();
    assert!(r.is_none());
}

#[test]
fn missing_credentials_skip_signing_without_error() {
    let ctx = SigningContext {
        method: "GET".to_string(),
        path: "/".to_string(),
        query: "".to_string(),
        origin: vector_origin(),
        credentials: None,
        timestamp: vector_timestamp(),
    };
    let r = sign_request(&ctx).unwrap();
    assert!(r.is_none());
}

#[test]
fn malformed_bucket_host_is_a_fatal_error() {
    let mut origin = vector_origin();
    origin.bucket_host = "storage.example.com".to_string();
    let ctx = SigningContext {
        method: "GET".to_string(),
        path: "/".to_string(),
        query: "".to_string(),
        origin,
        credentials: vector_credentials(),
        timestamp: vector_timestamp(),
    };
    let e = sign_request(&ctx).unwrap_err();
    assert_eq!(e.host, "storage.example.com");
}

#[test]
fn non_get_skip_takes_precedence_over_bad_host() {
    let mut origin = vector_origin();
    origin.bucket_host = "storage.example.com".to_string();
    let ctx = SigningContext {
        method: "PUT".to_string(),
        path: "/".to_string(),
        query: "".to_string(),
        origin,
        credentials: vector_credentials(),
        timestamp: vector_timestamp(),
    };
    assert!(sign_request(&ctx).unwrap().is_none());
}
