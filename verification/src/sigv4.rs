//! The AWS Signature Version 4 request signer.
//!
//! Signing is applied only to `GET` requests, and only when credentials
//! are available; both other cases are silent skips. A malformed bucket
//! host (no extractable region) aborts signing with an error. The signed
//! headers are always `host`, `x-amz-content-sha256` and `x-amz-date`,
//! and the body is always empty, so the content hash is the digest of
//! the empty byte sequence.

use vstd::prelude::*;
use vstd::string::StringExecFns;
use vstd::utf8::encode_utf8;
use crate::crypto::hmac_sha256_mac;
use crate::crypto::hmac_sha256_of;
use crate::crypto::sha256_digest;
use crate::crypto::sha256_of;
use crate::encode::hex_lower;
use crate::encode::hex_of;
use crate::encode::uri_encode;
use crate::encode::uri_encoded;
use crate::origin::Origin;
use crate::origin::OriginView;
use crate::query::canonical_query_string;
use crate::query::spec_canonical_query;
use crate::region::extract_region;
use crate::region::spec_extract_region;
use crate::region::RegionError;
use crate::text::chars_to_string;
use crate::text::str_chars;
use crate::text::str_eq;
use crate::timestamp::format_amz_date;
use crate::timestamp::format_date8;
use crate::timestamp::spec_amz_date;
use crate::timestamp::spec_date8;
use crate::timestamp::Timestamp;

verus! {

/// The credential pair for one backend, looked up per request from an
/// external secret store.
pub struct Credentials {
    pub access_key_id: String,
    pub secret_access_key: String,
}

/// The mathematical value of [`Credentials`].
pub struct CredentialsView {
    pub access_key_id: Seq<char>,
    pub secret_access_key: Seq<char>,
}

impl View for Credentials {
    type V = CredentialsView;

    open spec fn view(&self) -> CredentialsView {
        CredentialsView {
            access_key_id: self.access_key_id@,
            secret_access_key: self.secret_access_key@,
        }
    }
}

/// The three signature headers for the outgoing backend request.
#[derive(Debug)]
pub struct SignatureResult {
    /// The `Authorization` header value.
    pub authorization: String,
    /// The `x-amz-content-sha256` header value: the hex digest of the
    /// empty body.
    pub content_sha256: String,
    /// The `x-amz-date` header value.
    pub amz_date: String,
}

/// The mathematical value of a [`SignatureResult`].
pub struct SignatureResultView {
    pub authorization: Seq<char>,
    pub content_sha256: Seq<char>,
    pub amz_date: Seq<char>,
}

impl View for SignatureResult {
    type V = SignatureResultView;

    open spec fn view(&self) -> SignatureResultView {
        SignatureResultView {
            authorization: self.authorization@,
            content_sha256: self.content_sha256@,
            amz_date: self.amz_date@,
        }
    }
}

/// Everything the signer reads: the request line, the chosen origin,
/// the credentials (absent when the secret store had none), and the
/// caller-supplied signing instant.
pub struct SigningContext {
    pub method: String,
    pub path: String,
    pub query: String,
    pub origin: Origin,
    pub credentials: Option<Credentials>,
    pub timestamp: Timestamp,
}

/// The semicolon-joined list of signed header names.
pub open spec fn spec_signed_headers() -> Seq<char> {
    "host;x-amz-content-sha256;x-amz-date"@
}

/// The hex SHA-256 of the empty body.
pub open spec fn spec_empty_body_hash_hex() -> Seq<char> {
    hex_of(sha256_of(Seq::<u8>::empty()))
}

/// The backend host: `<bucket-name>.<bucket-host>`.
pub open spec fn spec_host(origin: OriginView) -> Seq<char> {
    origin.bucket_name + "."@ + origin.bucket_host
}

/// The canonical header block: each signed header, lower-cased name,
/// one per line, in sorted order.
pub open spec fn spec_canonical_headers(host: Seq<char>, amz_date: Seq<char>) -> Seq<char> {
    "host:"@ + host + "\n"@ + "x-amz-content-sha256:"@ + spec_empty_body_hash_hex() + "\n"@
        + "x-amz-date:"@ + amz_date + "\n"@
}

/// The canonical request: method, encoded path, canonical query,
/// canonical headers, a blank line, the signed header list, and the
/// hash of the (empty) body, newline-joined.
pub open spec fn spec_canonical_request(
    method: Seq<char>,
    path: Seq<char>,
    query: Seq<char>,
    host: Seq<char>,
    amz_date: Seq<char>,
) -> Seq<char> {
    method + "\n"@ + uri_encoded(path, true) + "\n"@ + spec_canonical_query(query) + "\n"@
        + spec_canonical_headers(host, amz_date) + "\n"@ + spec_signed_headers() + "\n"@
        + spec_empty_body_hash_hex()
}

/// The credential scope `<date>/<region>/<service>/aws4_request`.
pub open spec fn spec_credential_scope(
    date8: Seq<char>,
    region: Seq<char>,
    service: Seq<char>,
) -> Seq<char> {
    date8 + "/"@ + region + "/"@ + service + "/aws4_request"@
}

/// The string to sign: algorithm tag, timestamp, scope, and the hex
/// hash of the canonical request, newline-joined.
pub open spec fn spec_string_to_sign(
    amz_date: Seq<char>,
    scope: Seq<char>,
    canonical_request: Seq<char>,
) -> Seq<char> {
    "AWS4-HMAC-SHA256"@ + "\n"@ + amz_date + "\n"@ + scope + "\n"@ + hex_of(
        sha256_of(encode_utf8(canonical_request)),
    )
}

/// The signing key: the HMAC chain over date, region, service and the
/// literal `aws4_request`, keyed initially by `AWS4` + secret.
pub open spec fn spec_signing_key(
    secret: Seq<char>,
    date8: Seq<char>,
    region: Seq<char>,
    service: Seq<char>,
) -> Seq<u8> {
    hmac_sha256_of(
        hmac_sha256_of(
            hmac_sha256_of(
                hmac_sha256_of(encode_utf8("AWS4"@ + secret), encode_utf8(date8)),
                encode_utf8(region),
            ),
            encode_utf8(service),
        ),
        encode_utf8("aws4_request"@),
    )
}

/// The `Authorization` header value.
pub open spec fn spec_authorization(
    access_key_id: Seq<char>,
    scope: Seq<char>,
    signature_hex: Seq<char>,
) -> Seq<char> {
    "AWS4-HMAC-SHA256 Credential="@ + access_key_id + "/"@ + scope + ", SignedHeaders="@
        + spec_signed_headers() + ", Signature="@ + signature_hex
}

/// The three headers of a successful signing of a `GET` request.
pub open spec fn spec_sign_success(
    method: Seq<char>,
    path: Seq<char>,
    query: Seq<char>,
    origin: OriginView,
    creds: CredentialsView,
    ts: Timestamp,
    region: Seq<char>,
) -> SignatureResultView {
    let host = spec_host(origin);
    let amz_date = spec_amz_date(ts);
    let date8 = spec_date8(ts);
    let scope = spec_credential_scope(date8, region, "s3"@);
    let cr = spec_canonical_request(method, path, query, host, amz_date);
    let sts = spec_string_to_sign(amz_date, scope, cr);
    let signature = hex_of(
        hmac_sha256_of(
            spec_signing_key(creds.secret_access_key, date8, region, "s3"@),
            encode_utf8(sts),
        ),
    );
    SignatureResultView {
        authorization: spec_authorization(creds.access_key_id, scope, signature),
        content_sha256: spec_empty_body_hash_hex(),
        amz_date: amz_date,
    }
}

/// The views of an optional credential pair.
pub open spec fn creds_view(c: Option<Credentials>) -> Option<CredentialsView> {
    match c {
        None => None,
        Some(x) => Some(x@),
    }
}

/// What the signer returns: nothing for a non-`GET` method or missing
/// credentials, the offending host for a malformed bucket host, and the
/// three headers otherwise.
pub open spec fn spec_sign_request(
    method: Seq<char>,
    path: Seq<char>,
    query: Seq<char>,
    origin: OriginView,
    creds: Option<CredentialsView>,
    ts: Timestamp,
) -> Result<Option<SignatureResultView>, Seq<char>> {
    if method != "GET"@ {
        Ok(None)
    } else {
        match creds {
            None => Ok(None),
            Some(c) => match spec_extract_region(origin.bucket_host) {
                None => Err(origin.bucket_host),
                Some(region) => Ok(
                    Some(spec_sign_success(method, path, query, origin, c, ts, region)),
                ),
            },
        }
    }
}

/// The hex SHA-256 of the empty body, the constant value of the
/// `x-amz-content-sha256` header.
pub fn empty_body_hash_hex() -> (r: String)
    ensures
        r@ == spec_empty_body_hash_hex(),
{
    let empty: Vec<u8> = Vec::new();
    let digest = sha256_digest(empty.as_slice());
    let hex = hex_lower(digest.as_slice());
    chars_to_string(&hex)
}

/// Builds the canonical request of a signed, empty-body `GET`-style
/// exchange from its five textual parts.
pub fn canonical_request(
    method: &str,
    path: &str,
    query: &str,
    host: &str,
    amz_date: &str,
) -> (r: String)
    ensures
        r@ == spec_canonical_request(method@, path@, query@, host@, amz_date@),
{
    let path_chars = str_chars(path);
    let encoded_path = uri_encode(&path_chars, true);
    let encoded_path_str = chars_to_string(&encoded_path);
    let canonical_query = canonical_query_string(query);
    let empty_hash = empty_body_hash_hex();
    let mut r = String::new();
    r.append(method);
    r.append("\n");
    r.append(encoded_path_str.as_str());
    r.append("\n");
    r.append(canonical_query.as_str());
    r.append("\n");
    r.append("host:");
    r.append(host);
    r.append("\n");
    r.append("x-amz-content-sha256:");
    r.append(empty_hash.as_str());
    r.append("\n");
    r.append("x-amz-date:");
    r.append(amz_date);
    r.append("\n");
    r.append("\n");
    r.append("host;x-amz-content-sha256;x-amz-date");
    r.append("\n");
    r.append(empty_hash.as_str());
    proof {
        assert(r@ =~= spec_canonical_request(method@, path@, query@, host@, amz_date@));
    }
    r
}

/// Builds the credential scope `<date>/<region>/<service>/aws4_request`.
pub fn credential_scope(date8: &str, region: &str, service: &str) -> (r: String)
    ensures
        r@ == spec_credential_scope(date8@, region@, service@),
{
    let mut r = String::new();
    r.append(date8);
    r.append("/");
    r.append(region);
    r.append("/");
    r.append(service);
    r.append("/aws4_request");
    proof {
        assert(r@ =~= spec_credential_scope(date8@, region@, service@));
    }
    r
}

/// Builds the string to sign from the timestamp, the scope and the
/// canonical request (which it hashes).
pub fn string_to_sign(amz_date: &str, scope: &str, canonical_request_text: &str) -> (r: String)
    ensures
        r@ == spec_string_to_sign(amz_date@, scope@, canonical_request_text@),
{
    let digest = sha256_digest(canonical_request_text.as_bytes());
    let hex = hex_lower(digest.as_slice());
    let hex_str = chars_to_string(&hex);
    let mut r = String::new();
    r.append("AWS4-HMAC-SHA256");
    r.append("\n");
    r.append(amz_date);
    r.append("\n");
    r.append(scope);
    r.append("\n");
    r.append(hex_str.as_str());
    proof {
        assert(r@ =~= spec_string_to_sign(amz_date@, scope@, canonical_request_text@));
    }
    r
}

/// Derives the signing key by the four-step HMAC chain.
pub fn signing_key(secret: &str, date8: &str, region: &str, service: &str) -> (r: Vec<u8>)
    ensures
        r@ == spec_signing_key(secret@, date8@, region@, service@),
{
    let mut initial = String::new();
    initial.append("AWS4");
    initial.append(secret);
    proof {
        assert(initial@ =~= "AWS4"@ + secret@);
    }
    let k_date = hmac_sha256_mac(initial.as_str().as_bytes(), date8.as_bytes());
    let k_region = hmac_sha256_mac(k_date.as_slice(), region.as_bytes());
    let k_service = hmac_sha256_mac(k_region.as_slice(), service.as_bytes());
    let k_signing = hmac_sha256_mac(k_service.as_slice(), "aws4_request".as_bytes());
    k_signing
}

/// Signs a prepared string to sign with a derived key; the result is
/// the lowercase hex signature.
pub fn sign_string(key: &[u8], string_to_sign_text: &str) -> (r: String)
    ensures
        r@ == hex_of(hmac_sha256_of(key@, encode_utf8(string_to_sign_text@))),
{
    let mac = hmac_sha256_mac(key, string_to_sign_text.as_bytes());
    let hex = hex_lower(mac.as_slice());
    chars_to_string(&hex)
}

/// Builds the `Authorization` header value.
pub fn authorization_header(access_key_id: &str, scope: &str, signature_hex: &str) -> (r: String)
    ensures
        r@ == spec_authorization(access_key_id@, scope@, signature_hex@),
{
    let mut r = String::new();
    r.append("AWS4-HMAC-SHA256 Credential=");
    r.append(access_key_id);
    r.append("/");
    r.append(scope);
    r.append(", SignedHeaders=");
    r.append("host;x-amz-content-sha256;x-amz-date");
    r.append(", Signature=");
    r.append(signature_hex);
    proof {
        assert(r@ =~= spec_authorization(access_key_id@, scope@, signature_hex@));
    }
    r
}

/// Computes the signature headers for the request described by `ctx`.
///
/// A non-`GET` method or absent credentials skip signing silently; a
/// bucket host without an extractable region is a configuration error.
pub fn sign_request(ctx: &SigningContext) -> (r: Result<Option<SignatureResult>, RegionError>)
    requires
        ctx.timestamp.wf(),
    ensures
        ({
            let expected = spec_sign_request(
                ctx.method@,
                ctx.path@,
                ctx.query@,
                ctx.origin@,
                creds_view(ctx.credentials),
                ctx.timestamp,
            );
            match r {
                Ok(None) => expected == Ok::<Option<SignatureResultView>, Seq<char>>(None),
                Ok(Some(sig)) => expected == Ok::<Option<SignatureResultView>, Seq<char>>(
                    Some(sig@),
                ),
                Err(e) => expected == Err::<Option<SignatureResultView>, Seq<char>>(e.host@)
                    && e.host@ == ctx.origin.bucket_host@,
            }
        }),
{
    if !str_eq(ctx.method.as_str(), "GET") {
        return Ok(None);
    }
    let creds = match &ctx.credentials {
        None => {
            return Ok(None);
        },
        Some(c) => c,
    };
    let region = match extract_region(ctx.origin.bucket_host.as_str()) {
        Err(e) => {
            return Err(e);
        },
        Ok(reg) => reg,
    };
    let date8 = format_date8(&ctx.timestamp);
    let amz_date = format_amz_date(&ctx.timestamp);
    let mut host = ctx.origin.bucket_name.clone();
    host.append(".");
    host.append(ctx.origin.bucket_host.as_str());
    let scope = credential_scope(date8.as_str(), region.as_str(), "s3");
    let creq = canonical_request(
        ctx.method.as_str(),
        ctx.path.as_str(),
        ctx.query.as_str(),
        host.as_str(),
        amz_date.as_str(),
    );
    let sts = string_to_sign(amz_date.as_str(), scope.as_str(), creq.as_str());
    let key = signing_key(
        creds.secret_access_key.as_str(),
        date8.as_str(),
        region.as_str(),
        "s3",
    );
    let signature = sign_string(key.as_slice(), sts.as_str());
    let authorization = authorization_header(
        creds.access_key_id.as_str(),
        scope.as_str(),
        signature.as_str(),
    );
    let content_sha256 = empty_body_hash_hex();
    let result = SignatureResult { authorization, content_sha256, amz_date };
    proof {
        assert(host@ =~= spec_host(ctx.origin@));
        assert(result@ == spec_sign_success(
            ctx.method@,
            ctx.path@,
            ctx.query@,
            ctx.origin@,
            creds@,
            ctx.timestamp,
            region@,
        ));
    }
    Ok(Some(result))
}

/// Signature determinism: the signer's outcome is a function of the
/// request description alone, so identical inputs yield byte-identical
/// headers.
pub proof fn lemma_sign_deterministic(
    method: Seq<char>,
    path: Seq<char>,
    query: Seq<char>,
    origin: OriginView,
    creds: Option<CredentialsView>,
    ts: Timestamp,
    r1: Result<Option<SignatureResultView>, Seq<char>>,
    r2: Result<Option<SignatureResultView>, Seq<char>>,
)
    requires
        r1 == spec_sign_request(method, path, query, origin, creds, ts),
        r2 == spec_sign_request(method, path, query, origin, creds, ts),
    ensures
        r1 == r2,
{
}

} // verus!
