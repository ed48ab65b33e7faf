//! Edge origin selection and AWS Signature Version 4 request signing.
//!
//! The crate has two components: an origin selector, which maps the
//! edge-location code handling a request to the regional storage origin
//! that should serve it, and a request signer, which computes the
//! `Authorization`, `x-amz-content-sha256` and `x-amz-date` headers that
//! an S3-compatible storage backend expects on a signed `GET` request.
//! Both are pure: the selector does no I/O, and the signer takes the
//! signing instant and the credentials from its caller.

pub mod crypto;
pub mod encode;
pub mod origin;
pub mod query;
pub mod region;
pub mod sigv4;
pub mod table;
pub mod text;
pub mod timestamp;

pub use origin::Origin;
pub use origin::OriginTable;
pub use origin::TableEntry;
pub use origin::select;
pub use query::canonical_query_string;
pub use region::extract_region;
pub use region::RegionError;
pub use sigv4::authorization_header;
pub use sigv4::canonical_request;
pub use sigv4::credential_scope;
pub use sigv4::empty_body_hash_hex;
pub use sigv4::sign_request;
pub use sigv4::sign_string;
pub use sigv4::signing_key;
pub use sigv4::string_to_sign;
pub use sigv4::Credentials;
pub use sigv4::SignatureResult;
pub use sigv4::SigningContext;
pub use table::standard_table;
pub use timestamp::format_amz_date;
pub use timestamp::format_date8;
pub use timestamp::Timestamp;
