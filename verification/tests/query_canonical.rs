//! Tests of canonical query-string construction.

use origin_signer::canonical_query_string;

#[test]
fn sorts_parameters_by_key() {
    assert_eq!(canonical_query_string("b=2&a=1"), "a=1&b=2");
    assert_eq!(canonical_query_string("a=1&b=2"), "a=1&b=2");
}

#[test]
fn empty_query_stays_empty() {
    assert_eq!(canonical_query_string(""), "");
}

#[test]
fn single_parameter() {
    assert_eq!(canonical_query_string("max-keys=2"), "max-keys=2");
}

#[test]
fn parameter_without_value_gets_empty_value() {
    assert_eq!(canonical_query_string("flag"), "flag=");
    assert_eq!(canonical_query_string("flag&a=1"), "a=1&flag=");
}

#[test]
fn keys_and_values_are_uri_encoded() {
    assert_eq!(canonical_query_string("a b=c/d"), "a%20b=c%2Fd");
    assert_eq!(canonical_query_string("k=v~1.2_3-x"), "k=v~1.2_3-x");
}

#[test]
fn non_ascii_values_are_percent_encoded_per_utf8_byte() {
    assert_eq!(canonical_query_string("k=\u{e9}"), "k=%C3%A9");
    assert_eq!(canonical_query_string("k=\u{20ac}"), "k=%E2%82%AC");
}

#[test]
fn equal_keys_sort_by_value() {
    assert_eq!(canonical_query_string("k=2&k=1"), "k=1&k=2");
}

#[test]
fn key_prefix_sorts_before_extension() {
    assert_eq!(canonical_query_string("a-=1&a=2"), "a=2&a-=1");
}
