//! Extraction of the signing region from an origin's bucket host.
//!
//! A well-formed bucket host has the shape `s3.<region>.<domain>`: the
//! literal prefix `s3.`, a non-empty region token of ASCII alphanumerics
//! and hyphens, a dot, and a non-empty remainder. Any other host is a
//! configuration error that must abort signing.

use vstd::prelude::*;
use crate::text::chars_to_string;
use crate::text::find_char;
use crate::text::find_from;
use crate::text::lemma_find_from_at;
use crate::text::str_chars;

verus! {

/// A malformed bucket host: the region could not be extracted. Carries
/// the offending host for diagnostics.
#[derive(Debug)]
pub struct RegionError {
    pub host: String,
}

/// Characters allowed in a region token: ASCII letters, digits, and the
/// hyphen.
pub open spec fn is_region_char(c: char) -> bool {
    let u = c as u32;
    (48 <= u <= 57) || (65 <= u <= 90) || (97 <= u <= 122) || u == 45
}

/// The region of a bucket host, when the host has the shape
/// `s3.<region>.<domain>` with a non-empty alphanumeric-or-hyphen region
/// token and a non-empty domain.
pub open spec fn spec_extract_region(host: Seq<char>) -> Option<Seq<char>> {
    if host.len() < 3 || host[0] != 's' || host[1] != '3' || host[2] != '.' {
        None
    } else {
        let j = find_from(host, 3, '.');
        if j == 3 || j + 1 >= host.len() {
            None
        } else if forall|k: int| 3 <= k < j ==> is_region_char(host[k]) {
            Some(host.subrange(3, j))
        } else {
            None
        }
    }
}

fn is_region_char_exec(c: char) -> (r: bool)
    ensures
        r == is_region_char(c),
{
    let u = c as u32;
    (48 <= u && u <= 57) || (65 <= u && u <= 90) || (97 <= u && u <= 122) || u == 45
}

/// Extracts the signing region from a bucket host.
///
/// Returns the region token of a host shaped `s3.<region>.<domain>`;
/// any other host yields a [`RegionError`] naming that host.
pub fn extract_region(host: &str) -> (r: Result<String, RegionError>)
    ensures
        match spec_extract_region(host@) {
            Some(region) => r matches Ok(s) && s@ == region,
            None => r matches Err(e) && e.host@ == host@,
        },
{
    let v = str_chars(host);
    if v.len() < 3 || v[0] != 's' || v[1] != '3' || v[2] != '.' {
        return Err(RegionError { host: host.to_owned() });
    }
    let j = find_char(&v, 3, '.');
    if j == 3 || j >= v.len() || j + 1 >= v.len() {
        return Err(RegionError { host: host.to_owned() });
    }
    let mut region: Vec<char> = Vec::new();
    let mut k: usize = 3;
    while k < j
        invariant
            3 <= k <= j,
            j < v@.len(),
            v@ == host@,
            j == find_from(v@, 3, '.'),
            region@ == v@.subrange(3, k as int),
            forall|m: int| 3 <= m < k ==> is_region_char(v@[m]),
        decreases j - k,
    {
        if !is_region_char_exec(v[k]) {
            return Err(RegionError { host: host.to_owned() });
        }
        region.push(v[k]);
        proof {
            assert(v@.subrange(3, k as int + 1) =~= v@.subrange(3, k as int).push(v@[k as int]));
        }
        k = k + 1;
    }
    Ok(chars_to_string(&region))
}

/// Region extraction recovers the region from every well-formed host:
/// for any non-empty region token of allowed characters and any
/// non-empty domain, the host `s3.<region>.<domain>` yields exactly that
/// region.
pub proof fn lemma_extract_region_well_formed(region: Seq<char>, domain: Seq<char>)
    requires
        region.len() > 0,
        forall|k: int| 0 <= k < region.len() ==> is_region_char(region[k]),
        domain.len() > 0,
    ensures
        spec_extract_region(seq!['s', '3', '.'] + region + seq!['.'] + domain) == Some(region),
{
    let host = seq!['s', '3', '.'] + region + seq!['.'] + domain;
    let j = 3 + region.len() as int;
    assert(host[0] == 's' && host[1] == '3' && host[2] == '.');
    assert(host[j] == '.');
    assert forall|k: int| 3 <= k < j implies host[k] != '.' by {
        assert(host[k] == region[k - 3]);
        assert(is_region_char(region[k - 3]));
    }
    lemma_find_from_at(host, 3, '.', j);
    assert(j + 1 < host.len());
    assert(host.subrange(3, j) =~= region);
    assert forall|k: int| 3 <= k < j implies is_region_char(host[k]) by {
        assert(host[k] == region[k - 3]);
    }
}

} // verus!
