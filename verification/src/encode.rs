//! Hex and URI (percent) encoding, the two byte-to-text encodings used by
//! the signing algorithm.

use vstd::prelude::*;
use vstd::utf8::encode_scalar;
use vstd::utf8::has_width_1_encoding;
use vstd::utf8::has_width_2_encoding;
use vstd::utf8::has_width_3_encoding;
use vstd::utf8::char_is_scalar;

verus! {

/// The lowercase hex digit for a nibble.
pub open spec fn hex_char_lower(d: int) -> char {
    if d < 10 {
        ((48 + d) as u8) as char
    } else {
        ((87 + d) as u8) as char
    }
}

/// The uppercase hex digit for a nibble.
pub open spec fn hex_char_upper(d: int) -> char {
    if d < 10 {
        ((48 + d) as u8) as char
    } else {
        ((55 + d) as u8) as char
    }
}

/// Lowercase hex encoding of a byte sequence, two digits per byte.
pub open spec fn hex_of(data: Seq<u8>) -> Seq<char>
    decreases data.len(),
{
    if data.len() == 0 {
        Seq::empty()
    } else {
        seq![
            hex_char_lower((data.first() >> 4) as int),
            hex_char_lower((data.first() & 0x0f) as int),
        ] + hex_of(data.drop_first())
    }
}

fn hex_digit_lower(d: u8) -> (c: char)
    requires
        d < 16,
    ensures
        c == hex_char_lower(d as int),
{
    if d < 10 {
        (48 + d) as char
    } else {
        (87 + d) as char
    }
}

fn hex_digit_upper(d: u8) -> (c: char)
    requires
        d < 16,
    ensures
        c == hex_char_upper(d as int),
{
    if d < 10 {
        (48 + d) as char
    } else {
        (55 + d) as char
    }
}

/// Lowercase hex encoding of a byte slice.
pub fn hex_lower(data: &[u8]) -> (r: Vec<char>)
    ensures
        r@ == hex_of(data@),
{
    let mut r: Vec<char> = Vec::new();
    let mut i: usize = 0;
    proof {
        assert(data@.skip(0) =~= data@);
    }
    while i < data.len()
        invariant
            i <= data@.len(),
            hex_of(data@) =~= r@ + hex_of(data@.skip(i as int)),
        decreases data@.len() - i,
    {
        let b = data[i];
        proof {
            assert(b >> 4 < 16 && b & 0x0f < 16) by (bit_vector);
            assert(data@.skip(i as int).first() == b);
            assert(data@.skip(i as int).drop_first() =~= data@.skip(i as int + 1));
        }
        r.push(hex_digit_lower(b >> 4));
        r.push(hex_digit_lower(b & 0x0f));
        i = i + 1;
    }
    proof {
        assert(hex_of(data@.skip(data@.len() as int)) =~= Seq::<char>::empty());
        assert(r@ =~= hex_of(data@));
    }
    r
}

/// Characters that URI encoding passes through unchanged.
pub open spec fn is_unreserved(c: char) -> bool {
    let u = c as u32;
    (65 <= u <= 90) || (97 <= u <= 122) || (48 <= u <= 57) || u == 45 || u == 46 || u == 95 || u
        == 126
}

/// The `%XX` form (uppercase hex) of one byte.
pub open spec fn percent_byte(b: u8) -> Seq<char> {
    seq!['%', hex_char_upper((b >> 4) as int), hex_char_upper((b & 0x0f) as int)]
}

/// The `%XX` forms of a byte sequence, concatenated.
pub open spec fn percent_bytes(data: Seq<u8>) -> Seq<char>
    decreases data.len(),
{
    if data.len() == 0 {
        Seq::empty()
    } else {
        percent_byte(data.first()) + percent_bytes(data.drop_first())
    }
}

/// URI encoding of one character: unreserved characters (and, in path
/// mode, the slash) pass through; every other character becomes the
/// `%XX` forms of its UTF-8 bytes.
pub open spec fn encoded_char(c: char, keep_slash: bool) -> Seq<char> {
    if is_unreserved(c) || (keep_slash && c == '/') {
        seq![c]
    } else {
        percent_bytes(encode_scalar(c as u32))
    }
}

/// URI encoding of a character sequence.
pub open spec fn uri_encoded(s: Seq<char>, keep_slash: bool) -> Seq<char>
    decreases s.len(),
{
    if s.len() == 0 {
        Seq::empty()
    } else {
        encoded_char(s.first(), keep_slash) + uri_encoded(s.drop_first(), keep_slash)
    }
}

/// The UTF-8 bytes of one character, as `encode_scalar` describes them.
fn utf8_bytes_of_char(c: char) -> (r: Vec<u8>)
    ensures
        r@ == encode_scalar(c as u32),
{
    let u = c as u32;
    proof {
        char_is_scalar(c);
    }
    let mut r: Vec<u8> = Vec::new();
    if u <= 0x7F {
        r.push((u & 0x7F) as u8);
        proof {
            assert(has_width_1_encoding(u));
            assert(r@ =~= encode_scalar(u));
        }
    } else if u <= 0x7FF {
        r.push(0xC0 | ((u >> 6) & 0x1F) as u8);
        r.push(0x80 | (u & 0x3F) as u8);
        proof {
            assert(has_width_2_encoding(u));
            assert(r@ =~= encode_scalar(u));
        }
    } else if u <= 0xFFFF {
        r.push(0xE0 | ((u >> 12) & 0x0F) as u8);
        r.push(0x80 | ((u >> 6) & 0x3F) as u8);
        r.push(0x80 | (u & 0x3F) as u8);
        proof {
            assert(has_width_3_encoding(u));
            assert(r@ =~= encode_scalar(u));
        }
    } else {
        r.push(0xF0 | ((u >> 18) & 0x7) as u8);
        r.push(0x80 | ((u >> 12) & 0x3F) as u8);
        r.push(0x80 | ((u >> 6) & 0x3F) as u8);
        r.push(0x80 | (u & 0x3F) as u8);
        proof {
            assert(!has_width_1_encoding(u) && !has_width_2_encoding(u) && !has_width_3_encoding(
                u,
            ));
            assert(r@ =~= encode_scalar(u));
        }
    }
    r
}

fn is_unreserved_exec(c: char) -> (r: bool)
    ensures
        r == is_unreserved(c),
{
    let u = c as u32;
    (65 <= u && u <= 90) || (97 <= u && u <= 122) || (48 <= u && u <= 57) || u == 45 || u == 46
        || u == 95 || u == 126
}

/// URI-encodes `s`; with `keep_slash` the path separator passes through.
pub fn uri_encode(s: &Vec<char>, keep_slash: bool) -> (r: Vec<char>)
    ensures
        r@ == uri_encoded(s@, keep_slash),
{
    let mut r: Vec<char> = Vec::new();
    let mut i: usize = 0;
    proof {
        assert(s@.skip(0) =~= s@);
    }
    while i < s.len()
        invariant
            i <= s@.len(),
            uri_encoded(s@, keep_slash) =~= r@ + uri_encoded(s@.skip(i as int), keep_slash),
        decreases s@.len() - i,
    {
        let c = s[i];
        proof {
            assert(s@.skip(i as int).first() == c);
            assert(s@.skip(i as int).drop_first() =~= s@.skip(i as int + 1));
        }
        if is_unreserved_exec(c) || (keep_slash && c == '/') {
            r.push(c);
        } else {
            let bytes = utf8_bytes_of_char(c);
            let ghost r_start = r@;
            let mut j: usize = 0;
            proof {
                assert(bytes@.skip(0) =~= bytes@);
            }
            while j < bytes.len()
                invariant
                    j <= bytes@.len(),
                    r@ + percent_bytes(bytes@.skip(j as int)) =~= r_start + percent_bytes(bytes@),
                decreases bytes@.len() - j,
            {
                let b = bytes[j];
                proof {
                    assert(b >> 4 < 16 && b & 0x0f < 16) by (bit_vector);
                    assert(bytes@.skip(j as int).first() == b);
                    assert(bytes@.skip(j as int).drop_first() =~= bytes@.skip(j as int + 1));
                }
                r.push('%');
                r.push(hex_digit_upper(b >> 4));
                r.push(hex_digit_upper(b & 0x0f));
                j = j + 1;
            }
            proof {
                assert(percent_bytes(bytes@.skip(bytes@.len() as int)) =~= Seq::<char>::empty());
                assert(r@ =~= r_start + percent_bytes(encode_scalar(c as u32)));
            }
        }
        i = i + 1;
    }
    proof {
        assert(uri_encoded(s@.skip(s@.len() as int), keep_slash) =~= Seq::<char>::empty());
        assert(r@ =~= uri_encoded(s@, keep_slash));
    }
    r
}

} // verus!
