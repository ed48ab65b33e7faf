//! The signing timestamp and its fixed-width text forms.
//!
//! The signer never reads a clock; the caller supplies the instant, and
//! these functions render it as the `YYYYMMDD` date and the
//! `YYYYMMDDTHHMMSSZ` timestamp that the signing scheme uses.

use vstd::prelude::*;
use crate::text::chars_to_string;

verus! {

/// A UTC wall-clock instant, supplied by the caller of the signer.
#[derive(Clone, Copy)]
pub struct Timestamp {
    pub year: u32,
    pub month: u32,
    pub day: u32,
    pub hour: u32,
    pub minute: u32,
    pub second: u32,
}

impl Timestamp {
    /// Field ranges of a real instant, under which the text forms have
    /// their fixed widths.
    pub open spec fn wf(&self) -> bool {
        self.year <= 9999 && 1 <= self.month <= 12 && 1 <= self.day <= 31 && self.hour <= 23
            && self.minute <= 59 && self.second <= 59
    }
}

/// The decimal digit character for `d`.
pub open spec fn digit_char(d: int) -> char {
    ((48 + d) as u8) as char
}

/// `n` as two decimal digits.
pub open spec fn pad2(n: int) -> Seq<char> {
    seq![digit_char(n / 10), digit_char(n % 10)]
}

/// `n` as four decimal digits.
pub open spec fn pad4(n: int) -> Seq<char> {
    seq![
        digit_char(n / 1000),
        digit_char((n / 100) % 10),
        digit_char((n / 10) % 10),
        digit_char(n % 10),
    ]
}

/// The date part, `YYYYMMDD`.
pub open spec fn spec_date8(ts: Timestamp) -> Seq<char> {
    pad4(ts.year as int) + pad2(ts.month as int) + pad2(ts.day as int)
}

/// The full timestamp, `YYYYMMDDTHHMMSSZ`.
pub open spec fn spec_amz_date(ts: Timestamp) -> Seq<char> {
    spec_date8(ts) + seq!['T'] + pad2(ts.hour as int) + pad2(ts.minute as int) + pad2(
        ts.second as int,
    ) + seq!['Z']
}

fn digit(d: u32) -> (c: char)
    requires
        d <= 9,
    ensures
        c == digit_char(d as int),
{
    (48 + d as u8) as char
}

fn push_pad2(v: &mut Vec<char>, n: u32)
    requires
        n <= 99,
    ensures
        final(v)@ == old(v)@ + pad2(n as int),
{
    v.push(digit(n / 10));
    v.push(digit(n % 10));
    proof {
        assert(v@ =~= old(v)@ + pad2(n as int));
    }
}

fn push_pad4(v: &mut Vec<char>, n: u32)
    requires
        n <= 9999,
    ensures
        final(v)@ == old(v)@ + pad4(n as int),
{
    v.push(digit(n / 1000));
    v.push(digit((n / 100) % 10));
    v.push(digit((n / 10) % 10));
    v.push(digit(n % 10));
    proof {
        assert(v@ =~= old(v)@ + pad4(n as int));
    }
}

/// Renders the date part of `ts` as `YYYYMMDD`.
pub fn format_date8(ts: &Timestamp) -> (r: String)
    requires
        ts.wf(),
    ensures
        r@ == spec_date8(*ts),
{
    let mut v: Vec<char> = Vec::new();
    push_pad4(&mut v, ts.year);
    push_pad2(&mut v, ts.month);
    push_pad2(&mut v, ts.day);
    proof {
        assert(v@ =~= spec_date8(*ts));
    }
    chars_to_string(&v)
}

/// Renders `ts` as `YYYYMMDDTHHMMSSZ`.
pub fn format_amz_date(ts: &Timestamp) -> (r: String)
    requires
        ts.wf(),
    ensures
        r@ == spec_amz_date(*ts),
{
    let mut v: Vec<char> = Vec::new();
    push_pad4(&mut v, ts.year);
    push_pad2(&mut v, ts.month);
    push_pad2(&mut v, ts.day);
    v.push('T');
    push_pad2(&mut v, ts.hour);
    push_pad2(&mut v, ts.minute);
    push_pad2(&mut v, ts.second);
    v.push('Z');
    proof {
        assert(v@ =~= spec_amz_date(*ts));
    }
    chars_to_string(&v)
}

} // verus!
