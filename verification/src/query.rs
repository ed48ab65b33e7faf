//! Canonical query-string construction.
//!
//! The query string is split on `&` into components, each component is
//! split at its first `=` into a key and a value, keys and values are
//! URI-encoded, the pairs are sorted (by key, then by value), and the
//! result is joined back as `key=value` pairs separated by `&`. An empty
//! query canonicalizes to the empty string.

use vstd::prelude::*;
use crate::encode::uri_encode;
use crate::encode::uri_encoded;
use crate::text::find_char;
use crate::text::find_from;
use crate::text::lemma_find_from_bounds;
use crate::text::chars_to_string;
use crate::text::str_chars;

verus! {

/// The components of `q` from index `i` on, split on `&`.
pub open spec fn split_components_from(q: Seq<char>, i: int) -> Seq<Seq<char>>
    decreases q.len() - i,
        via split_components_from_decreases
{
    let j = find_from(q, i, '&');
    if j >= q.len() {
        seq![q.subrange(i, q.len() as int)]
    } else {
        seq![q.subrange(i, j)] + split_components_from(q, j + 1)
    }
}

#[via_fn]
proof fn split_components_from_decreases(q: Seq<char>, i: int) {
    lemma_find_from_bounds(q, i, '&');
}

/// An encoded key/value pair: the component up to its first `=` is the
/// key, the rest the value; both are URI-encoded.
pub open spec fn pair_of_component(comp: Seq<char>) -> (Seq<char>, Seq<char>) {
    let e = find_from(comp, 0, '=');
    if e >= comp.len() {
        (uri_encoded(comp, false), Seq::empty())
    } else {
        (
            uri_encoded(comp.subrange(0, e), false),
            uri_encoded(comp.subrange(e + 1, comp.len() as int), false),
        )
    }
}

/// Lexicographic order on character sequences by scalar value, with a
/// prefix ordered before its extensions.
pub open spec fn chars_le(a: Seq<char>, b: Seq<char>) -> bool
    decreases a.len(),
{
    if a.len() == 0 {
        true
    } else if b.len() == 0 {
        false
    } else if a.first() != b.first() {
        (a.first() as u32) < (b.first() as u32)
    } else {
        chars_le(a.drop_first(), b.drop_first())
    }
}

/// Pair order: by key, and by value between pairs with equal keys.
pub open spec fn pair_le(p: (Seq<char>, Seq<char>), q: (Seq<char>, Seq<char>)) -> bool {
    if p.0 == q.0 {
        chars_le(p.1, q.1)
    } else {
        chars_le(p.0, q.0)
    }
}

/// Insertion of `p` into `s` after every element ordered at or before it.
pub open spec fn insert_pair(
    p: (Seq<char>, Seq<char>),
    s: Seq<(Seq<char>, Seq<char>)>,
) -> Seq<(Seq<char>, Seq<char>)>
    decreases s.len(),
{
    if s.len() == 0 {
        seq![p]
    } else if pair_le(s.first(), p) {
        seq![s.first()] + insert_pair(p, s.drop_first())
    } else {
        seq![p] + s
    }
}

/// Insertion sort of the pairs, stable in input order.
pub open spec fn sort_pairs(s: Seq<(Seq<char>, Seq<char>)>) -> Seq<(Seq<char>, Seq<char>)>
    decreases s.len(),
{
    if s.len() == 0 {
        Seq::empty()
    } else {
        insert_pair(s.last(), sort_pairs(s.drop_last()))
    }
}

/// One pair rendered as `key=value`.
pub open spec fn pair_text(p: (Seq<char>, Seq<char>)) -> Seq<char> {
    p.0 + seq!['='] + p.1
}

/// The pairs rendered and joined with `&`.
pub open spec fn join_pairs(s: Seq<(Seq<char>, Seq<char>)>) -> Seq<char>
    decreases s.len(),
{
    if s.len() == 0 {
        Seq::empty()
    } else if s.len() == 1 {
        pair_text(s.first())
    } else {
        join_pairs(s.drop_last()) + seq!['&'] + pair_text(s.last())
    }
}

/// The canonical form of a query string.
pub open spec fn spec_canonical_query(q: Seq<char>) -> Seq<char> {
    if q.len() == 0 {
        Seq::empty()
    } else {
        join_pairs(sort_pairs(split_components_from(q, 0).map_values(|c| pair_of_component(c))))
    }
}

/// One key/value pair of the query string, already URI-encoded.
pub struct QueryPair {
    pub key: Vec<char>,
    pub value: Vec<char>,
}

impl View for QueryPair {
    type V = (Seq<char>, Seq<char>);

    open spec fn view(&self) -> (Seq<char>, Seq<char>) {
        (self.key@, self.value@)
    }
}

/// The views of a sequence of character vectors.
pub open spec fn seqs_of(v: Seq<Vec<char>>) -> Seq<Seq<char>> {
    v.map_values(|c: Vec<char>| c@)
}

/// The views of a sequence of pairs.
pub open spec fn pairs_of(v: Seq<QueryPair>) -> Seq<(Seq<char>, Seq<char>)> {
    v.map_values(|p: QueryPair| p@)
}

/// The subrange `v[a..b]` as a fresh vector.
fn subvec(v: &Vec<char>, a: usize, b: usize) -> (r: Vec<char>)
    requires
        a <= b <= v@.len(),
    ensures
        r@ == v@.subrange(a as int, b as int),
{
    let mut r: Vec<char> = Vec::new();
    let mut i = a;
    while i < b
        invariant
            a <= i <= b <= v@.len(),
            r@ == v@.subrange(a as int, i as int),
        decreases b - i,
    {
        r.push(v[i]);
        proof {
            assert(v@.subrange(a as int, i as int + 1) =~= v@.subrange(a as int, i as int).push(
                v@[i as int],
            ));
        }
        i = i + 1;
    }
    r
}

/// Splits `q[start..]` on `&` and appends the components to `comps`.
fn split_components(q: &Vec<char>, start: usize, comps: &mut Vec<Vec<char>>)
    requires
        start <= q@.len(),
    ensures
        seqs_of(final(comps)@) == seqs_of(old(comps)@) + split_components_from(
            q@,
            start as int,
        ),
    decreases q@.len() - start,
{
    let j = find_char(q, start, '&');
    let comp = subvec(q, start, j);
    comps.push(comp);
    if j < q.len() {
        split_components(q, j + 1, comps);
    }
    proof {
        assert(seqs_of(comps@) =~= seqs_of(old(comps)@) + split_components_from(
            q@,
            start as int,
        ));
    }
}

/// The encoded pair of one component.
fn component_pair(comp: &Vec<char>) -> (r: QueryPair)
    ensures
        r@ == pair_of_component(comp@),
{
    let e = find_char(comp, 0, '=');
    if e >= comp.len() {
        let key = uri_encode(comp, false);
        proof {
            assert(comp@.subrange(0, comp@.len() as int) =~= comp@);
        }
        QueryPair { key, value: Vec::new() }
    } else {
        let key_raw = subvec(comp, 0, e);
        let value_raw = subvec(comp, e + 1, comp.len());
        let key = uri_encode(&key_raw, false);
        let value = uri_encode(&value_raw, false);
        QueryPair { key, value }
    }
}

fn chars_le_from(a: &Vec<char>, b: &Vec<char>, i: usize) -> (r: bool)
    requires
        i <= a@.len(),
        i <= b@.len(),
    ensures
        r == chars_le(a@.skip(i as int), b@.skip(i as int)),
    decreases a@.len() - i,
{
    proof {
        if i < a@.len() {
            assert(a@.skip(i as int).first() == a@[i as int]);
            assert(a@.skip(i as int).drop_first() =~= a@.skip(i as int + 1));
        }
        if i < b@.len() {
            assert(b@.skip(i as int).first() == b@[i as int]);
            assert(b@.skip(i as int).drop_first() =~= b@.skip(i as int + 1));
        }
    }
    if i == a.len() {
        true
    } else if i == b.len() {
        false
    } else if a[i] == b[i] {
        chars_le_from(a, b, i + 1)
    } else {
        (a[i] as u32) < (b[i] as u32)
    }
}

fn chars_eq(a: &Vec<char>, b: &Vec<char>) -> (r: bool)
    ensures
        r == (a@ == b@),
{
    if a.len() != b.len() {
        return false;
    }
    let mut i: usize = 0;
    while i < a.len()
        invariant
            i <= a@.len(),
            a@.len() == b@.len(),
            forall|k: int| 0 <= k < i ==> a@[k] == b@[k],
        decreases a@.len() - i,
    {
        if a[i] != b[i] {
            return false;
        }
        i = i + 1;
    }
    proof {
        assert(a@ =~= b@);
    }
    true
}

fn pair_le_exec(p: &QueryPair, q: &QueryPair) -> (r: bool)
    ensures
        r == pair_le(p@, q@),
{
    proof {
        assert(p.key@.skip(0) =~= p.key@);
        assert(q.key@.skip(0) =~= q.key@);
        assert(p.value@.skip(0) =~= p.value@);
        assert(q.value@.skip(0) =~= q.value@);
    }
    if chars_eq(&p.key, &q.key) {
        chars_le_from(&p.value, &q.value, 0)
    } else {
        chars_le_from(&p.key, &q.key, 0)
    }
}

/// Insertion at position `k` is what `insert_pair` computes when every
/// earlier element is ordered at or before `p` and the element at `k`,
/// if any, is not.
proof fn lemma_insert_at(
    s: Seq<(Seq<char>, Seq<char>)>,
    p: (Seq<char>, Seq<char>),
    k: int,
)
    requires
        0 <= k <= s.len(),
        forall|m: int| 0 <= m < k ==> pair_le(s[m], p),
        k < s.len() ==> !pair_le(s[k], p),
    ensures
        insert_pair(p, s) == s.take(k) + seq![p] + s.skip(k),
    decreases k,
{
    if s.len() == 0 {
        assert(insert_pair(p, s) =~= s.take(k) + seq![p] + s.skip(k));
    } else if k == 0 {
        assert(insert_pair(p, s) =~= s.take(k) + seq![p] + s.skip(k));
    } else {
        assert(pair_le(s[0], p));
        assert(s.first() == s[0]);
        let t = s.drop_first();
        assert(forall|m: int| 0 <= m < k - 1 ==> t[m] == s[m + 1]);
        lemma_insert_at(t, p, k - 1);
        assert(insert_pair(p, s) == seq![s[0]] + (t.take(k - 1) + seq![p] + t.skip(k - 1)));
        assert(seq![s[0]] + (t.take(k - 1) + seq![p] + t.skip(k - 1)) =~= s.take(k) + seq![p]
            + s.skip(k));
    }
}

/// Inserts `p` into `out` as `insert_pair` describes.
fn insert_pair_exec(out: &mut Vec<QueryPair>, p: QueryPair)
    ensures
        pairs_of(final(out)@) == insert_pair(p@, pairs_of(old(out)@)),
{
    let n = out.len();
    let mut k: usize = 0;
    while k < n && pair_le_exec(&out[k], &p)
        invariant
            k <= n,
            n == out@.len(),
            out == old(out),
            forall|m: int| 0 <= m < k ==> pair_le(pairs_of(out@)[m], p@),
        decreases n - k,
    {
        k = k + 1;
    }
    proof {
        lemma_insert_at(pairs_of(out@), p@, k as int);
    }
    out.insert(k, p);
    proof {
        assert(pairs_of(out@) =~= pairs_of(old(out)@).take(k as int) + seq![p@] + pairs_of(
            old(out)@,
        ).skip(k as int));
    }
}

/// Sorts the pairs as `sort_pairs` describes.
fn sort_pairs_exec(pairs: Vec<QueryPair>) -> (r: Vec<QueryPair>)
    ensures
        pairs_of(r@) == sort_pairs(pairs_of(pairs@)),
{
    let ghost orig = pairs@;
    let mut rest = pairs;
    let mut out: Vec<QueryPair> = Vec::new();
    proof {
        assert(rest@ =~= orig.skip(0));
        assert(pairs_of(orig.take(0)) =~= Seq::<(Seq<char>, Seq<char>)>::empty());
        assert(pairs_of(out@) =~= sort_pairs(pairs_of(orig.take(0))));
    }
    while rest.len() > 0
        invariant
            rest@ =~= orig.skip(orig.len() - rest@.len()),
            rest@.len() <= orig.len(),
            pairs_of(out@) == sort_pairs(pairs_of(orig.take(orig.len() - rest@.len()))),
        decreases rest@.len(),
    {
        let ghost i = orig.len() - rest@.len();
        let p = rest.remove(0);
        proof {
            assert(p == orig[i]);
            assert(rest@ =~= orig.skip(i + 1));
            assert(pairs_of(orig.take(i + 1)).drop_last() =~= pairs_of(orig.take(i)));
            assert(pairs_of(orig.take(i + 1)).last() == orig[i]@);
        }
        insert_pair_exec(&mut out, p);
    }
    proof {
        assert(orig.take(orig.len() as int) =~= orig);
    }
    out
}

/// Renders the sorted pairs as `join_pairs` describes.
fn join_pairs_exec(pairs: &Vec<QueryPair>) -> (r: Vec<char>)
    ensures
        r@ == join_pairs(pairs_of(pairs@)),
{
    let mut r: Vec<char> = Vec::new();
    let mut i: usize = 0;
    while i < pairs.len()
        invariant
            i <= pairs@.len(),
            r@ == join_pairs(pairs_of(pairs@).take(i as int)),
        decreases pairs@.len() - i,
    {
        proof {
            let pv = pairs_of(pairs@);
            assert(pv.take(i as int + 1).drop_last() =~= pv.take(i as int));
            assert(pv.take(i as int + 1).last() == pv[i as int]);
            if i == 0 {
                assert(pv.take(1).first() == pv[0]);
            }
        }
        if i > 0 {
            r.push('&');
        }
        let mut piece = subvec(&pairs[i].key, 0, pairs[i].key.len());
        proof {
            assert(pairs[i as int].key@.subrange(0, pairs[i as int].key@.len() as int)
                =~= pairs[i as int].key@);
        }
        r.append(&mut piece);
        r.push('=');
        let mut piece2 = subvec(&pairs[i].value, 0, pairs[i].value.len());
        proof {
            assert(pairs[i as int].value@.subrange(0, pairs[i as int].value@.len() as int)
                =~= pairs[i as int].value@);
        }
        r.append(&mut piece2);
        proof {
            assert(r@ =~= join_pairs(pairs_of(pairs@).take(i as int + 1)));
        }
        i = i + 1;
    }
    proof {
        assert(pairs_of(pairs@).take(pairs@.len() as int) =~= pairs_of(pairs@));
    }
    r
}

/// The canonical query string of `query`: components split on `&`,
/// keys and values URI-encoded, pairs sorted by key then value, joined
/// with `=` and `&`; empty input stays empty.
pub fn canonical_query_string(query: &str) -> (r: String)
    ensures
        r@ == spec_canonical_query(query@),
{
    let v = str_chars(query);
    if v.len() == 0 {
        return String::new();
    }
    let mut comps: Vec<Vec<char>> = Vec::new();
    split_components(&v, 0, &mut comps);
    proof {
        assert(seqs_of(comps@) =~= split_components_from(v@, 0));
    }
    let mut pairs: Vec<QueryPair> = Vec::new();
    let mut i: usize = 0;
    while i < comps.len()
        invariant
            i <= comps@.len(),
            pairs@.len() == i,
            forall|k: int| 0 <= k < i ==> pairs@[k]@ == pair_of_component(comps@[k]@),
        decreases comps@.len() - i,
    {
        let p = component_pair(&comps[i]);
        pairs.push(p);
        i = i + 1;
    }
    proof {
        assert(pairs_of(pairs@) =~= seqs_of(comps@).map_values(|c| pair_of_component(c)));
    }
    let sorted = sort_pairs_exec(pairs);
    let joined = join_pairs_exec(&sorted);
    chars_to_string(&joined)
}

} // verus!
