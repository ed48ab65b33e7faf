//! Origins and the edge-location routing table.

use vstd::prelude::*;
use crate::text::str_eq;

verus! {

/// A logical storage backend serving a geographic region.
pub struct Origin {
    /// The name of the storage backend the platform should dispatch to.
    pub backend_name: String,
    /// The name of the bucket to serve content from.
    pub bucket_name: String,
    /// The host that the bucket is served on.
    pub bucket_host: String,
}

/// The mathematical value of an [`Origin`]: its three fields as
/// character sequences.
pub struct OriginView {
    pub backend_name: Seq<char>,
    pub bucket_name: Seq<char>,
    pub bucket_host: Seq<char>,
}

impl View for Origin {
    type V = OriginView;

    open spec fn view(&self) -> OriginView {
        OriginView {
            backend_name: self.backend_name@,
            bucket_name: self.bucket_name@,
            bucket_host: self.bucket_host@,
        }
    }
}

impl Origin {
    /// A copy of this origin with the same view.
    pub fn duplicate(&self) -> (r: Origin)
        ensures
            r@ == self@,
    {
        Origin {
            backend_name: self.backend_name.clone(),
            bucket_name: self.bucket_name.clone(),
            bucket_host: self.bucket_host.clone(),
        }
    }
}

/// One routing entry: an edge-location code and the origin it routes to.
pub struct TableEntry {
    pub pop: String,
    pub origin: Origin,
}

/// The mathematical value of a [`TableEntry`].
pub struct TableEntryView {
    pub pop: Seq<char>,
    pub origin: OriginView,
}

impl View for TableEntry {
    type V = TableEntryView;

    open spec fn view(&self) -> TableEntryView {
        TableEntryView { pop: self.pop@, origin: self.origin@ }
    }
}

/// The routing table: an immutable list of entries, looked up by exact,
/// case-sensitive match on the edge-location code; the first matching
/// entry wins.
pub struct OriginTable {
    pub entries: Vec<TableEntry>,
}

impl View for OriginTable {
    type V = Seq<TableEntryView>;

    open spec fn view(&self) -> Seq<TableEntryView> {
        self.entries@.map_values(|e: TableEntry| e@)
    }
}

/// The origin that the table maps `pop` to: the origin of the first entry
/// whose code equals `pop`, if any.
pub open spec fn spec_lookup(t: Seq<TableEntryView>, pop: Seq<char>) -> Option<OriginView>
    decreases t.len(),
{
    if t.len() == 0 {
        None
    } else if t.first().pop == pop {
        Some(t.first().origin)
    } else {
        spec_lookup(t.drop_first(), pop)
    }
}

/// What `select` returns: the mapped origin on a hit, the fallback on a
/// miss.
pub open spec fn spec_select(
    t: Seq<TableEntryView>,
    pop: Seq<char>,
    fallback: OriginView,
) -> OriginView {
    match spec_lookup(t, pop) {
        Some(o) => o,
        None => fallback,
    }
}

/// Maps an edge-location code to the origin that should serve it.
///
/// Total: any string is a legal (if absent) key, and a miss yields the
/// fallback origin.
pub fn select<'a>(edge_location: &str, table: &'a OriginTable, fallback: &'a Origin) -> (r:
    &'a Origin)
    ensures
        r@ == spec_select(table@, edge_location@, fallback@),
{
    let n = table.entries.len();
    let mut i: usize = 0;
    proof {
        assert(table@.skip(0) =~= table@);
    }
    while i < n
        invariant
            i <= n,
            n == table.entries@.len(),
            table@ == table.entries@.map_values(|e: TableEntry| e@),
            spec_lookup(table@, edge_location@) == spec_lookup(
                table@.skip(i as int),
                edge_location@,
            ),
        decreases n - i,
    {
        proof {
            assert(table@[i as int] == table.entries@[i as int]@);
            assert(table@.skip(i as int).first() == table@[i as int]);
            assert(table@.skip(i as int).drop_first() =~= table@.skip(i as int + 1));
        }
        if str_eq(table.entries[i].pop.as_str(), edge_location) {
            return &table.entries[i].origin;
        }
        i = i + 1;
    }
    fallback
}

/// A code that matches no entry selects the fallback: if `pop` differs
/// from every entry's code, the lookup misses.
pub proof fn lemma_lookup_absent(t: Seq<TableEntryView>, pop: Seq<char>)
    requires
        forall|i: int| 0 <= i < t.len() ==> t[i].pop != pop,
    ensures
        spec_lookup(t, pop) is None,
    decreases t.len(),
{
    if t.len() > 0 {
        assert(t.first() == t[0]);
        assert(forall|i: int| 0 <= i < t.drop_first().len() ==> t.drop_first()[i] == t[i + 1]);
        lemma_lookup_absent(t.drop_first(), pop);
    }
}

/// A code present in a table with pairwise-distinct codes selects exactly
/// the origin it is mapped to.
pub proof fn lemma_lookup_present(t: Seq<TableEntryView>, pop: Seq<char>, i: int)
    requires
        0 <= i < t.len(),
        t[i].pop == pop,
        forall|j: int, k: int| 0 <= j < k < t.len() ==> t[j].pop != t[k].pop,
    ensures
        spec_lookup(t, pop) == Some(t[i].origin),
    decreases t.len(),
{
    assert(t.first() == t[0]);
    if i == 0 {
    } else {
        assert(t[0].pop != pop);
        assert(forall|j: int| 0 <= j < t.drop_first().len() ==> t.drop_first()[j] == t[j + 1]);
        lemma_lookup_present(t.drop_first(), pop, i - 1);
    }
}

} // verus!
