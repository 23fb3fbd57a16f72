use vstd::prelude::*;
use crate::record::CacheEntry;

verus! {

/// The view of one cache record: canonical path, then caption and resolution.
pub type EntryView = (Seq<char>, (Seq<char>, (u32, u32)));

/// The mapping from canonical path to metadata that a sequence of records
/// describes; where a path occurs twice, the later record wins.
pub open spec fn cache_map(entries: Seq<EntryView>) -> Map<Seq<char>, (Seq<char>, (u32, u32))>
    decreases entries.len(),
{
    if entries.len() == 0 {
        Map::empty()
    } else {
        cache_map(entries.drop_last()).insert(entries.last().0, entries.last().1)
    }
}

/// The views of a sequence of records.
pub open spec fn entries_view(entries: Seq<CacheEntry>) -> Seq<EntryView> {
    entries.map_values(|e: CacheEntry| e@)
}

/// No path is given two different records.
pub open spec fn consistent(entries: Seq<EntryView>) -> bool {
    forall|i: int, j: int|
        0 <= i < entries.len() && 0 <= j < entries.len() && #[trigger] entries[i].0
            == #[trigger] entries[j].0 ==> entries[i].1 == entries[j].1
}

/// The paths of a consistent sequence of records are the keys of its
/// mapping, and each record is what its path maps to.
pub proof fn lemma_cache_map_members(entries: Seq<EntryView>)
    requires
        consistent(entries),
    ensures
        forall|k: Seq<char>|
            cache_map(entries).contains_key(k) <==> exists|i: int|
                0 <= i < entries.len() && #[trigger] entries[i].0 == k,
        forall|i: int|
            0 <= i < entries.len() ==> cache_map(entries)[#[trigger] entries[i].0]
                == entries[i].1,
    decreases entries.len(),
{
    if entries.len() > 0 {
        let rest = entries.drop_last();
        assert forall|i: int, j: int|
            0 <= i < rest.len() && 0 <= j < rest.len() && #[trigger] rest[i].0
                == #[trigger] rest[j].0 implies rest[i].1 == rest[j].1 by {
            assert(rest[i] == entries[i] && rest[j] == entries[j]);
        }
        lemma_cache_map_members(rest);
        let n = entries.len() - 1;
        assert(entries.last() == entries[n]);
        assert(cache_map(entries) == cache_map(rest).insert(entries[n].0, entries[n].1));
        assert forall|k: Seq<char>|
            cache_map(entries).contains_key(k) <==> exists|i: int|
                0 <= i < entries.len() && #[trigger] entries[i].0 == k by {
            if cache_map(entries).contains_key(k) && k != entries[n].0 {
                assert(cache_map(rest).contains_key(k));
                let i = choose|i: int| 0 <= i < rest.len() && #[trigger] rest[i].0 == k;
                assert(entries[i] == rest[i]);
            }
            if exists|i: int| 0 <= i < entries.len() && #[trigger] entries[i].0 == k {
                let i = choose|i: int| 0 <= i < entries.len() && #[trigger] entries[i].0 == k;
                if i < n {
                    assert(rest[i] == entries[i]);
                }
            }
        }
        assert forall|i: int| 0 <= i < entries.len() implies cache_map(entries)[
            #[trigger] entries[i].0] == entries[i].1 by {
            if i < n {
                assert(rest[i] == entries[i]);
            }
        }
    }
}

/// The mapping does not depend on the order in which the records arrived:
/// two runs that collect the same records, each path with a single record,
/// describe the same mapping whatever order their extractions completed in.
pub proof fn lemma_cache_order_independent(a: Seq<EntryView>, b: Seq<EntryView>)
    requires
        a.to_multiset() == b.to_multiset(),
        consistent(a),
    ensures
        cache_map(a) == cache_map(b),
{
    broadcast use vstd::seq_lib::group_to_multiset_ensures;

    assert forall|x: EntryView| a.contains(x) <==> b.contains(x) by {
        assert(a.to_multiset().count(x) == b.to_multiset().count(x));
    }
    assert forall|i: int, j: int|
        0 <= i < b.len() && 0 <= j < b.len() && #[trigger] b[i].0 == #[trigger] b[j].0 implies b[i].1
        == b[j].1 by {
        assert(a.contains(b[i]) && a.contains(b[j]));
        let p = choose|p: int| 0 <= p < a.len() && a[p] == b[i];
        let q = choose|q: int| 0 <= q < a.len() && a[q] == b[j];
        assert(a[p].0 == a[q].0);
    }
    lemma_cache_map_members(a);
    lemma_cache_map_members(b);
    assert forall|k: Seq<char>| #[trigger] cache_map(a).contains_key(k) implies cache_map(
        b,
    ).contains_key(k) && cache_map(a)[k] == cache_map(b)[k] by {
        let i = choose|i: int| 0 <= i < a.len() && #[trigger] a[i].0 == k;
        assert(b.contains(a[i]));
        let j = choose|j: int| 0 <= j < b.len() && b[j] == a[i];
        assert(b[j].0 == k);
    }
    assert forall|k: Seq<char>| #[trigger] cache_map(b).contains_key(k) implies cache_map(
        a,
    ).contains_key(k) by {
        let j = choose|j: int| 0 <= j < b.len() && #[trigger] b[j].0 == k;
        assert(a.contains(b[j]));
        let i = choose|i: int| 0 <= i < a.len() && a[i] == b[j];
        assert(a[i].0 == k);
    }
    assert(cache_map(a) =~= cache_map(b));
}

} // verus!
