//! Facts about lists.
use crate::model::{from_position, other_than};
use vstd::prelude::*;

verus! {

/// Every id is greater than the ones before it.
pub open spec fn ascending(ids: Seq<u64>) -> bool {
    forall|i: int, j: int| 0 <= i < j < ids.len() ==> ids[i] < ids[j]
}

/// Dropping one id from an ascending list leaves an ascending list of the others.
pub(crate) proof fn lemma_drop_id(ids: Seq<u64>, id: u64)
    requires
        ascending(ids),
    ensures
        ascending(ids.filter(other_than(id))),
        forall|other: u64| #[trigger]
            ids.filter(other_than(id)).contains(other) <==> ids.contains(other) && other != id,
    decreases ids.len(),
{
    let kept = ids.filter(other_than(id));
    if ids.len() > 0 {
        let rest = ids.drop_last();
        let last = ids.last();
        assert(ascending(rest));
        lemma_drop_id(rest, id);
        assert(ids =~= rest.push(last));
        rest.lemma_filter_push(last, other_than(id));
        let kept_rest = rest.filter(other_than(id));
        assert forall|i: int| 0 <= i < kept_rest.len() implies kept_rest[i] < last by {
            assert(kept_rest.contains(kept_rest[i]));
            assert(rest.contains(kept_rest[i]));
        }
        assert forall|other: u64| #[trigger]
            kept.contains(other) <==> ids.contains(other) && other != id by {
            assert(ids.contains(other) <==> rest.contains(other) || other == last) by {
                if rest.contains(other) {
                    let k = choose|k: int| 0 <= k < rest.len() && rest[k] == other;
                    assert(ids[k] == other);
                }
                assert(ids[ids.len() - 1] == last);
            }
            if last != id {
                assert(kept =~= kept_rest.push(last));
                if kept_rest.contains(other) {
                    let k = choose|k: int| 0 <= k < kept_rest.len() && kept_rest[k] == other;
                    assert(kept[k] == other);
                }
                assert(kept[kept.len() - 1] == last);
            } else {
                assert(kept =~= kept_rest);
            }
        }
    }
}

/// Dropping an id that is not there changes nothing.
pub(crate) proof fn lemma_drop_absent_id(ids: Seq<u64>, id: u64)
    requires
        !ids.contains(id),
    ensures
        ids.filter(other_than(id)) == ids,
    decreases ids.len(),
{
    if ids.len() > 0 {
        let rest = ids.drop_last();
        assert(ids =~= rest.push(ids.last()));
        assert(!rest.contains(id)) by {
            if rest.contains(id) {
                let k = choose|k: int| 0 <= k < rest.len() && rest[k] == id;
                assert(ids[k] == id);
            }
        }
        assert(ids[ids.len() - 1] == ids.last());
        lemma_drop_absent_id(rest, id);
        rest.lemma_filter_push(ids.last(), other_than(id));
    }
}

/// Adding an id that is greater than all others keeps a list ascending.
pub(crate) proof fn lemma_add_id(ids: Seq<u64>, id: u64)
    requires
        ascending(ids),
        forall|other: u64| #[trigger] ids.contains(other) ==> other < id,
    ensures
        ascending(ids.push(id)),
        forall|other: u64| #[trigger]
            ids.push(id).contains(other) <==> ids.contains(other) || other == id,
{
    let longer = ids.push(id);
    assert forall|i: int, j: int| 0 <= i < j < longer.len() implies longer[i] < longer[j] by {
        assert(ids.contains(ids[i]));
    }
    assert forall|other: u64| #[trigger]
        longer.contains(other) <==> ids.contains(other) || other == id by {
        if ids.contains(other) {
            let k = choose|k: int| 0 <= k < ids.len() && ids[k] == other;
            assert(longer[k] == other);
        }
        assert(longer[ids.len() as int] == id);
    }
}

/// The part of a list that `filter_map` keeps is made up of what it keeps of the
/// list's two halves.
proof fn lemma_filter_map_add<A, B>(a: Seq<A>, b: Seq<A>, f: spec_fn(A) -> Option<B>)
    ensures
        (a + b).filter_map(f) == a.filter_map(f) + b.filter_map(f),
    decreases b.len(),
{
    if b.len() == 0 {
        assert(a + b =~= a);
        assert(a.filter_map(f) + b.filter_map(f) =~= a.filter_map(f));
    } else {
        assert((a + b).drop_last() =~= a + b.drop_last());
        lemma_filter_map_add(a, b.drop_last(), f);
        assert((a + b).filter_map(f) =~= a.filter_map(f) + b.filter_map(f));
    }
}

/// What is kept of a list from a position on starts with what is kept of the item
/// there.
pub(crate) proof fn lemma_filter_map_head<A, B>(s: Seq<A>, i: int, f: spec_fn(A) -> Option<B>)
    requires
        0 <= i < s.len(),
    ensures
        from_position(s, i).filter_map(f) == (match f(s[i]) {
            Some(b) => seq![b],
            None => Seq::empty(),
        }) + from_position(s, i + 1).filter_map(f),
{
    assert(s.skip(i) =~= seq![s[i]] + from_position(s, i + 1));
    lemma_filter_map_add(seq![s[i]], from_position(s, i + 1), f);
    Seq::lemma_filter_map_singleton(s[i], f);
}

/// Where every item is kept, `filter_map` maps one by one.
pub(crate) proof fn lemma_filter_map_total<A, B>(
    s: Seq<A>,
    f: spec_fn(A) -> Option<B>,
    g: spec_fn(A) -> B,
)
    requires
        forall|i: int| 0 <= i < s.len() ==> f(#[trigger] s[i]) == Some(g(s[i])),
    ensures
        s.filter_map(f) == s.map_values(g),
    decreases s.len(),
{
    if s.len() == 0 {
        assert(s.filter_map(f) =~= s.map_values(g));
    } else {
        lemma_filter_map_total(s.drop_last(), f, g);
        assert(f(s[s.len() - 1]) == Some(g(s[s.len() - 1])));
        assert(s.filter_map(f) =~= s.map_values(g));
    }
}

/// What `filter_map` keeps depends on what is made of the items of the list.
pub(crate) proof fn lemma_filter_map_same<A, B>(
    s: Seq<A>,
    f: spec_fn(A) -> Option<B>,
    g: spec_fn(A) -> Option<B>,
)
    requires
        forall|i: int| 0 <= i < s.len() ==> f(#[trigger] s[i]) == g(s[i]),
    ensures
        s.filter_map(f) == s.filter_map(g),
    decreases s.len(),
{
    if s.len() > 0 {
        lemma_filter_map_same(s.drop_last(), f, g);
        assert(f(s[s.len() - 1]) == g(s[s.len() - 1]));
    }
}

} // verus!
