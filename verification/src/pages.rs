//! What the lists of listings show.
use crate::consistency::consistent;
use crate::ledger::LedgerView;
use crate::lists::{lemma_filter_map_head, lemma_filter_map_same, lemma_filter_map_total};
use crate::model::{active_page, at_most, from_position, on_sale, stored};
use crate::types::{Address, DataKey, Listing};
use vstd::prelude::*;

verus! {

/// The listings of a list of ids.
pub open spec fn listings_of(l: LedgerView, ids: Seq<u64>) -> Seq<Listing> {
    ids.map_values(|id: u64| l.listings[id])
}

/// A page of the active listings holds at most as many as were asked for, all of
/// them active.
pub proof fn pages_show_active_listings(
    ids: Seq<u64>,
    listings: Map<u64, Listing>,
    start: int,
    limit: int,
)
    requires
        0 <= start,
        0 <= limit,
    ensures
        active_page(ids, listings, start, limit).len() <= limit,
        forall|i: int|
            0 <= i < active_page(ids, listings, start, limit).len() ==> (
            #[trigger] active_page(ids, listings, start, limit)[i]).active,
{
    let all = from_position(ids, start).filter_map(on_sale(listings));
    assert forall|i: int| 0 <= i < all.len() implies (#[trigger] all[i]).active by {
        assert(all.contains(all[i]));
        from_position(ids, start).lemma_filter_map_contains(on_sale(listings), all[i]);
    }
}

/// A page of the active listings leaves none out: it holds those of the ids at
/// the positions from `start` on, one by one.
pub proof fn pages_have_no_gaps(l: LedgerView, start: int, limit: int)
    requires
        consistent(l),
        0 <= start,
        0 <= limit,
    ensures
        active_page(l.active_ids(), l.listings, start, limit) == listings_of(
            l,
            at_most(from_position(l.active_ids(), start), limit),
        ),
{
    let ids = from_position(l.active_ids(), start);
    let g = |id: u64| l.listings[id];
    assert forall|i: int| 0 <= i < ids.len() implies on_sale(l.listings)(#[trigger] ids[i]) == Some(
        g(ids[i]),
    ) by {
        assert(ids[i] == l.active_ids()[start + i]);
        assert(l.active_ids().contains(ids[i]));
    }
    lemma_filter_map_total(ids, on_sale(l.listings), g);
    assert(at_most(ids.map_values(g), limit) =~= listings_of(l, at_most(ids, limit)));
}

/// A page and the one after it are together the page of their joint length.
pub proof fn pages_join(l: LedgerView, start: int, first: int, second: int)
    requires
        consistent(l),
        0 <= start,
        0 <= first,
        0 <= second,
    ensures
        active_page(l.active_ids(), l.listings, start, first) + active_page(
            l.active_ids(),
            l.listings,
            start + first,
            second,
        ) == active_page(l.active_ids(), l.listings, start, first + second),
{
    pages_have_no_gaps(l, start, first);
    pages_have_no_gaps(l, start + first, second);
    pages_have_no_gaps(l, start, first + second);
    let ids = l.active_ids();
    let a = at_most(from_position(ids, start), first);
    let b = at_most(from_position(ids, start + first), second);
    let c = at_most(from_position(ids, start), first + second);
    assert(a + b =~= c);
    assert(listings_of(l, a) + listings_of(l, b) =~= listings_of(l, c));
}

/// The list of a seller holds everything that the seller has ever listed, and
/// nothing of anyone else.
pub proof fn seller_lists_are_complete(l: LedgerView, seller: Address)
    requires
        consistent(l),
    ensures
        ({
            let found = l.ids_of(seller).filter_map(stored(l.listings));
            &&& found == listings_of(l, l.ids_of(seller))
            &&& forall|i: int| 0 <= i < found.len() ==> (#[trigger] found[i]).seller == seller
            &&& forall|id: u64| #[trigger]
                l.listings.contains_key(id) && l.listings[id].seller == seller ==> found.contains(
                    l.listings[id],
                )
        }),
{
    let ids = l.ids_of(seller);
    let g = |id: u64| l.listings[id];
    let found = ids.filter_map(stored(l.listings));
    assert forall|i: int| 0 <= i < ids.len() implies stored(l.listings)(#[trigger] ids[i]) == Some(
        g(ids[i]),
    ) by {
        assert(l.ids_of(seller).contains(ids[i]));
    }
    lemma_filter_map_total(ids, stored(l.listings), g);
    assert(found =~= listings_of(l, ids));
    assert forall|i: int| 0 <= i < found.len() implies (#[trigger] found[i]).seller == seller by {
        assert(found[i] == l.listings[ids[i]]);
        assert(l.ids_of(seller).contains(ids[i]));
    }
    assert forall|id: u64| #[trigger]
        l.listings.contains_key(id) && l.listings[id].seller == seller implies found.contains(
        l.listings[id],
    ) by {
        assert(l.ids_of(seller).contains(id));
        let k = choose|k: int| 0 <= k < ids.len() && ids[k] == id;
        assert(found[k] == l.listings[id]);
    }
}

/// Looking an id up among the listings gives what is stored under it, and among
/// the active ones only what is on sale.
pub proof fn listings_are_looked_up_by_id(listings: Map<u64, Listing>, id: u64)
    ensures
        listings.contains_key(id) ==> stored(listings)(id) == Some(listings[id]),
        !listings.contains_key(id) ==> stored(listings)(id) is None,
        listings.contains_key(id) && listings[id].active ==> on_sale(listings)(id) == Some(
            listings[id],
        ),
        !listings.contains_key(id) || !listings[id].active ==> on_sale(listings)(id) is None,
{
}

/// A page is read off the list of ids one by one: an id whose listing is active
/// adds that listing to it, any other id nothing. It ends when it is full or the
/// list is at its end.
pub proof fn pages_are_read_one_by_one(
    ids: Seq<u64>,
    listings: Map<u64, Listing>,
    start: int,
    limit: int,
)
    requires
        0 <= start,
        0 <= limit,
    ensures
        start >= ids.len() ==> active_page(ids, listings, start, limit).len() == 0,
        limit == 0 ==> active_page(ids, listings, start, limit).len() == 0,
        start < ids.len() && limit > 0 ==> {
            let id = ids[start];
            let page = active_page(ids, listings, start, limit);
            if listings.contains_key(id) && listings[id].active {
                let rest = active_page(ids, listings, start + 1, limit - 1);
                &&& page.len() == rest.len() + 1
                &&& page[0] == listings[id]
                &&& forall|i: int| 0 <= i < rest.len() ==> page[i + 1] == #[trigger] rest[i]
            } else {
                page == active_page(ids, listings, start + 1, limit)
            }
        },
{
    let f = on_sale(listings);
    if start < ids.len() && limit > 0 {
        lemma_filter_map_head(ids, start, f);
        let all = from_position(ids, start).filter_map(f);
        let tail = from_position(ids, start + 1).filter_map(f);
        match f(ids[start]) {
            Some(listing) => {
                assert(all =~= seq![listing] + tail);
                assert(at_most(all, limit) =~= seq![listing] + at_most(tail, limit - 1));
            },
            None => {
                assert(all =~= tail);
            },
        }
    } else if start >= ids.len() {
        assert(from_position(ids, start).filter_map(f) =~= Seq::<Listing>::empty());
    }
}

/// Where the listings of all ids are on sale, the page from a position on has as
/// many items as were asked for, or all that are left if they are fewer; and its
/// items are the listings of the ids from that position on, in order.
pub proof fn pages_are_exact(
    ids: Seq<u64>,
    listings: Map<u64, Listing>,
    start: int,
    limit: int,
)
    requires
        0 <= start,
        0 <= limit,
        forall|i: int|
            0 <= i < ids.len() ==> listings.contains_key(#[trigger] ids[i])
                && listings[ids[i]].active,
    ensures
        ({
            let page = active_page(ids, listings, start, limit);
            &&& start >= ids.len() ==> page.len() == 0
            &&& start < ids.len() && limit <= ids.len() - start ==> page.len() == limit
            &&& start < ids.len() && limit > ids.len() - start ==> page.len() == ids.len() - start
            &&& forall|i: int|
                0 <= i < page.len() ==> #[trigger] page[i] == listings[ids[start + i]]
        }),
    decreases limit,
{
    pages_are_read_one_by_one(ids, listings, start, limit);
    if start < ids.len() && limit > 0 {
        pages_are_exact(ids, listings, start + 1, limit - 1);
        let page = active_page(ids, listings, start, limit);
        let rest = active_page(ids, listings, start + 1, limit - 1);
        assert(listings.contains_key(ids[start]));
        assert forall|i: int| 0 <= i < page.len() implies #[trigger] page[i]
            == listings[ids[start + i]] by {
            if i > 0 {
                assert(page[i - 1 + 1] == rest[i - 1]);
            }
        }
    }
}

/// In every ledger that the marketplace comes to have, a page of the active
/// listings has exactly as many items as were asked for, or all that are left if
/// they are fewer, and its items are the listings of the active ids from its
/// start on, in order.
pub proof fn active_pages_are_exact(l: LedgerView, start: int, limit: int)
    requires
        consistent(l),
        0 <= start,
        0 <= limit,
    ensures
        ({
            let ids = l.active_ids();
            let page = active_page(ids, l.listings, start, limit);
            &&& start >= ids.len() ==> page.len() == 0
            &&& start < ids.len() && limit <= ids.len() - start ==> page.len() == limit
            &&& start < ids.len() && limit > ids.len() - start ==> page.len() == ids.len() - start
            &&& forall|i: int|
                0 <= i < page.len() ==> #[trigger] page[i] == l.listings[ids[start + i]]
        }),
{
    let ids = l.active_ids();
    assert forall|i: int| 0 <= i < ids.len() implies l.listings.contains_key(#[trigger] ids[i])
        && l.listings[ids[i]].active by {
        assert(l.active_ids().contains(ids[i]));
    }
    pages_are_exact(ids, l.listings, start, limit);
}

/// What a seller is shown is read off the seller's list one by one: an id under
/// which a listing is stored adds that listing, active or not, any other id
/// nothing.
pub proof fn seller_lists_are_read_one_by_one(
    ids: Seq<u64>,
    listings: Map<u64, Listing>,
    id: u64,
)
    ensures
        Seq::<u64>::empty().filter_map(stored(listings)).len() == 0,
        ({
            let before = ids.filter_map(stored(listings));
            let after = ids.push(id).filter_map(stored(listings));
            if listings.contains_key(id) {
                &&& after.len() == before.len() + 1
                &&& after[before.len() as int] == listings[id]
                &&& forall|i: int| 0 <= i < before.len() ==> #[trigger] after[i] == before[i]
            } else {
                after == before
            }
        }),
{
    let longer = ids.push(id);
    longer.lemma_filter_map_take_succ(stored(listings), ids.len() as int);
    assert(longer.take(ids.len() as int) =~= ids);
    assert(longer.take(longer.len() as int) =~= longer);
}

/// In every ledger that the marketplace comes to have, a seller is shown as many
/// listings as there are ids on the seller's list, and those ids' listings, in
/// order.
pub proof fn seller_lists_are_exact(l: LedgerView, seller: Address)
    requires
        consistent(l),
    ensures
        ({
            let ids = l.ids_of(seller);
            let found = ids.filter_map(stored(l.listings));
            &&& found.len() == ids.len()
            &&& forall|i: int| 0 <= i < ids.len() ==> #[trigger] found[i] == l.listings[ids[i]]
        }),
{
    seller_lists_are_complete(l, seller);
    let ids = l.ids_of(seller);
    let found = ids.filter_map(stored(l.listings));
    assert(found == listings_of(l, ids));
}

/// What a seller is shown depends on no entries but the seller's list and the
/// listings on it.
pub proof fn seller_lists_depend_on_what_is_read(a: LedgerView, b: LedgerView, seller: Address)
    requires
        a.entry(DataKey::UserListings(seller)) == b.entry(DataKey::UserListings(seller)),
        forall|id: u64| #[trigger]
            a.ids_of(seller).contains(id) ==> a.entry(DataKey::Listing(id)) == b.entry(
                DataKey::Listing(id),
            ),
    ensures
        a.ids_of(seller).filter_map(stored(a.listings)) == b.ids_of(seller).filter_map(
            stored(b.listings),
        ),
{
    let ids = a.ids_of(seller);
    assert forall|i: int| 0 <= i < ids.len() implies stored(a.listings)(#[trigger] ids[i])
        == stored(b.listings)(ids[i]) by {
        assert(ids.contains(ids[i]));
    }
    lemma_filter_map_same(ids, stored(a.listings), stored(b.listings));
}

} // verus!
