//! What holds of every ledger that the marketplace comes to have.
use crate::action::ActionView;
use crate::history::{Call, Request, run};
use crate::ledger::LedgerView;
use crate::lists::{ascending, lemma_add_id, lemma_drop_id};
use crate::model::{
    buy_bot_outcome, cancel_listing_outcome, closed_listing, initialize_outcome, new_listing,
    other_than,
};
use crate::steps::{
    lemma_after_buy_bot, lemma_after_cancel_listing, lemma_after_initialize,
    lemma_after_list_bot, lemma_after_settings, with_closed,
};
use crate::types::{Address, Listing, MarketplaceError};
use vstd::prelude::*;

verus! {

/// What holds of every ledger that the marketplace comes to have.
pub open spec fn consistent(l: LedgerView) -> bool {
    // The marketplace is set up completely or not at all.
    &&& if l.initialized {
        l.config is Some && l.next_listing_id is Some && l.active_listings is Some
    } else {
        l == LedgerView::empty()
    }
    // The ids that were handed out are those below the next one, from 1 on.
    &&& 1 <= l.next_id()
    &&& forall|id: u64| #[trigger]
        l.listings.contains_key(id) <==> 1 <= id < l.next_id()
    &&& forall|id: u64| #[trigger]
        l.listings.contains_key(id) ==> l.listings[id].id == id && l.listings[id].price
            > 0
    // The active listings are on their list, oldest first.
    &&& ascending(l.active_ids())
    &&& forall|id: u64| #[trigger]
        l.active_ids().contains(id) <==> l.listings.contains_key(id)
            && l.listings[id].active
    // Everything that someone listed is on that seller's list, oldest first.
    &&& forall|seller: Address| ascending(#[trigger] l.ids_of(seller))
    &&& forall|seller: Address, id: u64| #[trigger]
        l.ids_of(seller).contains(id) <==> l.listings.contains_key(id)
            && l.listings[id].seller == seller
}

/// Closing a listing keeps a ledger consistent.
proof fn lemma_closing_keeps_consistency(l: LedgerView, listing_id: u64)
    requires
        consistent(l),
        l.listings.contains_key(listing_id),
        l.listings[listing_id].active,
    ensures
        consistent(with_closed(l, listing_id)),
{
    let next = with_closed(l, listing_id);
    lemma_drop_id(l.active_ids(), listing_id);
    assert(next.active_ids() == l.active_ids().filter(other_than(listing_id)));
    assert(l.initialized);
    assert forall|id: u64| #[trigger] next.listings.contains_key(id) <==> 1 <= id
        < next.next_id() by {
        assert(l.listings.contains_key(id) <==> 1 <= id < l.next_id());
    }
    assert forall|id: u64| #[trigger]
        next.active_ids().contains(id) <==> next.listings.contains_key(id)
            && next.listings[id].active by {
        assert(l.active_ids().contains(id) <==> l.listings.contains_key(id)
            && l.listings[id].active);
    }
    assert forall|seller: Address| ascending(#[trigger] next.ids_of(seller)) by {
        assert(next.ids_of(seller) == l.ids_of(seller));
    }
    assert forall|seller: Address, id: u64| #[trigger]
        next.ids_of(seller).contains(id) <==> next.listings.contains_key(id)
            && next.listings[id].seller == seller by {
        assert(next.ids_of(seller) == l.ids_of(seller));
        assert(l.ids_of(seller).contains(id) <==> l.listings.contains_key(id)
            && l.listings[id].seller == seller);
    }
}

/// Adding a listing under the next id keeps a ledger consistent.
proof fn lemma_listing_keeps_consistency(l: LedgerView, next: LedgerView, listing: Listing)
    requires
        consistent(l),
        l.config is Some,
        l.next_id() < u64::MAX,
        listing.id == l.next_id(),
        listing.price > 0,
        listing.active,
        next == (LedgerView {
            next_listing_id: Some((l.next_id() + 1) as u64),
            active_listings: Some(l.active_ids().push(l.next_id())),
            listings: l.listings.insert(l.next_id(), listing),
            user_listings: l.user_listings.insert(
                listing.seller,
                l.ids_of(listing.seller).push(l.next_id()),
            ),
            ..l
        }),
    ensures
        consistent(next),
{
    let new_id = l.next_id();
    assert(l.initialized);
    assert(!l.listings.contains_key(new_id));
    assert forall|id: u64| #[trigger] next.listings.contains_key(id) <==> 1 <= id
        < next.next_id() by {
        assert(l.listings.contains_key(id) <==> 1 <= id < l.next_id());
    }
    assert forall|id: u64| #[trigger] l.active_ids().contains(id) implies id < new_id by {
        assert(l.listings.contains_key(id));
    }
    lemma_add_id(l.active_ids(), new_id);
    assert(next.active_ids() == l.active_ids().push(new_id));
    assert forall|id: u64| #[trigger]
        next.active_ids().contains(id) <==> next.listings.contains_key(id)
            && next.listings[id].active by {
        assert(l.active_ids().contains(id) <==> l.listings.contains_key(id)
            && l.listings[id].active);
    }
    assert forall|id: u64| #[trigger] l.ids_of(listing.seller).contains(id) implies id < new_id by {
        assert(l.listings.contains_key(id));
    }
    lemma_add_id(l.ids_of(listing.seller), new_id);
    assert(next.ids_of(listing.seller) == l.ids_of(listing.seller).push(new_id));
    assert forall|seller: Address| ascending(#[trigger] next.ids_of(seller)) by {
        if seller != listing.seller {
            assert(next.ids_of(seller) == l.ids_of(seller));
        }
    }
    assert forall|seller: Address, id: u64| #[trigger]
        next.ids_of(seller).contains(id) <==> next.listings.contains_key(id)
            && next.listings[id].seller == seller by {
        assert(l.ids_of(seller).contains(id) <==> l.listings.contains_key(id)
            && l.listings[id].seller == seller);
        if seller != listing.seller {
            assert(next.ids_of(seller) == l.ids_of(seller));
        }
    }
}

/// A new configuration keeps a ledger consistent.
proof fn lemma_settings_keep_consistency(l: LedgerView, next: LedgerView)
    requires
        consistent(l),
        l.config is Some,
        next.config is Some,
        next == (LedgerView { config: next.config, ..l }),
    ensures
        consistent(next),
{
    assert(next.active_ids() == l.active_ids());
    assert forall|seller: Address| #[trigger] next.ids_of(seller) == l.ids_of(seller) by {}
}

/// A request that is carried out leads from a consistent ledger to a consistent
/// one.
pub proof fn requests_keep_consistency(l: LedgerView, request: Request, marketplace: Address)
    requires
        consistent(l),
    ensures
        consistent(request.next(l, marketplace)),
{
    let next = request.next(l, marketplace);
    if request.fits(l) && request.outcome(l, marketplace).result is Ok {
        match request {
            Request::Initialize { admin, bot_nft, fee_recipient } => {
                lemma_after_initialize(l, admin, bot_nft, fee_recipient);
                assert(next.active_ids() =~= Seq::<u64>::empty());
                assert forall|seller: Address| #[trigger] next.ids_of(seller) == Seq::<
                    u64,
                >::empty() by {}
            },
            Request::ListBot { seller, bot_id, bot_tier, price, currency, timestamp } => {
                lemma_after_list_bot(
                    l,
                    seller,
                    bot_id,
                    bot_tier,
                    price,
                    currency,
                    marketplace,
                    timestamp,
                );
                lemma_listing_keeps_consistency(
                    l,
                    next,
                    new_listing(l.next_id(), seller, bot_id, bot_tier, price, currency, timestamp),
                );
            },
            Request::BuyBot { buyer, listing_id } => {
                lemma_after_buy_bot(l, buyer, listing_id, marketplace);
                lemma_closing_keeps_consistency(l, listing_id);
            },
            Request::CancelListing { seller, listing_id } => {
                lemma_after_cancel_listing(l, seller, listing_id, marketplace);
                lemma_closing_keeps_consistency(l, listing_id);
            },
            _ => {
                lemma_after_settings(l, request, marketplace);
                lemma_settings_keep_consistency(l, next);
            },
        }
    }
}

/// Every ledger that the marketplace comes to have is consistent, whatever is
/// asked of it and whichever of it the network carries out.
pub proof fn every_ledger_is_consistent(calls: Seq<Call>, marketplace: Address)
    ensures
        consistent(run(LedgerView::empty(), calls, marketplace)),
    decreases calls.len(),
{
    if calls.len() == 0 {
        let l = LedgerView::empty();
        assert(l.active_ids() == Seq::<u64>::empty());
        assert forall|seller: Address| #[trigger] l.ids_of(seller) == Seq::<u64>::empty() by {}
    } else {
        every_ledger_is_consistent(calls.drop_last(), marketplace);
        let before = run(LedgerView::empty(), calls.drop_last(), marketplace);
        requests_keep_consistency(before, calls.last().request, marketplace);
    }
}

/// Whatever is asked of the marketplace, no listing is lost, and none changes
/// but by being closed.
pub proof fn listings_only_ever_close(
    l: LedgerView,
    request: Request,
    marketplace: Address,
    id: u64,
)
    requires
        consistent(l),
        l.listings.contains_key(id),
    ensures
        request.next(l, marketplace).listings.contains_key(id),
        request.next(l, marketplace).listings[id] == l.listings[id] || request.next(
            l,
            marketplace,
        ).listings[id] == closed_listing(l.listings[id]),
{
    if request.fits(l) && request.outcome(l, marketplace).result is Ok {
        match request {
            Request::Initialize { admin, bot_nft, fee_recipient } => {
                lemma_after_initialize(l, admin, bot_nft, fee_recipient);
            },
            Request::ListBot { seller, bot_id, bot_tier, price, currency, timestamp } => {
                lemma_after_list_bot(
                    l,
                    seller,
                    bot_id,
                    bot_tier,
                    price,
                    currency,
                    marketplace,
                    timestamp,
                );
            },
            Request::BuyBot { buyer, listing_id } => {
                lemma_after_buy_bot(l, buyer, listing_id, marketplace);
            },
            Request::CancelListing { seller, listing_id } => {
                lemma_after_cancel_listing(l, seller, listing_id, marketplace);
            },
            _ => {
                lemma_after_settings(l, request, marketplace);
            },
        }
    }
}

/// A listing that is over stays as it is for good.
pub proof fn closed_listings_stay_closed(
    l: LedgerView,
    calls: Seq<Call>,
    marketplace: Address,
    id: u64,
)
    requires
        consistent(l),
        l.listings.contains_key(id),
        !l.listings[id].active,
    ensures
        consistent(run(l, calls, marketplace)),
        run(l, calls, marketplace).listings.contains_key(id),
        run(l, calls, marketplace).listings[id] == l.listings[id],
    decreases calls.len(),
{
    if calls.len() > 0 {
        closed_listings_stay_closed(l, calls.drop_last(), marketplace, id);
        let before = run(l, calls.drop_last(), marketplace);
        requests_keep_consistency(before, calls.last().request, marketplace);
        listings_only_ever_close(before, calls.last().request, marketplace, id);
    }
}

/// A purchase or a cancellation closes its listing: nobody can buy it or cancel
/// it from then on, whatever happens in between.
pub proof fn a_listing_closes_once(
    l: LedgerView,
    request: Request,
    calls: Seq<Call>,
    marketplace: Address,
    id: u64,
    party: Address,
)
    requires
        consistent(l),
        request.fits(l),
        request.outcome(l, marketplace).result is Ok,
        (request matches Request::BuyBot { listing_id, .. } && listing_id == id) || (
        request matches Request::CancelListing { listing_id, .. } && listing_id == id),
    ensures
        buy_bot_outcome(
            run(request.next(l, marketplace), calls, marketplace),
            party,
            id,
            marketplace,
        ).result == Err::<(), MarketplaceError>(MarketplaceError::ListingInactive),
        cancel_listing_outcome(
            run(request.next(l, marketplace), calls, marketplace),
            party,
            id,
            marketplace,
        ).result == Err::<(), MarketplaceError>(MarketplaceError::ListingInactive),
        !run(request.next(l, marketplace), calls, marketplace).active_ids().contains(id),
{
    match request {
        Request::BuyBot { buyer, listing_id } => {
            lemma_after_buy_bot(l, buyer, listing_id, marketplace);
        },
        Request::CancelListing { seller, listing_id } => {
            lemma_after_cancel_listing(l, seller, listing_id, marketplace);
        },
        _ => {},
    }
    requests_keep_consistency(l, request, marketplace);
    closed_listings_stay_closed(request.next(l, marketplace), calls, marketplace, id);
}

/// No action takes the initialization mark away.
proof fn lemma_after_keeps_initialized(l: LedgerView, actions: Seq<ActionView>)
    requires
        l.initialized,
    ensures
        l.after(actions).initialized,
    decreases actions.len(),
{
    if actions.len() > 0 {
        lemma_after_keeps_initialized(l, actions.drop_last());
    }
}

/// A marketplace that is set up stays set up, and is never set up again.
pub proof fn initialization_is_final(
    l: LedgerView,
    calls: Seq<Call>,
    marketplace: Address,
    admin: Address,
    bot_nft: Address,
    fee_recipient: Address,
)
    requires
        l.initialized,
    ensures
        run(l, calls, marketplace).initialized,
        initialize_outcome(
            run(l, calls, marketplace),
            admin,
            bot_nft,
            fee_recipient,
        ).result == Err::<(), MarketplaceError>(MarketplaceError::AlreadyInitialized),
    decreases calls.len(),
{
    if calls.len() > 0 {
        initialization_is_final(
            l,
            calls.drop_last(),
            marketplace,
            admin,
            bot_nft,
            fee_recipient,
        );
        let before = run(l, calls.drop_last(), marketplace);
        lemma_after_keeps_initialized(
            before,
            calls.last().request.outcome(before, marketplace).actions,
        );
    }
}

} // verus!
