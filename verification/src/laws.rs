//! What the marketplace guarantees of every request.
use crate::action::ActionView;
use crate::consistency::consistent;
use crate::history::Request;
use crate::ledger::{LedgerView, WriteView};
use crate::lists::lemma_drop_absent_id;
use crate::model::{
    bot_transfer, can_buy, closed_listing, list_bot_outcome, new_listing, other_than,
};
use crate::steps::{
    changed_config, lemma_after_cancel_listing, lemma_after_initialize, lemma_after_list_bot,
    lemma_after_settings, lemma_after_steps, lemma_buy_bot_actions,
};
use crate::types::{Address, Config, DataKey, FEE_BPS, MarketplaceError};
use vstd::prelude::*;

verus! {

/// A refused request changes nothing: all that it asks of the network is its
/// maker's authorization, so it stores nothing, moves nothing and announces
/// nothing.
pub proof fn refused_requests_change_nothing(
    l: LedgerView,
    request: Request,
    marketplace: Address,
)
    requires
        request.outcome(l, marketplace).result is Err,
    ensures
        forall|i: int|
            0 <= i < request.outcome(l, marketplace).actions.len() ==> (
            #[trigger] request.outcome(l, marketplace).actions[i]) is RequireAuth,
        l.after(request.outcome(l, marketplace).actions) == l,
        request.next(l, marketplace) == l,
{
    lemma_after_steps(l, request.outcome(l, marketplace).actions);
}

/// A request that is not refused starts by asking for the authorization of its
/// maker, which for a setting is the administrator of the moment, and asks for no
/// other.
pub proof fn makers_authorize_first(l: LedgerView, request: Request, marketplace: Address)
    ensures
        request.outcome(l, marketplace).result is Ok ==> request.outcome(
            l,
            marketplace,
        ).actions.len() > 0,
        forall|i: int|
            0 <= i < request.outcome(l, marketplace).actions.len() ==> ((
            #[trigger] request.outcome(l, marketplace).actions[i]) is RequireAuth <==> i == 0),
        request.outcome(l, marketplace).actions.len() > 0 ==> request.outcome(
            l,
            marketplace,
        ).actions[0] == ActionView::RequireAuth(request.maker(l)),
{
    let actions = request.outcome(l, marketplace).actions;
    assert forall|i: int| 0 <= i < actions.len() implies ((#[trigger] actions[i]) is RequireAuth
        <==> i == 0) by {
        if let Request::BuyBot { buyer, listing_id } = request {
            if can_buy(l, buyer, listing_id) {
                lemma_buy_bot_actions(l, buyer, listing_id, marketplace);
            }
        }
    }
}

/// A request that is not refused ends by announcing itself in an event, and
/// announces nothing else.
pub proof fn successes_announce_one_event(l: LedgerView, request: Request, marketplace: Address)
    requires
        request.outcome(l, marketplace).result is Ok,
    ensures
        forall|i: int|
            0 <= i < request.outcome(l, marketplace).actions.len() ==> ((
            #[trigger] request.outcome(l, marketplace).actions[i]) is Publish <==> i
                == request.outcome(l, marketplace).actions.len() - 1),
{
    let actions = request.outcome(l, marketplace).actions;
    assert forall|i: int| 0 <= i < actions.len() implies ((#[trigger] actions[i]) is Publish <==> i
        == actions.len() - 1) by {
        if let Request::BuyBot { buyer, listing_id } = request {
            lemma_buy_bot_actions(l, buyer, listing_id, marketplace);
        }
    }
}

/// The marketplace starts out with the default fee and nothing on sale.
pub proof fn initialization_sets_up(
    admin: Address,
    bot_nft: Address,
    fee_recipient: Address,
    marketplace: Address,
)
    ensures
        (Request::Initialize { admin, bot_nft, fee_recipient }).next(
            LedgerView::empty(),
            marketplace,
        ) == (LedgerView {
            initialized: true,
            config: Some(Config { bot_nft, admin, fee_bps: FEE_BPS, fee_recipient }),
            next_listing_id: Some(1),
            active_listings: Some(Seq::empty()),
            ..LedgerView::empty()
        }),
{
    lemma_after_initialize(LedgerView::empty(), admin, bot_nft, fee_recipient);
}

/// A setting that is changed is what the configuration then says, and nothing
/// else changes.
pub proof fn settings_change_alone(l: LedgerView, request: Request, marketplace: Address)
    requires
        l.config is Some,
        request is SetFeeBps || request is SetFeeRecipient || request is SetBotNft
            || request is SetAdmin,
    ensures
        request.outcome(l, marketplace).result is Ok,
        request.next(l, marketplace) == (LedgerView {
            config: Some(changed_config(l.config->0, request)),
            ..l
        }),
{
    lemma_after_settings(l, request, marketplace);
}

/// A bot that is put up for sale gets an id that no listing had, one above the
/// id before; it is then found under that id, on the list of active listings and
/// on its seller's, both times at the end.
pub proof fn new_listings_are_found(
    l: LedgerView,
    seller: Address,
    bot_id: u64,
    bot_tier: u32,
    price: i128,
    currency: Address,
    timestamp: u64,
    marketplace: Address,
)
    requires
        consistent(l),
        (Request::ListBot { seller, bot_id, bot_tier, price, currency, timestamp }).fits(l),
        price > 0,
        l.initialized,
    ensures
        ({
            let request = Request::ListBot {
                seller,
                bot_id,
                bot_tier,
                price,
                currency,
                timestamp,
            };
            let next = request.next(l, marketplace);
            let outcome = list_bot_outcome(
                l,
                seller,
                bot_id,
                bot_tier,
                price,
                currency,
                marketplace,
                timestamp,
            );
            &&& outcome.result matches Ok(id)
            &&& id == l.next_id()
            &&& next.next_id() == id + 1
            &&& !l.listings.contains_key(id)
            &&& next.listings == l.listings.insert(
                id,
                new_listing(id, seller, bot_id, bot_tier, price, currency, timestamp),
            )
            &&& next.active_ids() == l.active_ids().push(id)
            &&& next.ids_of(seller) == l.ids_of(seller).push(id)
        }),
{
    lemma_after_list_bot(l, seller, bot_id, bot_tier, price, currency, marketplace, timestamp);
}

/// Cancelling a listing undoes it: the seller can always do it, the bot that
/// moved to the marketplace moves back, and the same listings are on sale as
/// before.
pub proof fn cancelling_undoes_listing(
    l: LedgerView,
    seller: Address,
    bot_id: u64,
    bot_tier: u32,
    price: i128,
    currency: Address,
    timestamp: u64,
    marketplace: Address,
)
    requires
        consistent(l),
        (Request::ListBot { seller, bot_id, bot_tier, price, currency, timestamp }).fits(l),
        price > 0,
        l.initialized,
    ensures
        ({
            let listing = Request::ListBot {
                seller,
                bot_id,
                bot_tier,
                price,
                currency,
                timestamp,
            };
            let listed = listing.next(l, marketplace);
            let id = l.next_id();
            let cancelling = Request::CancelListing { seller, listing_id: id };
            let cancelled = cancelling.next(listed, marketplace);
            let nft = l.config->0.bot_nft;
            &&& cancelling.fits(listed)
            &&& cancelling.outcome(listed, marketplace).result is Ok
            &&& listing.outcome(l, marketplace).actions[1] == ActionView::Invoke(
                bot_transfer(nft, seller, marketplace, bot_id),
            )
            &&& cancelling.outcome(listed, marketplace).actions[1] == ActionView::Invoke(
                bot_transfer(nft, marketplace, seller, bot_id),
            )
            &&& cancelled.active_ids() == l.active_ids()
            &&& cancelled.listings == l.listings.insert(
                id,
                closed_listing(
                    new_listing(id, seller, bot_id, bot_tier, price, currency, timestamp),
                ),
            )
        }),
{
    let id = l.next_id();
    let listing = Request::ListBot { seller, bot_id, bot_tier, price, currency, timestamp };
    let listed = listing.next(l, marketplace);
    lemma_after_list_bot(l, seller, bot_id, bot_tier, price, currency, marketplace, timestamp);
    lemma_after_cancel_listing(listed, seller, id, marketplace);
    assert(!l.active_ids().contains(id)) by {
        assert(!l.listings.contains_key(id));
    }
    lemma_drop_absent_id(l.active_ids(), id);
    l.active_ids().lemma_filter_push(id, other_than(id));
    let cancelled = (Request::CancelListing { seller, listing_id: id }).next(listed, marketplace);
    assert(cancelled.listings =~= l.listings.insert(
        id,
        closed_listing(new_listing(id, seller, bot_id, bot_tier, price, currency, timestamp)),
    ));
}

/// An entry that is stored is read back as it was stored, and the entries of
/// other keys stay as they are.
pub proof fn stored_entries_are_read_back(l: LedgerView, w: WriteView, key: DataKey)
    ensures
        l.write(w).entry(key) == (if key == w.key() {
            Some(w)
        } else {
            l.entry(key)
        }),
{
}

/// The answer to a request depends on no entries but those that it reads.
pub proof fn answers_depend_on_what_is_read(
    a: LedgerView,
    b: LedgerView,
    request: Request,
    marketplace: Address,
)
    requires
        forall|key: DataKey| #[trigger]
            request.reads().contains(key) ==> a.entry(key) == b.entry(key),
    ensures
        request.outcome(a, marketplace) == request.outcome(b, marketplace),
        request.fits(a) == request.fits(b),
{
    match request {
        Request::Initialize { .. } => {
            assert(request.reads().contains(DataKey::Initialized));
        },
        Request::ListBot { seller, .. } => {
            assert(request.reads().contains(DataKey::Config));
            assert(request.reads().contains(DataKey::NextListingId));
            assert(request.reads().contains(DataKey::ActiveListings));
            assert(request.reads().contains(DataKey::UserListings(seller)));
        },
        Request::BuyBot { listing_id, .. } => {
            assert(request.reads().contains(DataKey::Config));
            assert(request.reads().contains(DataKey::ActiveListings));
            assert(request.reads().contains(DataKey::Listing(listing_id)));
        },
        Request::CancelListing { listing_id, .. } => {
            assert(request.reads().contains(DataKey::Config));
            assert(request.reads().contains(DataKey::ActiveListings));
            assert(request.reads().contains(DataKey::Listing(listing_id)));
        },
        _ => {
            assert(request.reads().contains(DataKey::Config));
        },
    }
}

/// No two errors are reported under the same number.
pub proof fn error_codes_are_distinct(a: MarketplaceError, b: MarketplaceError)
    ensures
        a.spec_code() == b.spec_code() ==> a == b,
{
}

} // verus!
