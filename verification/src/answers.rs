//! What each request does, in terms of what it is given.
use crate::action::{ActionView, Event, Value};
use crate::escrow::{lemma_owners_steps, owners_after};
use crate::history::Request;
use crate::ledger::LedgerView;
use crate::model::{
    buy_bot_fits, buy_bot_outcome, cancel_listing_fits, cancel_listing_outcome,
    initialize_outcome, list_bot_fits, list_bot_outcome, other_than, set_admin_outcome,
    set_bot_nft_outcome, set_fee_bps_outcome, set_fee_recipient_outcome,
};
use crate::steps::{
    lemma_after_buy_bot, lemma_after_cancel_listing, lemma_after_initialize, lemma_after_list_bot,
    lemma_after_settings, lemma_buy_bot_actions,
};
use crate::types::{Address, DataKey, MarketplaceError};
use vstd::prelude::*;

verus! {

/// `initialize` is refused exactly if the marketplace is set up already, and then
/// asks for nothing.
pub proof fn initialize_succeeds_once(
    l: LedgerView,
    admin: Address,
    bot_nft: Address,
    fee_recipient: Address,
)
    ensures
        ({
            let outcome = initialize_outcome(l, admin, bot_nft, fee_recipient);
            &&& !l.initialized ==> outcome.result is Ok
            &&& l.initialized ==> outcome.result == Err::<(), MarketplaceError>(
                MarketplaceError::AlreadyInitialized,
            )
            &&& l.initialized ==> outcome.actions.len() == 0
        }),
{
}

/// `initialize` stores what it is given and the fee of 250 basis points; the first
/// listing is to get the id 1, and none is active. Listings are untouched.
pub proof fn initialize_stores_its_arguments(
    l: LedgerView,
    admin: Address,
    bot_nft: Address,
    fee_recipient: Address,
)
    requires
        !l.initialized,
    ensures
        ({
            let next = l.after(initialize_outcome(l, admin, bot_nft, fee_recipient).actions);
            &&& next.initialized
            &&& next.config matches Some(config)
            &&& config.admin == admin
            &&& config.bot_nft == bot_nft
            &&& config.fee_recipient == fee_recipient
            &&& config.fee_bps == 250
            &&& next.next_listing_id == Some(1u64)
            &&& next.active_listings matches Some(ids)
            &&& ids.len() == 0
            &&& next.listings == l.listings
            &&& next.user_listings == l.user_listings
        }),
{
    lemma_after_initialize(l, admin, bot_nft, fee_recipient);
}

/// `initialize` asks first for the authorization of the administrator to be, moves
/// neither bots nor tokens, keeps the instance alive once, and ends by announcing
/// what it was given.
pub proof fn initialize_asks_for(
    l: LedgerView,
    admin: Address,
    bot_nft: Address,
    fee_recipient: Address,
)
    requires
        !l.initialized,
    ensures
        ({
            let actions = initialize_outcome(l, admin, bot_nft, fee_recipient).actions;
            let n = actions.len() as int;
            &&& n == 7
            &&& actions[0] == ActionView::RequireAuth(admin)
            &&& actions[n - 2] == (ActionView::ExtendInstanceTtl {
                threshold: 103680,
                extend_to: 120960,
            })
            &&& actions[n - 1] == ActionView::Publish(
                Event::Initialized { admin, bot_nft, fee_recipient },
            )
            &&& forall|i: int| 0 < i < n - 2 ==> (#[trigger] actions[i]) is Store
        }),
{
}

/// `list_bot` is within its limits unless an id or a list has no room left.
pub proof fn list_bot_has_room(l: LedgerView, seller: Address, price: i128)
    ensures
        list_bot_fits(l, seller, price) <==> (price <= 0 || l.config is None || (l.next_id()
            < u64::MAX && l.active_ids().len() < u32::MAX && l.ids_of(seller).len() < u32::MAX)),
{
}

/// `list_bot` succeeds exactly for a positive price on a marketplace that is set
/// up, with the next id; a price that is not positive is told before anything
/// else. A refusal asks for the seller's authorization and nothing more.
pub proof fn list_bot_verdict(
    l: LedgerView,
    seller: Address,
    bot_id: u64,
    bot_tier: u32,
    price: i128,
    currency: Address,
    marketplace: Address,
    timestamp: u64,
)
    ensures
        ({
            let outcome = list_bot_outcome(
                l,
                seller,
                bot_id,
                bot_tier,
                price,
                currency,
                marketplace,
                timestamp,
            );
            &&& price <= 0 ==> outcome.result == Err::<u64, MarketplaceError>(
                MarketplaceError::InvalidPrice,
            )
            &&& price > 0 && l.config is None ==> outcome.result == Err::<u64, MarketplaceError>(
                MarketplaceError::NotInitialized,
            )
            &&& price > 0 && l.config is Some ==> outcome.result == Ok::<u64, MarketplaceError>(
                l.next_id(),
            )
            &&& outcome.result is Err ==> outcome.actions.len() == 1 && outcome.actions[0]
                == ActionView::RequireAuth(seller)
        }),
{
}

/// A listing is stored, under the id that is returned, as it was asked for: with
/// this seller, bot, tier, price and currency, and the time of the request. It is
/// active, and it is added at the end of the active list and of the seller's list;
/// everything else stays as it was.
pub proof fn list_bot_stores_its_arguments(
    l: LedgerView,
    seller: Address,
    bot_id: u64,
    bot_tier: u32,
    price: i128,
    currency: Address,
    marketplace: Address,
    timestamp: u64,
)
    requires
        price > 0,
        l.config is Some,
        l.next_id() < u64::MAX,
    ensures
        ({
            let outcome = list_bot_outcome(
                l,
                seller,
                bot_id,
                bot_tier,
                price,
                currency,
                marketplace,
                timestamp,
            );
            let next = l.after(outcome.actions);
            &&& outcome.result matches Ok(id)
            // the listing
            &&& next.listings.contains_key(id)
            &&& next.listings[id].id == id
            &&& next.listings[id].seller == seller
            &&& next.listings[id].bot_id == bot_id
            &&& next.listings[id].bot_tier == bot_tier
            &&& next.listings[id].price == price
            &&& next.listings[id].currency == currency
            &&& next.listings[id].listed_at == timestamp
            &&& next.listings[id].active
            &&& forall|other: u64| #[trigger]
                l.listings.contains_key(other) && other != id ==> next.listings.contains_key(other)
                    && next.listings[other] == l.listings[other]
            &&& forall|other: u64| #[trigger]
                next.listings.contains_key(other) && other != id ==> l.listings.contains_key(other)
            // the active list
            &&& next.active_listings matches Some(active)
            &&& active.len() == l.active_ids().len() + 1
            &&& active[l.active_ids().len() as int] == id
            &&& forall|i: int|
                0 <= i < l.active_ids().len() ==> #[trigger] active[i] == l.active_ids()[i]
            // the seller's list, and the lists of others
            &&& next.user_listings.contains_key(seller)
            &&& next.user_listings[seller].len() == l.ids_of(seller).len() + 1
            &&& next.user_listings[seller][l.ids_of(seller).len() as int] == id
            &&& forall|i: int|
                0 <= i < l.ids_of(seller).len() ==> #[trigger] next.user_listings[seller][i]
                    == l.ids_of(seller)[i]
            &&& forall|other: Address| #[trigger]
                l.user_listings.contains_key(other) && other != seller
                    ==> next.user_listings.contains_key(other) && next.user_listings[other]
                    == l.user_listings[other]
            &&& forall|other: Address| #[trigger]
                next.user_listings.contains_key(other) && other != seller
                    ==> l.user_listings.contains_key(other)
            // the rest
            &&& next.next_listing_id matches Some(next_id)
            &&& next_id == id + 1
            &&& next.config == l.config
            &&& next.initialized == l.initialized
        }),
{
    lemma_after_list_bot(l, seller, bot_id, bot_tier, price, currency, marketplace, timestamp);
}

/// `list_bot` asks for the authorization of the seller, then moves the bot, by one
/// call of the bots' contract, from the seller to the marketplace; it moves no
/// tokens, keeps the new listing and the instance alive, and ends by announcing
/// the listing.
pub proof fn list_bot_asks_for(
    l: LedgerView,
    seller: Address,
    bot_id: u64,
    bot_tier: u32,
    price: i128,
    currency: Address,
    marketplace: Address,
    timestamp: u64,
)
    requires
        price > 0,
        l.config is Some,
    ensures
        ({
            let outcome = list_bot_outcome(
                l,
                seller,
                bot_id,
                bot_tier,
                price,
                currency,
                marketplace,
                timestamp,
            );
            let actions = outcome.actions;
            let n = actions.len() as int;
            &&& outcome.result matches Ok(id)
            &&& n == 9
            &&& actions[0] == ActionView::RequireAuth(seller)
            &&& actions[1] matches ActionView::Invoke(call)
            &&& call.contract == l.config->0.bot_nft
            &&& call.function == "transfer"@
            &&& call.args.len() == 3
            &&& call.args[0] == Value::Address(seller)
            &&& call.args[1] == Value::Address(marketplace)
            &&& call.args[2] == Value::U64(bot_id)
            &&& actions[2] is Store
            &&& actions[3] == (ActionView::ExtendTtl {
                key: DataKey::Listing(id),
                threshold: 103680,
                extend_to: 120960,
            })
            &&& forall|i: int| 3 < i < n - 2 ==> (#[trigger] actions[i]) is Store
            &&& actions[n - 2] == (ActionView::ExtendInstanceTtl {
                threshold: 103680,
                extend_to: 120960,
            })
            &&& actions[n - 1] == ActionView::Publish(
                Event::Listed { seller, listing_id: id, bot_id, price },
            )
        }),
{
}

/// Once a bot is listed, it belongs to the marketplace, and nothing else has
/// changed hands.
pub proof fn listed_bots_go_to_the_marketplace(
    l: LedgerView,
    owners: Map<u64, Address>,
    seller: Address,
    bot_id: u64,
    bot_tier: u32,
    price: i128,
    currency: Address,
    marketplace: Address,
    timestamp: u64,
)
    requires
        price > 0,
        l.config is Some,
    ensures
        owners_after(
            owners,
            l.config->0.bot_nft,
            list_bot_outcome(
                l,
                seller,
                bot_id,
                bot_tier,
                price,
                currency,
                marketplace,
                timestamp,
            ).actions,
        ) == owners.insert(bot_id, marketplace),
{
    let outcome = list_bot_outcome(
        l,
        seller,
        bot_id,
        bot_tier,
        price,
        currency,
        marketplace,
        timestamp,
    );
    lemma_owners_steps(owners, l.config->0.bot_nft, outcome.actions, 1);
}

/// A purchase closes the listing and takes it off the active list; everything else
/// stays as it was.
pub proof fn buy_bot_closes_the_listing(
    l: LedgerView,
    buyer: Address,
    listing_id: u64,
    marketplace: Address,
)
    requires
        l.listings.contains_key(listing_id),
        l.listings[listing_id].active,
        l.listings[listing_id].seller != buyer,
    ensures
        ({
            let listing = l.listings[listing_id];
            let next = l.after(buy_bot_outcome(l, buyer, listing_id, marketplace).actions);
            // the listing
            &&& next.listings.contains_key(listing_id)
            &&& !next.listings[listing_id].active
            &&& next.listings[listing_id].id == listing.id
            &&& next.listings[listing_id].seller == listing.seller
            &&& next.listings[listing_id].bot_id == listing.bot_id
            &&& next.listings[listing_id].bot_tier == listing.bot_tier
            &&& next.listings[listing_id].price == listing.price
            &&& next.listings[listing_id].currency == listing.currency
            &&& next.listings[listing_id].listed_at == listing.listed_at
            &&& forall|other: u64| #[trigger]
                l.listings.contains_key(other) && other != listing_id
                    ==> next.listings.contains_key(other) && next.listings[other]
                    == l.listings[other]
            &&& forall|other: u64| #[trigger]
                next.listings.contains_key(other) ==> l.listings.contains_key(other)
            // the active list
            &&& next.active_listings == Some(l.active_ids().filter(|id: u64| id != listing_id))
            // the rest
            &&& next.user_listings == l.user_listings
            &&& next.next_listing_id == l.next_listing_id
            &&& next.config == l.config
            &&& next.initialized == l.initialized
        }),
{
    lemma_after_buy_bot(l, buyer, listing_id, marketplace);
    let others = |id: u64| id != listing_id;
    assert(others =~= other_than(listing_id));
}

/// A cancellation closes the listing and takes it off the active list; everything else
/// stays as it was.
pub proof fn cancel_listing_closes_the_listing(
    l: LedgerView,
    seller: Address,
    listing_id: u64,
    marketplace: Address,
)
    requires
        l.listings.contains_key(listing_id),
        l.listings[listing_id].active,
        l.listings[listing_id].seller == seller,
    ensures
        ({
            let listing = l.listings[listing_id];
            let next = l.after(cancel_listing_outcome(l, seller, listing_id, marketplace).actions);
            // the listing
            &&& next.listings.contains_key(listing_id)
            &&& !next.listings[listing_id].active
            &&& next.listings[listing_id].id == listing.id
            &&& next.listings[listing_id].seller == listing.seller
            &&& next.listings[listing_id].bot_id == listing.bot_id
            &&& next.listings[listing_id].bot_tier == listing.bot_tier
            &&& next.listings[listing_id].price == listing.price
            &&& next.listings[listing_id].currency == listing.currency
            &&& next.listings[listing_id].listed_at == listing.listed_at
            &&& forall|other: u64| #[trigger]
                l.listings.contains_key(other) && other != listing_id
                    ==> next.listings.contains_key(other) && next.listings[other]
                    == l.listings[other]
            &&& forall|other: u64| #[trigger]
                next.listings.contains_key(other) ==> l.listings.contains_key(other)
            // the active list
            &&& next.active_listings == Some(l.active_ids().filter(|id: u64| id != listing_id))
            // the rest
            &&& next.user_listings == l.user_listings
            &&& next.next_listing_id == l.next_listing_id
            &&& next.config == l.config
            &&& next.initialized == l.initialized
        }),
{
    lemma_after_cancel_listing(l, seller, listing_id, marketplace);
    let others = |id: u64| id != listing_id;
    assert(others =~= other_than(listing_id));
}

/// A closed listing leaves a gap that closes up: on an active list on which every
/// id is greater than the one before, the ids before it stay in their places, and
/// those behind it move up by one.
pub proof fn closing_keeps_the_order(ids: Seq<u64>, at: int)
    requires
        forall|i: int, j: int| 0 <= i < j < ids.len() ==> ids[i] < ids[j],
        0 <= at < ids.len(),
    ensures
        ({
            let left = ids.filter(|id: u64| id != ids[at]);
            &&& left.len() == ids.len() - 1
            &&& forall|i: int| 0 <= i < at ==> #[trigger] left[i] == ids[i]
            &&& forall|i: int| at <= i < left.len() ==> #[trigger] left[i] == ids[i + 1]
        }),
    decreases ids.len(),
{
    let f = |id: u64| id != ids[at];
    let rest = ids.drop_last();
    let last = ids.last();
    assert(ids =~= rest.push(last));
    rest.lemma_filter_push(last, f);
    if at == ids.len() - 1 {
        lemma_keep_all(rest, f);
    } else {
        assert(rest[at] == ids[at]);
        let g = |id: u64| id != rest[at];
        assert(f =~= g);
        closing_keeps_the_order(rest, at);
    }
}

/// Where every item is wanted, all of them are kept.
proof fn lemma_keep_all(ids: Seq<u64>, f: spec_fn(u64) -> bool)
    requires
        forall|i: int| 0 <= i < ids.len() ==> f(#[trigger] ids[i]),
    ensures
        ids.filter(f) == ids,
    decreases ids.len(),
{
    if ids.len() == 0 {
        assert(ids.filter(f) =~= ids);
    } else {
        let rest = ids.drop_last();
        assert(ids =~= rest.push(ids.last()));
        lemma_keep_all(rest, f);
        rest.lemma_filter_push(ids.last(), f);
        assert(f(ids[ids.len() - 1]));
    }
}

/// A purchase can be computed if there is a configuration and the price times the
/// fee is in range; a refused one always can.
pub proof fn buy_bot_has_room(l: LedgerView, buyer: Address, listing_id: u64)
    ensures
        buy_bot_fits(l, buyer, listing_id) <==> (!l.listings.contains_key(listing_id)
            || !l.listings[listing_id].active || l.listings[listing_id].seller == buyer || (
        l.config is Some && i128::MIN <= l.listings[listing_id].price * l.config->0.fee_bps
            <= i128::MAX)),
{
}

/// `buy_bot` succeeds exactly for an active listing of someone else. A refusal
/// says what is missing, in this order, and asks for the buyer's authorization and
/// nothing more.
pub proof fn buy_bot_verdict(l: LedgerView, buyer: Address, listing_id: u64, marketplace: Address)
    ensures
        ({
            let outcome = buy_bot_outcome(l, buyer, listing_id, marketplace);
            let there = l.listings.contains_key(listing_id);
            let active = l.listings[listing_id].active;
            let own = l.listings[listing_id].seller == buyer;
            &&& !there ==> outcome.result == Err::<(), MarketplaceError>(
                MarketplaceError::ListingNotFound,
            )
            &&& there && !active ==> outcome.result == Err::<(), MarketplaceError>(
                MarketplaceError::ListingInactive,
            )
            &&& there && active && own ==> outcome.result == Err::<(), MarketplaceError>(
                MarketplaceError::SelfPurchase,
            )
            &&& there && active && !own ==> outcome.result is Ok
            &&& outcome.result is Err ==> outcome.actions.len() == 1 && outcome.actions[0]
                == ActionView::RequireAuth(buyer)
        }),
{
}

/// A purchase asks for the authorization of the buyer. Then the buyer pays, in the
/// currency of the listing: the price less the fee to the seller, and, only if
/// there is a fee, the fee to its recipient. The fee is the part of the price that
/// the basis points say, rounded toward zero.
pub proof fn purchases_are_paid_for(
    l: LedgerView,
    buyer: Address,
    listing_id: u64,
    marketplace: Address,
    fee: int,
)
    requires
        l.config is Some,
        l.listings.contains_key(listing_id),
        l.listings[listing_id].active,
        l.listings[listing_id].seller != buyer,
        i128::MIN <= l.listings[listing_id].price * l.config->0.fee_bps <= i128::MAX,
        l.listings[listing_id].price >= 0 ==> 10_000 * fee <= l.listings[listing_id].price
            * l.config->0.fee_bps < 10_000 * fee + 10_000,
        l.listings[listing_id].price < 0 ==> 10_000 * fee - 10_000 < l.listings[listing_id].price
            * l.config->0.fee_bps <= 10_000 * fee,
    ensures
        ({
            let listing = l.listings[listing_id];
            let actions = buy_bot_outcome(l, buyer, listing_id, marketplace).actions;
            &&& actions.len() == (if fee > 0 { 7int } else { 6int })
            &&& actions[0] == ActionView::RequireAuth(buyer)
            &&& actions[1] matches ActionView::TransferTokens { token, from, to, amount }
            &&& token == listing.currency
            &&& from == buyer
            &&& to == listing.seller
            &&& amount == listing.price - fee
            &&& fee > 0 ==> {
                &&& actions[2] matches ActionView::TransferTokens { token, from, to, amount }
                &&& token == listing.currency
                &&& from == buyer
                &&& to == l.config->0.fee_recipient
                &&& amount == fee
            }
            &&& forall|i: int|
                2 <= i < actions.len() && (#[trigger] actions[i]) is TransferTokens ==> i == 2
                    && fee > 0
        }),
{
    let price: int = l.listings[listing_id].price as int;
    let bps: int = l.config->0.fee_bps as int;
    assert((-price) * bps == -(price * bps)) by (nonlinear_arith);
    assert(price >= 0 ==> price * bps >= 0) by (nonlinear_arith)
        requires
            bps >= 0,
    ;
    assert(price <= 0 ==> price * bps <= 0) by (nonlinear_arith)
        requires
            bps >= 0,
    ;
    lemma_buy_bot_actions(l, buyer, listing_id, marketplace);
}

/// After the payments, a purchase moves the bot, by one call of the bots'
/// contract, from the marketplace to the buyer, stores twice, and ends by
/// announcing the sale.
pub proof fn purchases_deliver_the_bot(
    l: LedgerView,
    buyer: Address,
    listing_id: u64,
    marketplace: Address,
)
    requires
        l.listings.contains_key(listing_id),
        l.listings[listing_id].active,
        l.listings[listing_id].seller != buyer,
    ensures
        ({
            let listing = l.listings[listing_id];
            let actions = buy_bot_outcome(l, buyer, listing_id, marketplace).actions;
            let n = actions.len() as int;
            &&& n > 5
            &&& actions[0] == ActionView::RequireAuth(buyer)
            &&& forall|i: int| 0 < i < n - 4 ==> (#[trigger] actions[i]) is TransferTokens
            &&& actions[n - 4] matches ActionView::Invoke(call)
            &&& call.contract == l.config->0.bot_nft
            &&& call.function == "transfer"@
            &&& call.args.len() == 3
            &&& call.args[0] == Value::Address(marketplace)
            &&& call.args[1] == Value::Address(buyer)
            &&& call.args[2] == Value::U64(listing.bot_id)
            &&& actions[n - 3] is Store
            &&& actions[n - 2] is Store
            &&& actions[n - 1] == ActionView::Publish(
                Event::Sold {
                    seller: listing.seller,
                    buyer,
                    listing_id,
                    bot_id: listing.bot_id,
                    price: listing.price,
                },
            )
        }),
{
    lemma_buy_bot_actions(l, buyer, listing_id, marketplace);
}

/// Once a bot is bought, it belongs to the buyer, and nothing else has changed
/// hands.
pub proof fn bought_bots_go_to_the_buyer(
    l: LedgerView,
    owners: Map<u64, Address>,
    buyer: Address,
    listing_id: u64,
    marketplace: Address,
)
    requires
        l.listings.contains_key(listing_id),
        l.listings[listing_id].active,
        l.listings[listing_id].seller != buyer,
    ensures
        owners_after(
            owners,
            l.config->0.bot_nft,
            buy_bot_outcome(l, buyer, listing_id, marketplace).actions,
        ) == owners.insert(l.listings[listing_id].bot_id, buyer),
{
    lemma_buy_bot_actions(l, buyer, listing_id, marketplace);
    let actions = buy_bot_outcome(l, buyer, listing_id, marketplace).actions;
    lemma_owners_steps(owners, l.config->0.bot_nft, actions, actions.len() - 4);
}

/// A cancellation finds what it needs if there is a configuration; a refused one
/// needs none.
pub proof fn cancel_listing_has_room(l: LedgerView, seller: Address, listing_id: u64)
    ensures
        cancel_listing_fits(l, seller, listing_id) <==> (!l.listings.contains_key(listing_id)
            || !l.listings[listing_id].active || l.listings[listing_id].seller != seller
            || l.config is Some),
{
}

/// `cancel_listing` succeeds exactly for an active listing of the seller's own. A
/// refusal says what is missing, in this order, and asks for the authorization of
/// the one who made the request and nothing more.
pub proof fn cancel_listing_verdict(
    l: LedgerView,
    seller: Address,
    listing_id: u64,
    marketplace: Address,
)
    ensures
        ({
            let outcome = cancel_listing_outcome(l, seller, listing_id, marketplace);
            let there = l.listings.contains_key(listing_id);
            let active = l.listings[listing_id].active;
            let own = l.listings[listing_id].seller == seller;
            &&& !there ==> outcome.result == Err::<(), MarketplaceError>(
                MarketplaceError::ListingNotFound,
            )
            &&& there && !active ==> outcome.result == Err::<(), MarketplaceError>(
                MarketplaceError::ListingInactive,
            )
            &&& there && active && !own ==> outcome.result == Err::<(), MarketplaceError>(
                MarketplaceError::Unauthorized,
            )
            &&& there && active && own ==> outcome.result is Ok
            &&& outcome.result is Err ==> outcome.actions.len() == 1 && outcome.actions[0]
                == ActionView::RequireAuth(seller)
        }),
{
}

/// In every ledger, a seller who cancels an active listing gets the bot back: after
/// the seller's authorization one call of the bots' contract takes the bot of the
/// listing from the marketplace to that seller. No tokens move, and the
/// cancellation ends by announcing itself.
pub proof fn cancellations_return_the_bot(
    l: LedgerView,
    seller: Address,
    listing_id: u64,
    marketplace: Address,
)
    requires
        l.listings.contains_key(listing_id),
        l.listings[listing_id].active,
        l.listings[listing_id].seller == seller,
    ensures
        ({
            let outcome = cancel_listing_outcome(l, seller, listing_id, marketplace);
            let actions = outcome.actions;
            let bot_id = l.listings[listing_id].bot_id;
            &&& outcome.result is Ok
            &&& actions.len() == 5
            &&& actions[0] == ActionView::RequireAuth(seller)
            &&& actions[1] matches ActionView::Invoke(call)
            &&& call.contract == l.config->0.bot_nft
            &&& call.function == "transfer"@
            &&& call.args.len() == 3
            &&& call.args[0] == Value::Address(marketplace)
            &&& call.args[1] == Value::Address(seller)
            &&& call.args[2] == Value::U64(bot_id)
            &&& actions[2] is Store
            &&& actions[3] is Store
            &&& actions[4] == ActionView::Publish(Event::Cancel { seller, listing_id, bot_id })
        }),
{
}

/// Once a listing is cancelled, its seller owns the bot, and nothing else has
/// changed hands.
pub proof fn cancelled_bots_go_to_the_seller(
    l: LedgerView,
    owners: Map<u64, Address>,
    seller: Address,
    listing_id: u64,
    marketplace: Address,
)
    requires
        l.listings.contains_key(listing_id),
        l.listings[listing_id].active,
        l.listings[listing_id].seller == seller,
    ensures
        owners_after(
            owners,
            l.config->0.bot_nft,
            cancel_listing_outcome(l, seller, listing_id, marketplace).actions,
        ) == owners.insert(l.listings[listing_id].bot_id, seller),
{
    let actions = cancel_listing_outcome(l, seller, listing_id, marketplace).actions;
    lemma_owners_steps(owners, l.config->0.bot_nft, actions, 1);
}

/// `set_fee_bps` makes the fee what it is given, whatever that is, and changes no
/// other setting and no other entry. It is refused exactly if there is no
/// configuration, and then asks for nothing.
pub proof fn set_fee_bps_sets_what_it_is_given(l: LedgerView, new_fee_bps: u32)
    ensures
        l.config is None ==> {
            let outcome = set_fee_bps_outcome(l, new_fee_bps);
            &&& outcome.result == Err::<(), MarketplaceError>(MarketplaceError::NotInitialized)
            &&& outcome.actions.len() == 0
        },
        l.config matches Some(before) ==> {
            let outcome = set_fee_bps_outcome(l, new_fee_bps);
            let next = l.after(outcome.actions);
            &&& outcome.result is Ok
            &&& next.config matches Some(config)
            &&& config.bot_nft == before.bot_nft
            &&& config.admin == before.admin
            &&& config.fee_bps == new_fee_bps
            &&& config.fee_recipient == before.fee_recipient
            &&& next.initialized == l.initialized
            &&& next.next_listing_id == l.next_listing_id
            &&& next.active_listings == l.active_listings
            &&& next.listings == l.listings
            &&& next.user_listings == l.user_listings
        },
{
    if l.config is Some {
        let request = Request::SetFeeBps { new_fee_bps };
        lemma_after_settings(l, request, l.config->0.admin);
    }
}

/// `set_fee_bps` asks for the authorization of the administrator of the moment,
/// stores once, keeps the instance alive, and announces what was and what is.
pub proof fn set_fee_bps_asks_for(l: LedgerView, new_fee_bps: u32)
    requires
        l.config is Some,
    ensures
        ({
            let actions = set_fee_bps_outcome(l, new_fee_bps).actions;
            &&& actions.len() == 4
            &&& actions[0] == ActionView::RequireAuth(l.config->0.admin)
            &&& actions[1] is Store
            &&& actions[2] == (ActionView::ExtendInstanceTtl {
                threshold: 103680,
                extend_to: 120960,
            })
            &&& actions[3] == ActionView::Publish(
                Event::FeeBpsUpdated { old_fee_bps: l.config->0.fee_bps, new_fee_bps },
            )
        }),
{
}

/// `set_fee_recipient` makes the recipient of the fees what it is given, whatever that is, and changes no
/// other setting and no other entry. It is refused exactly if there is no
/// configuration, and then asks for nothing.
pub proof fn set_fee_recipient_sets_what_it_is_given(l: LedgerView, new_recipient: Address)
    ensures
        l.config is None ==> {
            let outcome = set_fee_recipient_outcome(l, new_recipient);
            &&& outcome.result == Err::<(), MarketplaceError>(MarketplaceError::NotInitialized)
            &&& outcome.actions.len() == 0
        },
        l.config matches Some(before) ==> {
            let outcome = set_fee_recipient_outcome(l, new_recipient);
            let next = l.after(outcome.actions);
            &&& outcome.result is Ok
            &&& next.config matches Some(config)
            &&& config.bot_nft == before.bot_nft
            &&& config.admin == before.admin
            &&& config.fee_bps == before.fee_bps
            &&& config.fee_recipient == new_recipient
            &&& next.initialized == l.initialized
            &&& next.next_listing_id == l.next_listing_id
            &&& next.active_listings == l.active_listings
            &&& next.listings == l.listings
            &&& next.user_listings == l.user_listings
        },
{
    if l.config is Some {
        let request = Request::SetFeeRecipient { new_recipient };
        lemma_after_settings(l, request, l.config->0.admin);
    }
}

/// `set_fee_recipient` asks for the authorization of the administrator of the moment,
/// stores once, keeps the instance alive, and announces what was and what is.
pub proof fn set_fee_recipient_asks_for(l: LedgerView, new_recipient: Address)
    requires
        l.config is Some,
    ensures
        ({
            let actions = set_fee_recipient_outcome(l, new_recipient).actions;
            &&& actions.len() == 4
            &&& actions[0] == ActionView::RequireAuth(l.config->0.admin)
            &&& actions[1] is Store
            &&& actions[2] == (ActionView::ExtendInstanceTtl {
                threshold: 103680,
                extend_to: 120960,
            })
            &&& actions[3] == ActionView::Publish(
                Event::FeeRecipientUpdated { old_recipient: l.config->0.fee_recipient, new_recipient },
            )
        }),
{
}

/// `set_bot_nft` makes the contract of the bots what it is given, whatever that is, and changes no
/// other setting and no other entry. It is refused exactly if there is no
/// configuration, and then asks for nothing.
pub proof fn set_bot_nft_sets_what_it_is_given(l: LedgerView, new_bot_nft: Address)
    ensures
        l.config is None ==> {
            let outcome = set_bot_nft_outcome(l, new_bot_nft);
            &&& outcome.result == Err::<(), MarketplaceError>(MarketplaceError::NotInitialized)
            &&& outcome.actions.len() == 0
        },
        l.config matches Some(before) ==> {
            let outcome = set_bot_nft_outcome(l, new_bot_nft);
            let next = l.after(outcome.actions);
            &&& outcome.result is Ok
            &&& next.config matches Some(config)
            &&& config.bot_nft == new_bot_nft
            &&& config.admin == before.admin
            &&& config.fee_bps == before.fee_bps
            &&& config.fee_recipient == before.fee_recipient
            &&& next.initialized == l.initialized
            &&& next.next_listing_id == l.next_listing_id
            &&& next.active_listings == l.active_listings
            &&& next.listings == l.listings
            &&& next.user_listings == l.user_listings
        },
{
    if l.config is Some {
        let request = Request::SetBotNft { new_bot_nft };
        lemma_after_settings(l, request, l.config->0.admin);
    }
}

/// `set_bot_nft` asks for the authorization of the administrator of the moment,
/// stores once, keeps the instance alive, and announces what was and what is.
pub proof fn set_bot_nft_asks_for(l: LedgerView, new_bot_nft: Address)
    requires
        l.config is Some,
    ensures
        ({
            let actions = set_bot_nft_outcome(l, new_bot_nft).actions;
            &&& actions.len() == 4
            &&& actions[0] == ActionView::RequireAuth(l.config->0.admin)
            &&& actions[1] is Store
            &&& actions[2] == (ActionView::ExtendInstanceTtl {
                threshold: 103680,
                extend_to: 120960,
            })
            &&& actions[3] == ActionView::Publish(
                Event::BotNftUpdated { old_nft: l.config->0.bot_nft, new_nft: new_bot_nft },
            )
        }),
{
}

/// `set_admin` makes the administrator what it is given, whatever that is, and changes no
/// other setting and no other entry. It is refused exactly if there is no
/// configuration, and then asks for nothing.
pub proof fn set_admin_sets_what_it_is_given(l: LedgerView, new_admin: Address)
    ensures
        l.config is None ==> {
            let outcome = set_admin_outcome(l, new_admin);
            &&& outcome.result == Err::<(), MarketplaceError>(MarketplaceError::NotInitialized)
            &&& outcome.actions.len() == 0
        },
        l.config matches Some(before) ==> {
            let outcome = set_admin_outcome(l, new_admin);
            let next = l.after(outcome.actions);
            &&& outcome.result is Ok
            &&& next.config matches Some(config)
            &&& config.bot_nft == before.bot_nft
            &&& config.admin == new_admin
            &&& config.fee_bps == before.fee_bps
            &&& config.fee_recipient == before.fee_recipient
            &&& next.initialized == l.initialized
            &&& next.next_listing_id == l.next_listing_id
            &&& next.active_listings == l.active_listings
            &&& next.listings == l.listings
            &&& next.user_listings == l.user_listings
        },
{
    if l.config is Some {
        let request = Request::SetAdmin { new_admin };
        lemma_after_settings(l, request, l.config->0.admin);
    }
}

/// `set_admin` asks for the authorization of the administrator of the moment,
/// stores once, keeps the instance alive, and announces what was and what is.
pub proof fn set_admin_asks_for(l: LedgerView, new_admin: Address)
    requires
        l.config is Some,
    ensures
        ({
            let actions = set_admin_outcome(l, new_admin).actions;
            &&& actions.len() == 4
            &&& actions[0] == ActionView::RequireAuth(l.config->0.admin)
            &&& actions[1] is Store
            &&& actions[2] == (ActionView::ExtendInstanceTtl {
                threshold: 103680,
                extend_to: 120960,
            })
            &&& actions[3] == ActionView::Publish(
                Event::AdminUpdated { old_admin: l.config->0.admin, new_admin },
            )
        }),
{
}

} // verus!
