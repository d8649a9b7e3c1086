//! What the marketplace answers to each request, as mathematics.
use crate::action::{ActionView, Event, InvocationView, OutcomeView, Value};
use crate::ledger::{LedgerView, WriteView};
use crate::types::{
    Address, Config, DataKey, FEE_BPS, LEDGER_BUMP, LEDGER_THRESHOLD, Listing, MarketplaceError,
};
use vstd::prelude::*;

verus! {

/// The marketplace fee on a price, rounded toward zero.
pub open spec fn fee_on(price: int, fee_bps: int) -> int {
    if price >= 0 {
        price * fee_bps / 10_000
    } else {
        -((-price) * fee_bps / 10_000)
    }
}

/// The ids other than a given one.
pub open spec fn other_than(id: u64) -> spec_fn(u64) -> bool {
    |other: u64| other != id
}

/// Looks an id up among the listings.
pub open spec fn stored(listings: Map<u64, Listing>) -> spec_fn(u64) -> Option<Listing> {
    |id: u64|
        if listings.contains_key(id) {
            Some(listings[id])
        } else {
            None
        }
}

/// Looks an id up among the active listings.
pub open spec fn on_sale(listings: Map<u64, Listing>) -> spec_fn(u64) -> Option<Listing> {
    |id: u64|
        if listings.contains_key(id) && listings[id].active {
            Some(listings[id])
        } else {
            None
        }
}

/// The items from a position on; none if the position is past the end.
pub open spec fn from_position<A>(s: Seq<A>, start: int) -> Seq<A> {
    if start < s.len() {
        s.skip(start)
    } else {
        Seq::empty()
    }
}

/// The first items, at most a given number of them.
pub open spec fn at_most<A>(s: Seq<A>, limit: int) -> Seq<A> {
    if limit <= 0 {
        Seq::empty()
    } else if limit < s.len() {
        s.take(limit)
    } else {
        s
    }
}

/// One page of the active listings: of the ids from position `start` on, those
/// whose listing is active, in order, at most `limit` of them.
pub open spec fn active_page(
    ids: Seq<u64>,
    listings: Map<u64, Listing>,
    start: int,
    limit: int,
) -> Seq<Listing> {
    at_most(from_position(ids, start).filter_map(on_sale(listings)), limit)
}

/// The listing with which a bot is put up for sale.
pub open spec fn new_listing(
    id: u64,
    seller: Address,
    bot_id: u64,
    bot_tier: u32,
    price: i128,
    currency: Address,
    timestamp: u64,
) -> Listing {
    Listing { id, seller, bot_id, bot_tier, price, currency, listed_at: timestamp, active: true }
}

/// A listing that is over.
pub open spec fn closed_listing(listing: Listing) -> Listing {
    Listing { active: false, ..listing }
}

/// The call that moves a bot from one party to another.
pub open spec fn bot_transfer(
    bot_nft: Address,
    from: Address,
    to: Address,
    bot_id: u64,
) -> InvocationView {
    InvocationView {
        contract: bot_nft,
        function: "transfer"@,
        args: seq![Value::Address(from), Value::Address(to), Value::U64(bot_id)],
    }
}

/// The action that keeps the instance entries alive.
pub open spec fn keep_alive() -> ActionView {
    ActionView::ExtendInstanceTtl { threshold: LEDGER_THRESHOLD, extend_to: LEDGER_BUMP }
}

/// The answer to a request that is refused after its maker's authorization.
pub open spec fn refused<T>(party: Address, error: MarketplaceError) -> OutcomeView<T> {
    OutcomeView { actions: seq![ActionView::RequireAuth(party)], result: Err(error) }
}

/// The answer to `initialize`.
pub open spec fn initialize_outcome(
    l: LedgerView,
    admin: Address,
    bot_nft: Address,
    fee_recipient: Address,
) -> OutcomeView<()> {
    if l.initialized {
        OutcomeView { actions: Seq::empty(), result: Err(MarketplaceError::AlreadyInitialized) }
    } else {
        OutcomeView {
            actions: seq![
                ActionView::RequireAuth(admin),
                ActionView::Store(
                    WriteView::Config(Config { bot_nft, admin, fee_bps: FEE_BPS, fee_recipient }),
                ),
                ActionView::Store(WriteView::Initialized),
                ActionView::Store(WriteView::NextListingId(1)),
                ActionView::Store(WriteView::ActiveListings(Seq::empty())),
                keep_alive(),
                ActionView::Publish(Event::Initialized { admin, bot_nft, fee_recipient }),
            ],
            result: Ok(()),
        }
    }
}

/// Whether the ids that `list_bot` hands out and the lists that it lengthens stay
/// within their machine types.
pub open spec fn list_bot_fits(l: LedgerView, seller: Address, price: i128) -> bool {
    price > 0 && l.config is Some ==> {
        &&& l.next_id() < u64::MAX
        &&& l.active_ids().len() < u32::MAX
        &&& l.ids_of(seller).len() < u32::MAX
    }
}

/// The answer to `list_bot`.
pub open spec fn list_bot_outcome(
    l: LedgerView,
    seller: Address,
    bot_id: u64,
    bot_tier: u32,
    price: i128,
    currency: Address,
    marketplace: Address,
    timestamp: u64,
) -> OutcomeView<u64> {
    if price <= 0 {
        refused(seller, MarketplaceError::InvalidPrice)
    } else if l.config is None {
        refused(seller, MarketplaceError::NotInitialized)
    } else {
        let id = l.next_id();
        OutcomeView {
            actions: seq![
                ActionView::RequireAuth(seller),
                ActionView::Invoke(bot_transfer(l.config->0.bot_nft, seller, marketplace, bot_id)),
                ActionView::Store(
                    WriteView::Listing(
                        id,
                        new_listing(id, seller, bot_id, bot_tier, price, currency, timestamp),
                    ),
                ),
                ActionView::ExtendTtl {
                    key: DataKey::Listing(id),
                    threshold: LEDGER_THRESHOLD,
                    extend_to: LEDGER_BUMP,
                },
                ActionView::Store(WriteView::ActiveListings(l.active_ids().push(id))),
                ActionView::Store(WriteView::UserListings(seller, l.ids_of(seller).push(id))),
                ActionView::Store(WriteView::NextListingId((id + 1) as u64)),
                keep_alive(),
                ActionView::Publish(Event::Listed { seller, listing_id: id, bot_id, price }),
            ],
            result: Ok(id),
        }
    }
}

/// Whether a listing is there, active, and offered by someone other than the
/// buyer.
pub open spec fn can_buy(l: LedgerView, buyer: Address, listing_id: u64) -> bool {
    &&& l.listings.contains_key(listing_id)
    &&& l.listings[listing_id].active
    &&& l.listings[listing_id].seller != buyer
}

/// Whether a purchase finds a configuration, and its fee can be computed within
/// the machine type of prices.
pub open spec fn buy_bot_fits(l: LedgerView, buyer: Address, listing_id: u64) -> bool {
    can_buy(l, buyer, listing_id) ==> {
        &&& l.config is Some
        &&& i128::MIN <= l.listings[listing_id].price * l.config->0.fee_bps <= i128::MAX
    }
}

/// The payments of a purchase: the price less the fee to the seller, and the
/// fee, if there is one, to its recipient.
pub open spec fn payments(listing: Listing, config: Config, buyer: Address) -> Seq<ActionView> {
    let fee = fee_on(listing.price as int, config.fee_bps as int);
    let to_seller = ActionView::TransferTokens {
        token: listing.currency,
        from: buyer,
        to: listing.seller,
        amount: (listing.price - fee) as i128,
    };
    let to_recipient = ActionView::TransferTokens {
        token: listing.currency,
        from: buyer,
        to: config.fee_recipient,
        amount: fee as i128,
    };
    if fee > 0 {
        seq![to_seller, to_recipient]
    } else {
        seq![to_seller]
    }
}

/// The answer to `buy_bot`.
pub open spec fn buy_bot_outcome(
    l: LedgerView,
    buyer: Address,
    listing_id: u64,
    marketplace: Address,
) -> OutcomeView<()> {
    let listing = l.listings[listing_id];
    if !l.listings.contains_key(listing_id) {
        refused(buyer, MarketplaceError::ListingNotFound)
    } else if !listing.active {
        refused(buyer, MarketplaceError::ListingInactive)
    } else if listing.seller == buyer {
        refused(buyer, MarketplaceError::SelfPurchase)
    } else {
        OutcomeView {
            actions: seq![ActionView::RequireAuth(buyer)] + payments(listing, l.config->0, buyer)
                + seq![
                ActionView::Invoke(
                    bot_transfer(l.config->0.bot_nft, marketplace, buyer, listing.bot_id),
                ),
                ActionView::Store(WriteView::Listing(listing_id, closed_listing(listing))),
                ActionView::Store(
                    WriteView::ActiveListings(l.active_ids().filter(other_than(listing_id))),
                ),
                ActionView::Publish(
                    Event::Sold {
                        seller: listing.seller,
                        buyer,
                        listing_id,
                        bot_id: listing.bot_id,
                        price: listing.price,
                    },
                ),
            ],
            result: Ok(()),
        }
    }
}

/// Whether a listing is there, active, and offered by this seller.
pub open spec fn can_cancel(l: LedgerView, seller: Address, listing_id: u64) -> bool {
    &&& l.listings.contains_key(listing_id)
    &&& l.listings[listing_id].active
    &&& l.listings[listing_id].seller == seller
}

/// Whether a cancellation finds a configuration.
pub open spec fn cancel_listing_fits(l: LedgerView, seller: Address, listing_id: u64) -> bool {
    can_cancel(l, seller, listing_id) ==> l.config is Some
}

/// The answer to `cancel_listing`.
pub open spec fn cancel_listing_outcome(
    l: LedgerView,
    seller: Address,
    listing_id: u64,
    marketplace: Address,
) -> OutcomeView<()> {
    let listing = l.listings[listing_id];
    if !l.listings.contains_key(listing_id) {
        refused(seller, MarketplaceError::ListingNotFound)
    } else if !listing.active {
        refused(seller, MarketplaceError::ListingInactive)
    } else if listing.seller != seller {
        refused(seller, MarketplaceError::Unauthorized)
    } else {
        OutcomeView {
            actions: seq![
                ActionView::RequireAuth(seller),
                ActionView::Invoke(
                    bot_transfer(l.config->0.bot_nft, marketplace, seller, listing.bot_id),
                ),
                ActionView::Store(WriteView::Listing(listing_id, closed_listing(listing))),
                ActionView::Store(
                    WriteView::ActiveListings(l.active_ids().filter(other_than(listing_id))),
                ),
                ActionView::Publish(
                    Event::Cancel { seller, listing_id, bot_id: listing.bot_id },
                ),
            ],
            result: Ok(()),
        }
    }
}

/// The answer to a request to replace the configuration.
pub open spec fn configure_outcome(
    l: LedgerView,
    changed: Config,
    event: Event,
) -> OutcomeView<()> {
    match l.config {
        None => OutcomeView {
            actions: Seq::empty(),
            result: Err(MarketplaceError::NotInitialized),
        },
        Some(config) => OutcomeView {
            actions: seq![
                ActionView::RequireAuth(config.admin),
                ActionView::Store(WriteView::Config(changed)),
                keep_alive(),
                ActionView::Publish(event),
            ],
            result: Ok(()),
        },
    }
}

/// The answer to `set_fee_bps`.
pub open spec fn set_fee_bps_outcome(l: LedgerView, new_fee_bps: u32) -> OutcomeView<()> {
    configure_outcome(
        l,
        Config { fee_bps: new_fee_bps, ..l.config->0 },
        Event::FeeBpsUpdated { old_fee_bps: l.config->0.fee_bps, new_fee_bps },
    )
}

/// The answer to `set_fee_recipient`.
pub open spec fn set_fee_recipient_outcome(
    l: LedgerView,
    new_recipient: Address,
) -> OutcomeView<()> {
    configure_outcome(
        l,
        Config { fee_recipient: new_recipient, ..l.config->0 },
        Event::FeeRecipientUpdated { old_recipient: l.config->0.fee_recipient, new_recipient },
    )
}

/// The answer to `set_bot_nft`.
pub open spec fn set_bot_nft_outcome(l: LedgerView, new_bot_nft: Address) -> OutcomeView<()> {
    configure_outcome(
        l,
        Config { bot_nft: new_bot_nft, ..l.config->0 },
        Event::BotNftUpdated { old_nft: l.config->0.bot_nft, new_nft: new_bot_nft },
    )
}

/// The answer to `set_admin`.
pub open spec fn set_admin_outcome(l: LedgerView, new_admin: Address) -> OutcomeView<()> {
    configure_outcome(
        l,
        Config { admin: new_admin, ..l.config->0 },
        Event::AdminUpdated { old_admin: l.config->0.admin, new_admin },
    )
}

} // verus!
