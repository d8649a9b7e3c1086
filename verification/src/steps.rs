//! The ledger that each request leaves, written out.
use crate::action::{ActionView, Event};
use crate::history::Request;
use crate::ledger::{LedgerView, WriteView};
use crate::model::{
    bot_transfer, buy_bot_outcome, can_buy, can_cancel, cancel_listing_outcome, closed_listing,
    configure_outcome, initialize_outcome, list_bot_outcome, new_listing, other_than, payments,
};
use crate::types::{Address, Config, FEE_BPS};
use vstd::prelude::*;

verus! {

/// Carrying out a list of actions is carrying out one after the other.
pub(crate) proof fn lemma_after_steps(l: LedgerView, actions: Seq<ActionView>)
    ensures
        l.after(actions) == l.after(actions.take(actions.len() as int)),
        l.after(actions.take(0)) == l,
        forall|i: int|
            0 < i <= actions.len() ==> #[trigger] l.after(actions.take(i)) == l.after(
                actions.take(i - 1),
            ).apply(actions[i - 1]),
{
    assert(actions.take(actions.len() as int) =~= actions);
    assert forall|i: int| 0 < i <= actions.len() implies #[trigger] l.after(actions.take(i))
        == l.after(actions.take(i - 1)).apply(actions[i - 1]) by {
        assert(actions.take(i).drop_last() =~= actions.take(i - 1));
    }
}

pub(crate) proof fn lemma_after_add(l: LedgerView, a: Seq<ActionView>, b: Seq<ActionView>)
    ensures
        l.after(a + b) == l.after(a).after(b),
    decreases b.len(),
{
    if b.len() == 0 {
        assert(a + b =~= a);
    } else {
        assert((a + b).drop_last() =~= a + b.drop_last());
        lemma_after_add(l, a, b.drop_last());
    }
}

/// The ledger that a successful `initialize` leaves.
pub(crate) proof fn lemma_after_initialize(
    l: LedgerView,
    admin: Address,
    bot_nft: Address,
    fee_recipient: Address,
)
    requires
        !l.initialized,
    ensures
        l.after(initialize_outcome(l, admin, bot_nft, fee_recipient).actions) == (LedgerView {
            initialized: true,
            config: Some(Config { bot_nft, admin, fee_bps: FEE_BPS, fee_recipient }),
            next_listing_id: Some(1),
            active_listings: Some(Seq::empty()),
            ..l
        }),
{
    lemma_after_steps(l, initialize_outcome(l, admin, bot_nft, fee_recipient).actions);
}

/// The ledger that a successful `list_bot` leaves.
pub(crate) proof fn lemma_after_list_bot(
    l: LedgerView,
    seller: Address,
    bot_id: u64,
    bot_tier: u32,
    price: i128,
    currency: Address,
    marketplace: Address,
    timestamp: u64,
)
    requires
        price > 0,
        l.config is Some,
    ensures
        l.after(
            list_bot_outcome(
                l,
                seller,
                bot_id,
                bot_tier,
                price,
                currency,
                marketplace,
                timestamp,
            ).actions,
        ) == (LedgerView {
            next_listing_id: Some((l.next_id() + 1) as u64),
            active_listings: Some(l.active_ids().push(l.next_id())),
            listings: l.listings.insert(
                l.next_id(),
                new_listing(l.next_id(), seller, bot_id, bot_tier, price, currency, timestamp),
            ),
            user_listings: l.user_listings.insert(seller, l.ids_of(seller).push(l.next_id())),
            ..l
        }),
{
    let outcome = list_bot_outcome(
        l,
        seller,
        bot_id,
        bot_tier,
        price,
        currency,
        marketplace,
        timestamp,
    );
    lemma_after_steps(l, outcome.actions);
}

/// The ledger in which a listing is over.
pub open spec fn with_closed(l: LedgerView, listing_id: u64) -> LedgerView {
    LedgerView {
        active_listings: Some(l.active_ids().filter(other_than(listing_id))),
        listings: l.listings.insert(listing_id, closed_listing(l.listings[listing_id])),
        ..l
    }
}

/// The ledger that a successful `buy_bot` leaves.
pub(crate) proof fn lemma_after_buy_bot(
    l: LedgerView,
    buyer: Address,
    listing_id: u64,
    marketplace: Address,
)
    requires
        can_buy(l, buyer, listing_id),
    ensures
        l.after(buy_bot_outcome(l, buyer, listing_id, marketplace).actions) == with_closed(
            l,
            listing_id,
        ),
{
    let listing = l.listings[listing_id];
    let pay = payments(listing, l.config->0, buyer);
    let all = buy_bot_outcome(l, buyer, listing_id, marketplace).actions;
    let head = seq![ActionView::RequireAuth(buyer)];
    let tail = all.skip(1 + pay.len() as int);
    lemma_after_add(l, head + pay, tail);
    lemma_after_add(l, head, pay);
    assert(all =~= head + pay + tail);
    let closing = seq![
        ActionView::Invoke(bot_transfer(l.config->0.bot_nft, marketplace, buyer, listing.bot_id)),
        ActionView::Store(WriteView::Listing(listing_id, closed_listing(listing))),
        ActionView::Store(
            WriteView::ActiveListings(l.active_ids().filter(other_than(listing_id))),
        ),
        all.last(),
    ];
    assert(tail =~= closing);
    lemma_after_steps(l, head);
    lemma_after_steps(l, pay);
    lemma_after_steps(l, closing);
}

/// The actions of a purchase, one by one.
pub(crate) proof fn lemma_buy_bot_actions(
    l: LedgerView,
    buyer: Address,
    listing_id: u64,
    marketplace: Address,
)
    requires
        can_buy(l, buyer, listing_id),
    ensures
        ({
            let listing = l.listings[listing_id];
            let pay = payments(listing, l.config->0, buyer);
            let n: int = 1 + pay.len() as int;
            let actions = buy_bot_outcome(l, buyer, listing_id, marketplace).actions;
            &&& 1 <= pay.len() <= 2
            &&& actions.len() == n + 4
            &&& actions[0] == ActionView::RequireAuth(buyer)
            &&& forall|i: int| 1 <= i < n ==> (#[trigger] actions[i]) is TransferTokens
            &&& actions[n] == ActionView::Invoke(
                bot_transfer(l.config->0.bot_nft, marketplace, buyer, listing.bot_id),
            )
            &&& actions[n + 1] is Store
            &&& actions[n + 2] is Store
            &&& actions[n + 3] is Publish
        }),
{
}

/// The ledger that a successful `cancel_listing` leaves.
pub(crate) proof fn lemma_after_cancel_listing(
    l: LedgerView,
    seller: Address,
    listing_id: u64,
    marketplace: Address,
)
    requires
        can_cancel(l, seller, listing_id),
    ensures
        l.after(cancel_listing_outcome(l, seller, listing_id, marketplace).actions) == with_closed(
            l,
            listing_id,
        ),
{
    lemma_after_steps(l, cancel_listing_outcome(l, seller, listing_id, marketplace).actions);
}

/// The ledger that the administrator's change of the configuration leaves.
pub(crate) proof fn lemma_after_configure(l: LedgerView, changed: Config, event: Event)
    requires
        l.config is Some,
    ensures
        l.after(configure_outcome(l, changed, event).actions) == (LedgerView {
            config: Some(changed),
            ..l
        }),
{
    lemma_after_steps(l, configure_outcome(l, changed, event).actions);
}

/// The configuration with the setting that a request is about.
pub open spec fn changed_config(config: Config, request: Request) -> Config {
    match request {
        Request::SetFeeBps { new_fee_bps } => Config { fee_bps: new_fee_bps, ..config },
        Request::SetFeeRecipient { new_recipient } => Config {
            fee_recipient: new_recipient,
            ..config
        },
        Request::SetBotNft { new_bot_nft } => Config { bot_nft: new_bot_nft, ..config },
        Request::SetAdmin { new_admin } => Config { admin: new_admin, ..config },
        _ => config,
    }
}

/// The ledger that a successful change of the settings leaves.
pub(crate) proof fn lemma_after_settings(l: LedgerView, request: Request, marketplace: Address)
    requires
        l.config is Some,
        request is SetFeeBps || request is SetFeeRecipient || request is SetBotNft
            || request is SetAdmin,
    ensures
        request.next(l, marketplace) == (LedgerView {
            config: Some(changed_config(l.config->0, request)),
            ..l
        }),
{
    match request {
        Request::SetFeeBps { new_fee_bps } => {
            lemma_after_configure(
                l,
                changed_config(l.config->0, request),
                Event::FeeBpsUpdated { old_fee_bps: l.config->0.fee_bps, new_fee_bps },
            );
        },
        Request::SetFeeRecipient { new_recipient } => {
            lemma_after_configure(
                l,
                changed_config(l.config->0, request),
                Event::FeeRecipientUpdated {
                    old_recipient: l.config->0.fee_recipient,
                    new_recipient,
                },
            );
        },
        Request::SetBotNft { new_bot_nft } => {
            lemma_after_configure(
                l,
                changed_config(l.config->0, request),
                Event::BotNftUpdated { old_nft: l.config->0.bot_nft, new_nft: new_bot_nft },
            );
        },
        Request::SetAdmin { new_admin } => {
            lemma_after_configure(
                l,
                changed_config(l.config->0, request),
                Event::AdminUpdated { old_admin: l.config->0.admin, new_admin },
            );
        },
        _ => {},
    }
}

} // verus!
