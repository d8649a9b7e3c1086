//! The requests that the marketplace answers.
use crate::action::{Action, ActionView, Event, Invocation, Outcome, OutcomeView, Value};
use crate::id_list::IdList;
use crate::ledger::{Ledger, Write, WriteView};
use crate::model::{
    active_page, bot_transfer, buy_bot_fits, buy_bot_outcome, cancel_listing_fits,
    cancel_listing_outcome, fee_on, initialize_outcome, keep_alive, list_bot_fits,
    list_bot_outcome, other_than, refused, set_admin_outcome, set_bot_nft_outcome,
    set_fee_bps_outcome, set_fee_recipient_outcome, stored,
};
use crate::scan::{ActiveScan, scan_ends_with_page, scan_keeps_page, scan_starts_with_page};
use crate::types::{
    Address, BPS_DENOMINATOR, Config, DataKey, FEE_BPS, LEDGER_BUMP, LEDGER_THRESHOLD, Listing,
    MarketplaceError,
};
use soroban_sdk::Env;
use vstd::prelude::*;

verus! {

/// The call that moves a bot from one party to another.
fn call_bot_transfer(
    bot_nft: Address,
    from: Address,
    to: Address,
    bot_id: u64,
) -> (call: Invocation)
    ensures
        call@ == bot_transfer(bot_nft, from, to, bot_id),
{
    Invocation {
        contract: bot_nft,
        function: "transfer",
        args: vec![Value::Address(from), Value::Address(to), Value::U64(bot_id)],
    }
}

/// The marketplace contract.
///
/// Each request is answered from the ledger entries, in an [`Outcome`] that says
/// what the network is to do and what the request returns. The requests that
/// only read return their result alone.
pub struct MarketplaceContract;

impl MarketplaceContract {
    /// Sets the marketplace up, with the default fee and no listings.
    ///
    /// Refused with `AlreadyInitialized` if it is set up already.
    pub fn initialize(
        env: &Env,
        ledger: &Ledger,
        admin: Address,
        bot_nft: Address,
        fee_recipient: Address,
    ) -> (outcome: Outcome<()>)
        ensures
            outcome@ == initialize_outcome(ledger@, admin, bot_nft, fee_recipient),
    {
        if ledger.is_initialized() {
            return Outcome {
                actions: Vec::new(),
                result: Err(MarketplaceError::AlreadyInitialized),
            };
        }
        let config = Config { bot_nft, admin, fee_bps: FEE_BPS, fee_recipient };
        Outcome {
            actions: vec![
                Action::RequireAuth(admin),
                Action::Store(Write::Config(config)),
                Action::Store(Write::Initialized),
                Action::Store(Write::NextListingId(1)),
                Action::Store(Write::ActiveListings(IdList::new(env))),
                Action::ExtendInstanceTtl { threshold: LEDGER_THRESHOLD, extend_to: LEDGER_BUMP },
                Action::Publish(Event::Initialized { admin, bot_nft, fee_recipient }),
            ],
            result: Ok(()),
        }
    }

    /// Puts a bot up for sale, and returns the id of the listing. The bot moves
    /// from the seller to the marketplace.
    ///
    /// Refused with `InvalidPrice` unless the price is positive, and with
    /// `NotInitialized` before the marketplace is set up.
    pub fn list_bot(
        env: &Env,
        ledger: &Ledger,
        seller: Address,
        bot_id: u64,
        bot_tier: u32,
        price: i128,
        currency: Address,
        marketplace: Address,
        timestamp: u64,
    ) -> (outcome: Outcome<u64>)
        requires
            list_bot_fits(ledger@, seller, price),
        ensures
            outcome@ == list_bot_outcome(
                ledger@,
                seller,
                bot_id,
                bot_tier,
                price,
                currency,
                marketplace,
                timestamp,
            ),
    {
        if price <= 0 {
            return Self::refuse(seller, MarketplaceError::InvalidPrice);
        }
        let config = match ledger.config() {
            Some(config) => config,
            None => {
                return Self::refuse(seller, MarketplaceError::NotInitialized);
            },
        };
        let listing_id: u64 = ledger.next_listing_id();
        let listing = Listing {
            id: listing_id,
            seller,
            bot_id,
            bot_tier,
            price,
            currency,
            listed_at: timestamp,
            active: true,
        };
        let active = ledger.active_listings(env).with(listing_id);
        let user_listings = ledger.user_listings(env, &seller).with(listing_id);
        Outcome {
            actions: vec![
                Action::RequireAuth(seller),
                Action::Invoke(call_bot_transfer(config.bot_nft, seller, marketplace, bot_id)),
                Action::Store(Write::Listing(listing_id, listing)),
                Action::ExtendTtl {
                    key: DataKey::Listing(listing_id),
                    threshold: LEDGER_THRESHOLD,
                    extend_to: LEDGER_BUMP,
                },
                Action::Store(Write::ActiveListings(active)),
                Action::Store(Write::UserListings(seller, user_listings)),
                Action::Store(Write::NextListingId(listing_id + 1)),
                Action::ExtendInstanceTtl { threshold: LEDGER_THRESHOLD, extend_to: LEDGER_BUMP },
                Action::Publish(Event::Listed { seller, listing_id, bot_id, price }),
            ],
            result: Ok(listing_id),
        }
    }

    /// Buys a listed bot. The buyer pays the price in the listing's currency: the
    /// fee to its recipient, the rest to the seller. The bot moves from the
    /// marketplace to the buyer.
    ///
    /// Refused with `ListingNotFound` if there is no such listing, with
    /// `ListingInactive` if it is over, and with `SelfPurchase` if the buyer is
    /// its seller.
    pub fn buy_bot(
        env: &Env,
        ledger: &Ledger,
        buyer: Address,
        listing_id: u64,
        marketplace: Address,
    ) -> (outcome: Outcome<()>)
        requires
            buy_bot_fits(ledger@, buyer, listing_id),
        ensures
            outcome@ == buy_bot_outcome(ledger@, buyer, listing_id, marketplace),
    {
        let mut listing = match ledger.listing(listing_id) {
            Some(listing) => listing,
            None => {
                return Self::refuse(buyer, MarketplaceError::ListingNotFound);
            },
        };
        if !listing.active {
            return Self::refuse(buyer, MarketplaceError::ListingInactive);
        }
        if listing.seller == buyer {
            return Self::refuse(buyer, MarketplaceError::SelfPurchase);
        }
        let config = ledger.config().unwrap();
        let ghost offered = listing;
        proof {
            let price: int = listing.price as int;
            let bps: int = config.fee_bps as int;
            assert((-price) * bps == -(price * bps)) by (nonlinear_arith);
            assert(price >= 0 ==> price * bps >= 0) by (nonlinear_arith)
                requires
                    bps >= 0,
            ;
            assert(price <= 0 ==> price * bps <= 0) by (nonlinear_arith)
                requires
                    bps >= 0,
            ;
        }
        let fee: i128 = listing.price * (config.fee_bps as i128) / BPS_DENOMINATOR;
        let seller_amount: i128 = listing.price - fee;
        let mut actions: Vec<Action> = vec![
            Action::RequireAuth(buyer),
            Action::TransferTokens {
                token: listing.currency,
                from: buyer,
                to: listing.seller,
                amount: seller_amount,
            },
        ];
        if fee > 0 {
            actions.push(
                Action::TransferTokens {
                    token: listing.currency,
                    from: buyer,
                    to: config.fee_recipient,
                    amount: fee,
                },
            );
        }
        actions.push(
            Action::Invoke(call_bot_transfer(config.bot_nft, marketplace, buyer, listing.bot_id)),
        );
        listing.active = false;
        actions.push(Action::Store(Write::Listing(listing_id, listing)));
        actions.push(
            Action::Store(
                Write::ActiveListings(Self::remove_active_listing(env, ledger, listing_id)),
            ),
        );
        actions.push(
            Action::Publish(
                Event::Sold {
                    seller: listing.seller,
                    buyer,
                    listing_id,
                    bot_id: listing.bot_id,
                    price: listing.price,
                },
            ),
        );
        let outcome = Outcome { actions, result: Ok(()) };
        assert(fee == fee_on(offered.price as int, config.fee_bps as int));
        assert(outcome@.actions =~= buy_bot_outcome(
            ledger@,
            buyer,
            listing_id,
            marketplace,
        ).actions);
        outcome
    }

    /// Withdraws a bot from sale. It moves from the marketplace back to its
    /// seller.
    ///
    /// Refused with `ListingNotFound` if there is no such listing, with
    /// `ListingInactive` if it is over, and with `Unauthorized` if it is someone
    /// else's.
    pub fn cancel_listing(
        env: &Env,
        ledger: &Ledger,
        seller: Address,
        listing_id: u64,
        marketplace: Address,
    ) -> (outcome: Outcome<()>)
        requires
            cancel_listing_fits(ledger@, seller, listing_id),
        ensures
            outcome@ == cancel_listing_outcome(ledger@, seller, listing_id, marketplace),
    {
        let mut listing = match ledger.listing(listing_id) {
            Some(listing) => listing,
            None => {
                return Self::refuse(seller, MarketplaceError::ListingNotFound);
            },
        };
        if !listing.active {
            return Self::refuse(seller, MarketplaceError::ListingInactive);
        }
        if listing.seller != seller {
            return Self::refuse(seller, MarketplaceError::Unauthorized);
        }
        let config = ledger.config().unwrap();
        listing.active = false;
        Outcome {
            actions: vec![
                Action::RequireAuth(seller),
                Action::Invoke(
                    call_bot_transfer(config.bot_nft, marketplace, seller, listing.bot_id),
                ),
                Action::Store(Write::Listing(listing_id, listing)),
                Action::Store(
                    Write::ActiveListings(Self::remove_active_listing(env, ledger, listing_id)),
                ),
                Action::Publish(Event::Cancel { seller, listing_id, bot_id: listing.bot_id }),
            ],
            result: Ok(()),
        }
    }

    /// The listing with an id, active or not.
    ///
    /// Refused with `ListingNotFound` if there is none.
    pub fn get_listing(ledger: &Ledger, listing_id: u64) -> (result: Result<
        Listing,
        MarketplaceError,
    >)
        ensures
            result == (if ledger@.listings.contains_key(listing_id) {
                Ok(ledger@.listings[listing_id])
            } else {
                Err(MarketplaceError::ListingNotFound)
            }),
    {
        ledger.listing(listing_id).ok_or(MarketplaceError::ListingNotFound)
    }

    /// One page of the active listings, oldest first: those from position `start`
    /// of the list on, at most `limit` of them.
    pub fn get_active_listings(env: &Env, ledger: &Ledger, start: u32, limit: u32) -> (page: Vec<
        Listing,
    >)
        ensures
            page@ == active_page(
                ledger@.active_ids(),
                ledger@.listings,
                start as int,
                limit as int,
            ),
    {
        let mut scan = ActiveScan::new(ledger.active_listings(env), start, limit);
        proof {
            scan_starts_with_page(ledger@.active_ids(), ledger@.listings, start, limit);
        }
        let mut wanted: Option<u64> = scan.wanted();
        while wanted.is_some()
            invariant
                wanted == scan@.wanted(),
                scan@.page(ledger@.listings) == active_page(
                    ledger@.active_ids(),
                    ledger@.listings,
                    start as int,
                    limit as int,
                ),
                0 <= scan@.position,
            decreases scan@.ids.len() - scan@.position,
        {
            proof {
                scan_keeps_page(scan@, ledger@.listings);
            }
            scan.offer(ledger.listing(wanted.unwrap()));
            wanted = scan.wanted();
        }
        proof {
            scan_ends_with_page(scan@, ledger@.listings);
        }
        scan.finish()
    }

    /// Everything that a seller has ever listed, oldest first, active or not.
    pub fn get_user_listings(env: &Env, ledger: &Ledger, seller: Address) -> (listings: Vec<
        Listing,
    >)
        ensures
            listings@ == ledger@.ids_of(seller).filter_map(stored(ledger@.listings)),
    {
        let ids = ledger.user_listings(env, &seller);
        let n: u32 = ids.len();
        let mut result: Vec<Listing> = Vec::new();
        let mut i: u32 = 0;
        assert(result@ =~= ids@.take(0).filter_map(stored(ledger@.listings)));
        while i < n
            invariant
                i <= n,
                n == ids@.len(),
                result@ == ids@.take(i as int).filter_map(stored(ledger@.listings)),
            decreases n - i,
        {
            proof {
                ids@.lemma_filter_map_take_succ(stored(ledger@.listings), i as int);
            }
            if let Some(listing) = ledger.listing(ids.get(i)) {
                result.push(listing);
            }
            i = i + 1;
            assert(result@ =~= ids@.take(i as int).filter_map(stored(ledger@.listings)));
        }
        assert(ids@.take(n as int) =~= ids@);
        result
    }

    /// The configuration.
    pub fn config(ledger: &Ledger) -> (config: Config)
        requires
            ledger@.config is Some,
        ensures
            Some(config) == ledger@.config,
    {
        ledger.config().unwrap()
    }

    /// Sets the fee, in basis points. Only the administrator may.
    ///
    /// Refused with `NotInitialized` before the marketplace is set up.
    pub fn set_fee_bps(ledger: &Ledger, new_fee_bps: u32) -> (outcome: Outcome<()>)
        ensures
            outcome@ == set_fee_bps_outcome(ledger@, new_fee_bps),
    {
        let mut config = match ledger.config() {
            Some(config) => config,
            None => {
                return Self::not_initialized();
            },
        };
        let old_fee_bps: u32 = config.fee_bps;
        config.fee_bps = new_fee_bps;
        Self::configure(config.admin, config, Event::FeeBpsUpdated { old_fee_bps, new_fee_bps })
    }

    /// Sets the recipient of the fees. Only the administrator may.
    ///
    /// Refused with `NotInitialized` before the marketplace is set up.
    pub fn set_fee_recipient(ledger: &Ledger, new_recipient: Address) -> (outcome: Outcome<()>)
        ensures
            outcome@ == set_fee_recipient_outcome(ledger@, new_recipient),
    {
        let mut config = match ledger.config() {
            Some(config) => config,
            None => {
                return Self::not_initialized();
            },
        };
        let old_recipient = config.fee_recipient;
        config.fee_recipient = new_recipient;
        Self::configure(
            config.admin,
            config,
            Event::FeeRecipientUpdated { old_recipient, new_recipient },
        )
    }

    /// Sets the contract that keeps the bots. Only the administrator may.
    ///
    /// Refused with `NotInitialized` before the marketplace is set up.
    pub fn set_bot_nft(ledger: &Ledger, new_bot_nft: Address) -> (outcome: Outcome<()>)
        ensures
            outcome@ == set_bot_nft_outcome(ledger@, new_bot_nft),
    {
        let mut config = match ledger.config() {
            Some(config) => config,
            None => {
                return Self::not_initialized();
            },
        };
        let old_nft = config.bot_nft;
        config.bot_nft = new_bot_nft;
        Self::configure(
            config.admin,
            config,
            Event::BotNftUpdated { old_nft, new_nft: new_bot_nft },
        )
    }

    /// Hands the administration over. Only the administrator may.
    ///
    /// Refused with `NotInitialized` before the marketplace is set up.
    pub fn set_admin(ledger: &Ledger, new_admin: Address) -> (outcome: Outcome<()>)
        ensures
            outcome@ == set_admin_outcome(ledger@, new_admin),
    {
        let mut config = match ledger.config() {
            Some(config) => config,
            None => {
                return Self::not_initialized();
            },
        };
        let old_admin = config.admin;
        config.admin = new_admin;
        Self::configure(old_admin, config, Event::AdminUpdated { old_admin, new_admin })
    }

    /// The list of the active listings without a given one.
    fn remove_active_listing(env: &Env, ledger: &Ledger, listing_id: u64) -> (new_active: IdList)
        ensures
            new_active@ == ledger@.active_ids().filter(other_than(listing_id)),
    {
        let active = ledger.active_listings(env);
        let n: u32 = active.len();
        let mut new_active = IdList::new(env);
        let mut i: u32 = 0;
        assert(new_active@ =~= active@.take(0).filter(other_than(listing_id)));
        while i < n
            invariant
                i <= n,
                n == active@.len(),
                new_active@ == active@.take(i as int).filter(other_than(listing_id)),
                new_active@.len() <= i,
            decreases n - i,
        {
            let id: u64 = active.get(i);
            proof {
                active@.take(i as int).lemma_filter_push(id, other_than(listing_id));
                assert(active@.take(i + 1) =~= active@.take(i as int).push(id));
            }
            if id != listing_id {
                new_active = new_active.with(id);
            }
            i = i + 1;
        }
        assert(active@.take(n as int) =~= active@);
        new_active
    }

    /// The answer to a change of the configuration before there is one.
    fn not_initialized() -> (outcome: Outcome<()>)
        ensures
            outcome.result == Err::<(), MarketplaceError>(MarketplaceError::NotInitialized),
            outcome@.actions == Seq::<ActionView>::empty(),
    {
        let outcome = Outcome {
            actions: Vec::new(),
            result: Err(MarketplaceError::NotInitialized),
        };
        assert(outcome@.actions =~= Seq::<ActionView>::empty());
        outcome
    }

    /// The answer to a change of the configuration that its administrator has to
    /// authorize.
    fn configure(admin: Address, changed: Config, event: Event) -> (outcome: Outcome<()>)
        ensures
            outcome@ == (OutcomeView {
                actions: seq![
                    ActionView::RequireAuth(admin),
                    ActionView::Store(WriteView::Config(changed)),
                    keep_alive(),
                    ActionView::Publish(event),
                ],
                result: Ok::<(), MarketplaceError>(()),
            }),
    {
        Outcome {
            actions: vec![
                Action::RequireAuth(admin),
                Action::Store(Write::Config(changed)),
                Action::ExtendInstanceTtl { threshold: LEDGER_THRESHOLD, extend_to: LEDGER_BUMP },
                Action::Publish(event),
            ],
            result: Ok(()),
        }
    }

    /// The answer to a request that is refused after its maker's authorization.
    fn refuse<T>(party: Address, error: MarketplaceError) -> (outcome: Outcome<T>)
        ensures
            outcome@ == refused::<T>(party, error),
    {
        let outcome = Outcome { actions: vec![Action::RequireAuth(party)], result: Err(error) };
        assert(outcome@ =~= refused::<T>(party, error));
        outcome
    }
}

} // verus!
