//! The marketplace at work, on a small network that keeps bots and balances.
use automint_marketplace::action::{Action, Event, Outcome, Value};
use automint_marketplace::contract::MarketplaceContract;
use automint_marketplace::ledger::Ledger;
use automint_marketplace::types::{Address, Config, Listing, MarketplaceError};
use soroban_sdk::Env;

/// Why a call came to nothing.
#[derive(Debug, PartialEq)]
enum Failure {
    /// The marketplace refused it.
    Refused(MarketplaceError),
    /// The network could not carry it out.
    Aborted,
}

type Answer<T> = Result<T, Failure>;

struct Network {
    env: Env,
    ledger: Ledger,
    marketplace: Address,
    bot_nft: Address,
    token: Address,
    /// The parties that have authorized the calls; everyone if `None`.
    signers: Option<Vec<Address>>,
    time: u64,
    generated: u128,
    /// The owner of each bot; the first bot has id 1.
    owners: Vec<Address>,
    balances: Vec<(Address, i128)>,
    events: Vec<Event>,
}

impl Network {
    fn new() -> Network {
        Network {
            env: Env::default(),
            ledger: Ledger::new(),
            marketplace: Address::Contract(1, 0),
            bot_nft: Address::Contract(2, 0),
            token: Address::Contract(3, 0),
            signers: None,
            time: 1_700_000_000,
            generated: 100,
            owners: Vec::new(),
            balances: Vec::new(),
            events: Vec::new(),
        }
    }

    /// A network with a marketplace, and its administrator, who gets the fees.
    fn set_up() -> (Network, Address) {
        let mut network = Network::new();
        let admin = network.generate();
        let bot_nft = network.bot_nft;
        network.initialize(admin, bot_nft, admin).unwrap();
        (network, admin)
    }

    fn generate(&mut self) -> Address {
        self.generated += 1;
        Address::Account(self.generated, 7)
    }

    fn mint_bot(&mut self, owner: Address) -> u64 {
        self.owners.push(owner);
        self.owners.len() as u64
    }

    fn bots_of(&self, owner: Address) -> Vec<u64> {
        (1..=self.owners.len() as u64)
            .filter(|bot| self.owners[*bot as usize - 1] == owner)
            .collect()
    }

    fn balance(&self, holder: Address) -> i128 {
        self.balances.iter().filter(|entry| entry.0 == holder).map(|entry| entry.1).sum()
    }

    fn mint(&mut self, holder: Address, amount: i128) {
        self.balances.push((holder, amount));
    }

    /// Carries an answer out, all of it or nothing.
    fn settle<T>(&mut self, outcome: Outcome<T>) -> Answer<T> {
        let owners = self.owners.clone();
        let balances = self.balances.clone();
        let events = self.events.clone();
        let mut writes = Vec::new();
        let mut carried_out = true;
        for action in outcome.actions {
            match action {
                Action::RequireAuth(party) => {
                    if let Some(signers) = &self.signers {
                        carried_out &= signers.contains(&party);
                    }
                }
                Action::Invoke(call) => {
                    assert_eq!(call.contract, self.bot_nft);
                    assert_eq!(call.function, "transfer");
                    match call.args[..] {
                        [Value::Address(from), Value::Address(to), Value::U64(bot)] => {
                            let owner = &mut self.owners[bot as usize - 1];
                            carried_out &= *owner == from;
                            *owner = to;
                        }
                        _ => panic!("a bot is moved from one party to another"),
                    }
                }
                Action::TransferTokens { token, from, to, amount } => {
                    assert_eq!(token, self.token);
                    carried_out &= amount >= 0 && self.balance(from) >= amount;
                    self.mint(from, -amount);
                    self.mint(to, amount);
                }
                Action::Store(write) => writes.push(write),
                Action::ExtendInstanceTtl { threshold, extend_to } => {
                    assert_eq!((threshold, extend_to), (103680, 120960));
                }
                Action::ExtendTtl { threshold, extend_to, .. } => {
                    assert_eq!((threshold, extend_to), (103680, 120960));
                }
                Action::Publish(event) => self.events.push(event),
            }
        }
        if carried_out && outcome.result.is_ok() {
            for write in writes {
                self.ledger.write(write);
            }
        } else {
            self.owners = owners;
            self.balances = balances;
            self.events = events;
        }
        match outcome.result {
            _ if !carried_out => Err(Failure::Aborted),
            Ok(value) => Ok(value),
            Err(error) => Err(Failure::Refused(error)),
        }
    }

    fn initialize(&mut self, admin: Address, bot_nft: Address, fee_recipient: Address) -> Answer<()> {
        let outcome =
            MarketplaceContract::initialize(&self.env, &self.ledger, admin, bot_nft, fee_recipient);
        self.settle(outcome)
    }

    fn list_bot(
        &mut self,
        seller: Address,
        bot_id: u64,
        bot_tier: u32,
        price: i128,
        currency: Address,
    ) -> Answer<u64> {
        let outcome = MarketplaceContract::list_bot(
            &self.env,
            &self.ledger,
            seller,
            bot_id,
            bot_tier,
            price,
            currency,
            self.marketplace,
            self.time,
        );
        self.settle(outcome)
    }

    fn buy_bot(&mut self, buyer: Address, listing_id: u64) -> Answer<()> {
        let outcome = MarketplaceContract::buy_bot(
            &self.env,
            &self.ledger,
            buyer,
            listing_id,
            self.marketplace,
        );
        self.settle(outcome)
    }

    fn cancel_listing(&mut self, seller: Address, listing_id: u64) -> Answer<()> {
        let outcome = MarketplaceContract::cancel_listing(
            &self.env,
            &self.ledger,
            seller,
            listing_id,
            self.marketplace,
        );
        self.settle(outcome)
    }

    fn set_fee_bps(&mut self, new_fee_bps: u32) -> Answer<()> {
        let outcome = MarketplaceContract::set_fee_bps(&self.ledger, new_fee_bps);
        self.settle(outcome)
    }

    fn set_fee_recipient(&mut self, new_recipient: Address) -> Answer<()> {
        let outcome = MarketplaceContract::set_fee_recipient(&self.ledger, new_recipient);
        self.settle(outcome)
    }

    fn set_bot_nft(&mut self, new_bot_nft: Address) -> Answer<()> {
        let outcome = MarketplaceContract::set_bot_nft(&self.ledger, new_bot_nft);
        self.settle(outcome)
    }

    fn set_admin(&mut self, new_admin: Address) -> Answer<()> {
        let outcome = MarketplaceContract::set_admin(&self.ledger, new_admin);
        self.settle(outcome)
    }

    fn get_listing(&self, id: u64) -> Result<Listing, MarketplaceError> {
        MarketplaceContract::get_listing(&self.ledger, id)
    }

    fn get_active_listings(&self, start: u32, limit: u32) -> Vec<Listing> {
        MarketplaceContract::get_active_listings(&self.env, &self.ledger, start, limit)
    }

    fn get_user_listings(&self, seller: Address) -> Vec<Listing> {
        MarketplaceContract::get_user_listings(&self.env, &self.ledger, seller)
    }

    fn config(&self) -> Config {
        MarketplaceContract::config(&self.ledger)
    }
}

#[test]
fn test_list_and_cancel() {
    let (mut net, _) = Network::set_up();
    let token = net.token;
    let seller = net.generate();
    let bot_id = net.mint_bot(seller);
    net.list_bot(seller, bot_id, 0, 50_0000000_i128, token).unwrap();
    let listings = net.get_active_listings(0, 10);
    assert_eq!(listings.len(), 1);
    assert_eq!(listings[0].bot_id, bot_id);
    net.cancel_listing(seller, 1).unwrap();
    assert_eq!(net.get_active_listings(0, 10).len(), 0);
    assert_eq!(net.bots_of(seller).len(), 1);
}

#[test]
fn test_buy_bot() {
    let (mut net, admin) = Network::set_up();
    let token = net.token;
    let seller = net.generate();
    let buyer = net.generate();
    net.mint(buyer, 1000_0000000_i128);
    let bot_nft_id = net.mint_bot(seller);
    net.list_bot(seller, bot_nft_id, 0, 100_0000000_i128, token).unwrap();
    net.buy_bot(buyer, 1).unwrap();
    assert_eq!(net.bots_of(buyer).len(), 1);
    assert_eq!(net.bots_of(seller).len(), 0);
    // 2.5% of the price go to the administrator.
    let fee = 100_0000000_i128 * 250 / 10_000;
    assert_eq!(net.balance(admin), fee);
    assert_eq!(net.balance(seller), 100_0000000_i128 - fee);
}

#[test]
fn test_self_purchase_fails() {
    let (mut net, _) = Network::set_up();
    let token = net.token;
    let seller = net.generate();
    let bot_id = net.mint_bot(seller);
    net.list_bot(seller, bot_id, 0, 50_0000000_i128, token).unwrap();
    assert!(net.buy_bot(seller, 1).is_err());
}

#[test]
fn test_zero_price_listing_fails() {
    let (mut net, _) = Network::set_up();
    let token = net.token;
    let seller = net.generate();
    let bot_id = net.mint_bot(seller);
    assert!(net.list_bot(seller, bot_id, 0, 0_i128, token).is_err());
}

#[test]
fn test_cancel_nonexistent_listing_fails() {
    let (mut net, _) = Network::set_up();
    let user = net.generate();
    assert!(net.cancel_listing(user, 999).is_err());
}

#[test]
fn test_multiple_listings() {
    let (mut net, _) = Network::set_up();
    let token = net.token;
    let seller = net.generate();
    let id1 = net.mint_bot(seller);
    let id2 = net.mint_bot(seller);
    net.list_bot(seller, id1, 0, 10_0000000_i128, token).unwrap();
    net.list_bot(seller, id2, 1, 20_0000000_i128, token).unwrap();
    assert_eq!(net.get_active_listings(0, 10).len(), 2);
    assert_eq!(net.get_user_listings(seller).len(), 2);
}

#[test]
fn test_double_initialize_fails() {
    let (mut net, admin) = Network::set_up();
    let bot_nft = net.bot_nft;
    assert!(net.initialize(admin, bot_nft, admin).is_err());
}

#[test]
fn test_initialize_emits_event() {
    let mut net = Network::new();
    let admin = net.generate();
    let bot_nft = net.bot_nft;
    net.initialize(admin, bot_nft, admin).unwrap();
    assert!(net.events.len() >= 1);
    let init_event = net.events[net.events.len() - 1];
    assert_eq!(init_event.name(), "initialized");
}

#[test]
fn test_set_fee_bps_emits_event() {
    let (mut net, _) = Network::set_up();
    let old_count = net.events.len();
    net.set_fee_bps(500).unwrap();
    assert!(net.events.len() > old_count);
    let config = net.config();
    assert_eq!(config.fee_bps, 500);
}

#[test]
fn test_set_fee_recipient_emits_event() {
    let (mut net, _) = Network::set_up();
    let new_recipient = net.generate();
    net.set_fee_recipient(new_recipient).unwrap();
    let config = net.config();
    assert_eq!(config.fee_recipient, new_recipient);
}

#[test]
fn test_set_bot_nft_emits_event() {
    let (mut net, _) = Network::set_up();
    let new_nft = net.generate();
    net.set_bot_nft(new_nft).unwrap();
    let config = net.config();
    assert_eq!(config.bot_nft, new_nft);
}

#[test]
fn test_set_admin_emits_event() {
    let (mut net, _) = Network::set_up();
    let new_admin = net.generate();
    net.set_admin(new_admin).unwrap();
    let config = net.config();
    assert_eq!(config.admin, new_admin);
}

#[test]
fn test_unauthorized_set_fee_bps_fails() {
    let (mut net, _) = Network::set_up();
    let unauthorized = net.generate();
    net.signers = Some(vec![unauthorized]);
    assert!(net.set_fee_bps(500).is_err());
    assert_eq!(net.config().fee_bps, 250);
}

#[test]
fn settings_need_the_administrator_of_the_moment() {
    let (mut net, admin) = Network::set_up();
    let heir = net.generate();
    net.signers = Some(vec![heir]);
    assert_eq!(net.set_admin(heir), Err(Failure::Aborted));
    assert_eq!(net.set_fee_recipient(heir), Err(Failure::Aborted));
    assert_eq!(net.set_bot_nft(heir), Err(Failure::Aborted));
    net.signers = Some(vec![admin]);
    assert_eq!(net.set_admin(heir), Ok(()));
    assert_eq!(net.set_fee_bps(1), Err(Failure::Aborted));
    net.signers = Some(vec![heir]);
    assert_eq!(net.set_fee_bps(1), Ok(()));
    assert_eq!(
        net.config(),
        Config { bot_nft: net.bot_nft, admin: heir, fee_bps: 1, fee_recipient: admin }
    );
}

#[test]
fn every_party_answers_for_itself() {
    let (mut net, admin) = Network::set_up();
    let token = net.token;
    let seller = net.generate();
    let buyer = net.generate();
    let bot = net.mint_bot(seller);
    net.mint(buyer, 500);
    net.signers = Some(vec![admin]);
    assert_eq!(net.list_bot(seller, bot, 0, 100, token), Err(Failure::Aborted));
    // The authorization is asked for before the price is looked at.
    assert_eq!(net.list_bot(seller, bot, 0, 0, token), Err(Failure::Aborted));
    net.signers = Some(vec![seller]);
    assert_eq!(net.list_bot(seller, bot, 0, 100, token), Ok(1));
    assert_eq!(net.buy_bot(buyer, 1), Err(Failure::Aborted));
    net.signers = Some(vec![buyer]);
    assert_eq!(net.cancel_listing(seller, 1), Err(Failure::Aborted));
    assert_eq!(net.buy_bot(buyer, 1), Ok(()));
    assert_eq!(net.balance(buyer), 400);
}

#[test]
fn refusals_name_their_reason_and_change_nothing() {
    let mut net = Network::new();
    let admin = net.generate();
    let seller = net.generate();
    let stranger = net.generate();
    let (token, bot_nft) = (net.token, net.bot_nft);
    let bot = net.mint_bot(seller);
    let refused = |error: MarketplaceError| Failure::Refused(error);

    let unset = MarketplaceError::NotInitialized;
    assert_eq!(net.list_bot(seller, bot, 0, 5, token), Err(refused(unset)));
    assert_eq!(net.set_fee_bps(1), Err(refused(unset)));
    assert_eq!(net.set_fee_recipient(seller), Err(refused(unset)));
    assert_eq!(net.set_bot_nft(seller), Err(refused(unset)));
    assert_eq!(net.set_admin(seller), Err(refused(unset)));
    // The price is looked at first.
    assert_eq!(
        net.list_bot(seller, bot, 0, -1, token),
        Err(refused(MarketplaceError::InvalidPrice))
    );
    assert_eq!(net.get_active_listings(0, 10), vec![]);
    assert_eq!(net.get_user_listings(seller), vec![]);

    net.initialize(admin, bot_nft, admin).unwrap();
    assert_eq!(
        net.initialize(seller, seller, seller),
        Err(refused(MarketplaceError::AlreadyInitialized))
    );
    assert_eq!(net.config().admin, admin);
    assert_eq!(net.list_bot(seller, bot, 0, 0, token), Err(refused(MarketplaceError::InvalidPrice)));
    assert_eq!(net.get_listing(1), Err(MarketplaceError::ListingNotFound));
    assert_eq!(net.buy_bot(stranger, 1), Err(refused(MarketplaceError::ListingNotFound)));
    assert_eq!(net.cancel_listing(seller, 1), Err(refused(MarketplaceError::ListingNotFound)));

    assert_eq!(net.list_bot(seller, bot, 0, 5, token), Ok(1));
    let listing = net.get_listing(1).unwrap();
    assert_eq!(net.buy_bot(seller, 1), Err(refused(MarketplaceError::SelfPurchase)));
    assert_eq!(net.cancel_listing(stranger, 1), Err(refused(MarketplaceError::Unauthorized)));
    assert_eq!(net.get_listing(1), Ok(listing));
    assert_eq!(net.get_active_listings(0, 10), vec![listing]);
    assert_eq!(net.bots_of(net.marketplace), vec![bot]);

    net.cancel_listing(seller, 1).unwrap();
    let over = refused(MarketplaceError::ListingInactive);
    assert_eq!(net.buy_bot(stranger, 1), Err(over));
    // That it is over is looked at before whose it is.
    let over = refused(MarketplaceError::ListingInactive);
    assert_eq!(net.cancel_listing(stranger, 1), Err(over));
    assert_eq!(net.events.len(), 3);
}

#[test]
fn a_new_listing_is_found_everywhere() {
    let (mut net, _) = Network::set_up();
    let token = net.token;
    let seller = net.generate();
    let bot = net.mint_bot(seller);
    net.time = 42;
    assert_eq!(net.list_bot(seller, bot, 3, 77, token), Ok(1));
    let listing = Listing {
        id: 1,
        seller,
        bot_id: bot,
        bot_tier: 3,
        price: 77,
        currency: token,
        listed_at: 42,
        active: true,
    };
    assert_eq!(net.get_listing(1), Ok(listing));
    assert_eq!(net.get_active_listings(0, 1), vec![listing]);
    assert_eq!(net.get_user_listings(seller), vec![listing]);
    assert_eq!(net.ledger.next_listing_id(), 2);
}

#[test]
fn cancelling_undoes_listing() {
    let (mut net, _) = Network::set_up();
    let token = net.token;
    let seller = net.generate();
    let bots: Vec<u64> = (0..3).map(|_| net.mint_bot(seller)).collect();
    net.list_bot(seller, bots[0], 0, 5, token).unwrap();
    net.list_bot(seller, bots[1], 0, 5, token).unwrap();
    let before = net.get_active_listings(0, 10);
    let id = net.list_bot(seller, bots[2], 0, 5, token).unwrap();
    assert_eq!(net.bots_of(seller), vec![]);
    net.cancel_listing(seller, id).unwrap();
    assert_eq!(net.get_active_listings(0, 10), before);
    assert_eq!(net.bots_of(seller), vec![bots[2]]);
    // The listing stays on record, and its id is not used again.
    assert!(!net.get_listing(id).unwrap().active);
    assert_eq!(net.get_user_listings(seller).len(), 3);
    assert_eq!(net.list_bot(seller, bots[2], 0, 5, token), Ok(id + 1));
}

#[test]
fn a_listing_closes_once() {
    let (mut net, _) = Network::set_up();
    let token = net.token;
    let seller = net.generate();
    let (first, second) = (net.generate(), net.generate());
    net.mint(first, 100);
    net.mint(second, 100);
    let bot = net.mint_bot(seller);
    net.list_bot(seller, bot, 0, 60, token).unwrap();
    net.buy_bot(first, 1).unwrap();
    // The buyer sells the bot on: that is another listing.
    assert_eq!(net.list_bot(first, bot, 0, 80, token), Ok(2));
    let over = MarketplaceError::ListingInactive;
    assert_eq!(net.buy_bot(second, 1), Err(Failure::Refused(over)));
    assert_eq!(net.cancel_listing(seller, 1), Err(Failure::Refused(over)));
    assert_eq!(net.get_listing(1).unwrap().price, 60);
    net.buy_bot(second, 2).unwrap();
    assert_eq!(net.bots_of(second), vec![bot]);
}

#[test]
fn bots_on_sale_are_in_escrow() {
    let (mut net, _) = Network::set_up();
    let token = net.token;
    let seller = net.generate();
    let buyer = net.generate();
    net.mint(buyer, 1000);
    let bots: Vec<u64> = (0..4).map(|_| net.mint_bot(seller)).collect();
    for bot in &bots {
        net.list_bot(seller, *bot, 0, 10, token).unwrap();
    }
    // A bot that is on sale is not the seller's to list again.
    assert_eq!(net.list_bot(seller, bots[0], 0, 10, token), Err(Failure::Aborted));
    net.buy_bot(buyer, 2).unwrap();
    net.cancel_listing(seller, 3).unwrap();
    let on_sale: Vec<u64> = net.get_active_listings(0, 10).iter().map(|l| l.bot_id).collect();
    assert_eq!(on_sale, vec![bots[0], bots[3]]);
    assert_eq!(net.bots_of(net.marketplace), on_sale);
}

#[test]
fn a_purchase_that_cannot_be_paid_changes_nothing() {
    let (mut net, _) = Network::set_up();
    let token = net.token;
    let seller = net.generate();
    let buyer = net.generate();
    net.mint(buyer, 99);
    let bot = net.mint_bot(seller);
    net.list_bot(seller, bot, 0, 100, token).unwrap();
    assert_eq!(net.buy_bot(buyer, 1), Err(Failure::Aborted));
    assert_eq!(net.balance(buyer), 99);
    assert_eq!(net.get_active_listings(0, 10).len(), 1);
    // A fee of more than the whole price asks for a negative payment.
    net.mint(buyer, 1000);
    net.set_fee_bps(20_000).unwrap();
    assert_eq!(net.buy_bot(buyer, 1), Err(Failure::Aborted));
}

#[test]
fn buyers_pay_the_price() {
    for (bps, price, fee) in [
        (250, 100_0000000, 2_5000000),
        (250, 39, 0),
        (250, 40, 1),
        (250, 79, 1),
        (0, 1000, 0),
        (10_000, 1000, 1000),
        (1, 9_999, 0),
        (1, 10_000, 1),
    ] {
        let (mut net, admin) = Network::set_up();
        let token = net.token;
        net.set_fee_bps(bps).unwrap();
        let seller = net.generate();
        let buyer = net.generate();
        net.mint(buyer, price);
        let bot = net.mint_bot(seller);
        net.list_bot(seller, bot, 0, price, token).unwrap();
        net.buy_bot(buyer, 1).unwrap();
        assert_eq!(net.balance(buyer), 0);
        assert_eq!(net.balance(admin), fee);
        assert_eq!(net.balance(seller), price - fee);
    }
}

#[test]
fn pages_join_without_gaps() {
    let (mut net, _) = Network::set_up();
    let token = net.token;
    let seller = net.generate();
    for _ in 0..7 {
        let bot = net.mint_bot(seller);
        net.list_bot(seller, bot, 0, 5, token).unwrap();
    }
    net.cancel_listing(seller, 3).unwrap();
    let ids = |page: Vec<Listing>| -> Vec<u64> { page.iter().map(|l| l.id).collect() };
    assert_eq!(ids(net.get_active_listings(0, 10)), vec![1, 2, 4, 5, 6, 7]);
    assert_eq!(ids(net.get_active_listings(0, 2)), vec![1, 2]);
    assert_eq!(ids(net.get_active_listings(2, 3)), vec![4, 5, 6]);
    assert_eq!(ids(net.get_active_listings(5, 3)), vec![7]);
    assert_eq!(ids(net.get_active_listings(6, 3)), vec![]);
    assert_eq!(ids(net.get_active_listings(u32::MAX, u32::MAX)), vec![]);
    assert_eq!(ids(net.get_active_listings(0, 0)), vec![]);
    assert_eq!(ids(net.get_active_listings(1, u32::MAX)), vec![2, 4, 5, 6, 7]);
    assert_eq!(ids(net.get_user_listings(seller)), vec![1, 2, 3, 4, 5, 6, 7]);
}

#[test]
fn sellers_see_their_own_listings() {
    let (mut net, _) = Network::set_up();
    let token = net.token;
    let (one, other) = (net.generate(), net.generate());
    for seller in [one, other, one] {
        let bot = net.mint_bot(seller);
        net.list_bot(seller, bot, 0, 5, token).unwrap();
    }
    net.cancel_listing(one, 1).unwrap();
    let of_one = net.get_user_listings(one);
    assert_eq!(of_one.iter().map(|l| (l.id, l.active)).collect::<Vec<_>>(), vec![
        (1, false),
        (3, true)
    ]);
    assert_eq!(net.get_user_listings(other).len(), 1);
    assert_eq!(net.get_user_listings(net.marketplace), vec![]);
}

#[test]
fn every_success_is_announced_once() {
    let (mut net, admin) = Network::set_up();
    let token = net.token;
    let bot_nft = net.bot_nft;
    let seller = net.generate();
    let buyer = net.generate();
    net.mint(buyer, 100);
    let (a, b) = (net.mint_bot(seller), net.mint_bot(seller));
    net.list_bot(seller, a, 0, 30, token).unwrap();
    net.list_bot(seller, b, 0, 40, token).unwrap();
    net.buy_bot(buyer, 1).unwrap();
    net.cancel_listing(seller, 2).unwrap();
    net.set_fee_bps(7).unwrap();
    net.set_fee_recipient(buyer).unwrap();
    net.set_bot_nft(token).unwrap();
    net.set_admin(seller).unwrap();
    assert_eq!(net.events, vec![
        Event::Initialized { admin, bot_nft, fee_recipient: admin },
        Event::Listed { seller, listing_id: 1, bot_id: a, price: 30 },
        Event::Listed { seller, listing_id: 2, bot_id: b, price: 40 },
        Event::Sold { seller, buyer, listing_id: 1, bot_id: a, price: 30 },
        Event::Cancel { seller, listing_id: 2, bot_id: b },
        Event::FeeBpsUpdated { old_fee_bps: 250, new_fee_bps: 7 },
        Event::FeeRecipientUpdated { old_recipient: admin, new_recipient: buyer },
        Event::BotNftUpdated { old_nft: bot_nft, new_nft: token },
        Event::AdminUpdated { old_admin: admin, new_admin: seller },
    ]);
}
