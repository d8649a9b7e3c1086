//! The parts of the marketplace, one by one.
use automint_marketplace::action::{Action, Event, Outcome, Value};
use automint_marketplace::contract::MarketplaceContract;
use automint_marketplace::id_list::IdList;
use automint_marketplace::ledger::{Ledger, Write};
use automint_marketplace::scan::ActiveScan;
use automint_marketplace::types::{
    Address, Config, DataKey, Durability, Listing, MarketplaceError, FEE_BPS, LEDGER_BUMP,
    LEDGER_THRESHOLD,
};
use soroban_sdk::{Env, IntoVal, Symbol, TryFromVal, Val};

const SELLER: Address = Address::Account(1, 2);
const BUYER: Address = Address::Account(3, 4);
const ADMIN: Address = Address::Account(5, 6);
const NFT: Address = Address::Contract(1, 2);
const TOKEN: Address = Address::Contract(3, 4);
const MARKETPLACE: Address = Address::Contract(5, 6);
const RECIPIENT: Address = Address::Account(7, 8);

fn ids(list: &IdList) -> Vec<u64> {
    (0..list.len()).map(|i| list.get(i)).collect()
}

fn list_of(env: &Env, items: &[u64]) -> IdList {
    let mut list = IdList::new(env);
    for id in items {
        list = list.with(*id);
    }
    list
}

fn listing(id: u64, active: bool) -> Listing {
    Listing {
        id,
        seller: SELLER,
        bot_id: 10 * id,
        bot_tier: 2,
        price: 1000,
        currency: TOKEN,
        listed_at: 5,
        active,
    }
}

fn config() -> Config {
    Config { bot_nft: NFT, admin: ADMIN, fee_bps: 250, fee_recipient: RECIPIENT }
}

/// An action in words.
fn words(action: &Action) -> String {
    match action {
        Action::RequireAuth(party) => format!("auth {:?}", party),
        Action::Invoke(call) => format!("{:?}.{} {:?}", call.contract, call.function, call.args),
        Action::TransferTokens { token, from, to, amount } => {
            format!("pay {:?} {:?} {:?} {}", token, from, to, amount)
        }
        Action::Store(write) => match write {
            Write::Config(config) => format!("store {:?}", config),
            Write::Initialized => format!("store initialized"),
            Write::NextListingId(id) => format!("store next {}", id),
            Write::ActiveListings(list) => format!("store active {:?}", ids(list)),
            Write::Listing(id, listing) => format!("store {} {:?}", id, listing),
            Write::UserListings(seller, list) => format!("store {:?} {:?}", seller, ids(list)),
        },
        Action::ExtendInstanceTtl { threshold, extend_to } => {
            format!("keep {} {}", threshold, extend_to)
        }
        Action::ExtendTtl { key, threshold, extend_to } => {
            format!("keep {:?} {} {}", key, threshold, extend_to)
        }
        Action::Publish(event) => format!("{:?}", event),
    }
}

fn script<T>(outcome: &Outcome<T>) -> Vec<String> {
    outcome.actions.iter().map(words).collect()
}

fn store(ledger: &mut Ledger, writes: Vec<Write>) {
    for write in writes {
        ledger.write(write);
    }
}

#[test]
fn id_lists_grow_at_the_end() {
    let env = Env::default();
    let empty = IdList::new(&env);
    assert_eq!(empty.len(), 0);
    let list = list_of(&env, &[7, u64::MAX, 0, 7]);
    assert_eq!(ids(&list), vec![7, u64::MAX, 0, 7]);
    // The list that grew is as it was.
    let longer = list.with(1);
    assert_eq!(ids(&list), vec![7, u64::MAX, 0, 7]);
    assert_eq!(ids(&longer), vec![7, u64::MAX, 0, 7, 1]);
    assert_eq!(ids(&longer.clone()), ids(&longer));
    assert_eq!(longer.as_vec().len(), 5);
    assert_eq!(longer.as_vec().get(1), Some(u64::MAX));
}

#[test]
fn id_lists_hold_nothing_but_ids() {
    let env = Env::default();
    let items = soroban_sdk::Vec::from_array(&env, [3u64, 1, 2]);
    let list = IdList::from_vec(items.clone()).unwrap();
    assert_eq!(ids(&list), vec![3, 1, 2]);
    assert!(list.as_vec() == &items);
    let mut mixed: soroban_sdk::Vec<Val> = soroban_sdk::Vec::new(&env);
    mixed.push_back(1u64.into_val(&env));
    mixed.push_back(Symbol::new(&env, "two").into_val(&env));
    let mixed = soroban_sdk::Vec::<u64>::try_from_val(&env, &mixed.to_val()).unwrap();
    assert!(IdList::from_vec(mixed).is_none());
    assert!(IdList::from_vec(soroban_sdk::Vec::new(&env)).is_some());
}

#[test]
fn stored_entries_are_read_back() {
    let env = Env::default();
    let mut ledger = Ledger::new();
    assert!(!ledger.is_initialized());
    assert_eq!(ledger.config(), None);
    assert_eq!(ledger.next_listing_id(), 1);
    assert_eq!(ids(&ledger.active_listings(&env)), vec![]);
    assert_eq!(ledger.listing(4), None);
    assert_eq!(ids(&ledger.user_listings(&env, &SELLER)), vec![]);
    store(&mut ledger, vec![
        Write::Config(config()),
        Write::Initialized,
        Write::NextListingId(9),
        Write::ActiveListings(list_of(&env, &[4, 5])),
        Write::Listing(4, listing(4, true)),
        Write::Listing(5, listing(5, true)),
        Write::UserListings(SELLER, list_of(&env, &[4])),
        Write::UserListings(BUYER, list_of(&env, &[5])),
        // A later entry takes the place of an earlier one.
        Write::Listing(4, listing(4, false)),
        Write::UserListings(SELLER, list_of(&env, &[4, 6])),
    ]);
    assert!(ledger.is_initialized());
    assert_eq!(ledger.config(), Some(config()));
    assert_eq!(ledger.next_listing_id(), 9);
    assert_eq!(ids(&ledger.active_listings(&env)), vec![4, 5]);
    assert_eq!(ledger.listing(4), Some(listing(4, false)));
    assert_eq!(ledger.listing(5), Some(listing(5, true)));
    assert_eq!(ids(&ledger.user_listings(&env, &SELLER)), vec![4, 6]);
    assert_eq!(ids(&ledger.user_listings(&env, &BUYER)), vec![5]);
    assert_eq!(ids(&ledger.user_listings(&env, &ADMIN)), vec![]);
}

#[test]
fn keys_say_where_entries_live() {
    let env = Env::default();
    assert_eq!(Write::Config(config()).key(), DataKey::Config);
    assert_eq!(Write::Initialized.key(), DataKey::Initialized);
    assert_eq!(Write::NextListingId(3).key(), DataKey::NextListingId);
    assert_eq!(Write::ActiveListings(IdList::new(&env)).key(), DataKey::ActiveListings);
    assert_eq!(Write::Listing(8, listing(8, true)).key(), DataKey::Listing(8));
    assert_eq!(
        Write::UserListings(SELLER, IdList::new(&env)).key(),
        DataKey::UserListings(SELLER)
    );
    assert_eq!(DataKey::Listing(8).durability(), Durability::Persistent);
    assert_eq!(DataKey::UserListings(SELLER).durability(), Durability::Persistent);
    assert_eq!(DataKey::ActiveListings.durability(), Durability::Instance);
    assert_eq!(DataKey::NextListingId.durability(), Durability::Instance);
    assert_eq!(DataKey::Config.durability(), Durability::Instance);
    assert_eq!(DataKey::Initialized.durability(), Durability::Instance);
}

#[test]
fn errors_have_distinct_codes() {
    let errors = [
        MarketplaceError::AlreadyInitialized,
        MarketplaceError::NotInitialized,
        MarketplaceError::Unauthorized,
        MarketplaceError::ListingNotFound,
        MarketplaceError::ListingInactive,
        MarketplaceError::SelfPurchase,
        MarketplaceError::BotTransferFailed,
        MarketplaceError::PaymentFailed,
        MarketplaceError::InvalidPrice,
    ];
    let codes: Vec<u32> = errors.iter().map(|error| error.code()).collect();
    assert_eq!(codes, vec![1, 2, 3, 4, 5, 6, 7, 8, 9]);
}

#[test]
fn events_have_names_topics_and_data() {
    let (a, b) = (Value::Address(SELLER), Value::Address(BUYER));
    let check = |event: Event, name: &str, topics: Vec<Value>, data: Vec<Value>| {
        assert_eq!(event.name(), name);
        assert_eq!(event.topics(), topics);
        assert_eq!(event.data(), data);
    };
    check(
        Event::Initialized { admin: ADMIN, bot_nft: NFT, fee_recipient: RECIPIENT },
        "initialized",
        vec![],
        vec![Value::Address(ADMIN), Value::Address(NFT), Value::Address(RECIPIENT)],
    );
    check(
        Event::Listed { seller: SELLER, listing_id: 1, bot_id: 2, price: 3 },
        "listed",
        vec![a, Value::U64(1)],
        vec![Value::U64(2), Value::I128(3)],
    );
    check(
        Event::Sold { seller: SELLER, buyer: BUYER, listing_id: 1, bot_id: 2, price: 3 },
        "sold",
        vec![a, b],
        vec![Value::U64(1), Value::U64(2), Value::I128(3)],
    );
    check(
        Event::Cancel { seller: SELLER, listing_id: 1, bot_id: 2 },
        "cancel",
        vec![a, Value::U64(1)],
        vec![Value::U64(2)],
    );
    check(
        Event::FeeBpsUpdated { old_fee_bps: 1, new_fee_bps: 2 },
        "fee_bps_updated",
        vec![],
        vec![Value::U32(1), Value::U32(2)],
    );
    check(
        Event::FeeRecipientUpdated { old_recipient: SELLER, new_recipient: BUYER },
        "fee_recipient_updated",
        vec![],
        vec![a, b],
    );
    check(
        Event::BotNftUpdated { old_nft: SELLER, new_nft: BUYER },
        "bot_nft_updated",
        vec![],
        vec![a, b],
    );
    check(
        Event::AdminUpdated { old_admin: SELLER, new_admin: BUYER },
        "admin_updated",
        vec![],
        vec![a, b],
    );
}

#[test]
fn initialize_is_answered_step_by_step() {
    let env = Env::default();
    let outcome = MarketplaceContract::initialize(&env, &Ledger::new(), ADMIN, NFT, RECIPIENT);
    assert_eq!(outcome.result, Ok(()));
    assert_eq!(FEE_BPS, 250);
    assert_eq!(script(&outcome), vec![
        format!("auth {:?}", ADMIN),
        format!("store {:?}", config()),
        format!("store initialized"),
        format!("store next 1"),
        format!("store active []"),
        format!("keep {} {}", LEDGER_THRESHOLD, LEDGER_BUMP),
        format!("{:?}", Event::Initialized { admin: ADMIN, bot_nft: NFT, fee_recipient: RECIPIENT }),
    ]);
    let mut ledger = Ledger::new();
    ledger.write(Write::Initialized);
    let outcome = MarketplaceContract::initialize(&env, &ledger, ADMIN, NFT, RECIPIENT);
    assert_eq!(outcome.result, Err(MarketplaceError::AlreadyInitialized));
    assert_eq!(script(&outcome), Vec::<String>::new());
}

#[test]
fn list_bot_is_answered_step_by_step() {
    let env = Env::default();
    let mut ledger = Ledger::new();
    store(&mut ledger, vec![
        Write::Config(config()),
        Write::NextListingId(6),
        Write::ActiveListings(list_of(&env, &[2, 4])),
        Write::UserListings(SELLER, list_of(&env, &[1, 4])),
    ]);
    let outcome = MarketplaceContract::list_bot(
        &env, &ledger, SELLER, 60, 2, 1000, TOKEN, MARKETPLACE, 5,
    );
    assert_eq!(outcome.result, Ok(6));
    let moved = vec![Value::Address(SELLER), Value::Address(MARKETPLACE), Value::U64(60)];
    assert_eq!(script(&outcome), vec![
        format!("auth {:?}", SELLER),
        format!("{:?}.transfer {:?}", NFT, moved),
        format!("store 6 {:?}", listing(6, true)),
        format!("keep {:?} 103680 120960", DataKey::Listing(6)),
        format!("store active [2, 4, 6]"),
        format!("store {:?} [1, 4, 6]", SELLER),
        format!("store next 7"),
        format!("keep 103680 120960"),
        format!("{:?}", Event::Listed { seller: SELLER, listing_id: 6, bot_id: 60, price: 1000 }),
    ]);
    // Without the entries that the first listing creates, the lists start empty.
    let mut ledger = Ledger::new();
    ledger.write(Write::Config(config()));
    let outcome = MarketplaceContract::list_bot(
        &env, &ledger, SELLER, 60, 2, 1, TOKEN, MARKETPLACE, 5,
    );
    assert_eq!(outcome.result, Ok(1));
    assert_eq!(words(&outcome.actions[4]), "store active [1]");
    assert_eq!(words(&outcome.actions[6]), "store next 2");
}

#[test]
fn buy_bot_is_answered_step_by_step() {
    let env = Env::default();
    let mut ledger = Ledger::new();
    store(&mut ledger, vec![
        Write::Config(config()),
        Write::ActiveListings(list_of(&env, &[2, 4, 6])),
        Write::Listing(4, listing(4, true)),
    ]);
    let outcome = MarketplaceContract::buy_bot(&env, &ledger, BUYER, 4, MARKETPLACE);
    assert_eq!(outcome.result, Ok(()));
    let moved = vec![Value::Address(MARKETPLACE), Value::Address(BUYER), Value::U64(40)];
    let sold = Event::Sold { seller: SELLER, buyer: BUYER, listing_id: 4, bot_id: 40, price: 1000 };
    let closing = vec![
        format!("{:?}.transfer {:?}", NFT, moved),
        format!("store 4 {:?}", listing(4, false)),
        format!("store active [2, 6]"),
        format!("{:?}", sold),
    ];
    let mut expected = vec![
        format!("auth {:?}", BUYER),
        format!("pay {:?} {:?} {:?} 975", TOKEN, BUYER, SELLER),
        format!("pay {:?} {:?} {:?} 25", TOKEN, BUYER, RECIPIENT),
    ];
    expected.extend(closing.clone());
    assert_eq!(script(&outcome), expected);

    // Where there is no fee, there is one payment.
    ledger.write(Write::Config(Config { fee_bps: 9, ..config() }));
    let outcome = MarketplaceContract::buy_bot(&env, &ledger, BUYER, 4, MARKETPLACE);
    let mut expected = vec![
        format!("auth {:?}", BUYER),
        format!("pay {:?} {:?} {:?} 1000", TOKEN, BUYER, SELLER),
    ];
    expected.extend(closing);
    assert_eq!(script(&outcome), expected);

    // A fee of more than the whole price leaves the seller a debt.
    ledger.write(Write::Config(Config { fee_bps: 20_000, ..config() }));
    let outcome = MarketplaceContract::buy_bot(&env, &ledger, BUYER, 4, MARKETPLACE);
    assert_eq!(
        words(&outcome.actions[1]),
        format!("pay {:?} {:?} {:?} -1000", TOKEN, BUYER, SELLER)
    );
    assert_eq!(
        words(&outcome.actions[2]),
        format!("pay {:?} {:?} {:?} 2000", TOKEN, BUYER, RECIPIENT)
    );
}

#[test]
fn fees_are_rounded_toward_zero() {
    let env = Env::default();
    let mut ledger = Ledger::new();
    ledger.write(Write::Config(config()));
    for (price, to_seller, fee) in [
        (i128::MAX / 250, i128::MAX / 250 - i128::MAX / 250 * 250 / 10_000, true),
        (39, 39, false),
        // Such a price is never stored; the fee on it would round up.
        (-79, -78, false),
    ] {
        ledger.write(Write::Listing(1, Listing { price, ..listing(1, true) }));
        let outcome = MarketplaceContract::buy_bot(&env, &ledger, BUYER, 1, MARKETPLACE);
        assert_eq!(
            words(&outcome.actions[1]),
            format!("pay {:?} {:?} {:?} {}", TOKEN, BUYER, SELLER, to_seller)
        );
        assert_eq!(outcome.actions.len(), if fee { 7 } else { 6 });
    }
}

#[test]
fn cancel_listing_is_answered_step_by_step() {
    let env = Env::default();
    let mut ledger = Ledger::new();
    store(&mut ledger, vec![
        Write::Config(config()),
        Write::ActiveListings(list_of(&env, &[4, 2, 4])),
        Write::Listing(4, listing(4, true)),
    ]);
    let outcome = MarketplaceContract::cancel_listing(&env, &ledger, SELLER, 4, MARKETPLACE);
    assert_eq!(outcome.result, Ok(()));
    let moved = vec![Value::Address(MARKETPLACE), Value::Address(SELLER), Value::U64(40)];
    assert_eq!(script(&outcome), vec![
        format!("auth {:?}", SELLER),
        format!("{:?}.transfer {:?}", NFT, moved),
        format!("store 4 {:?}", listing(4, false)),
        format!("store active [2]"),
        format!("{:?}", Event::Cancel { seller: SELLER, listing_id: 4, bot_id: 40 }),
    ]);
    let outcome = MarketplaceContract::cancel_listing(&env, &ledger, BUYER, 4, MARKETPLACE);
    assert_eq!(outcome.result, Err(MarketplaceError::Unauthorized));
    assert_eq!(script(&outcome), vec![format!("auth {:?}", BUYER)]);
}

#[test]
fn settings_are_answered_step_by_step() {
    let mut ledger = Ledger::new();
    ledger.write(Write::Config(config()));
    let check = |outcome: Outcome<()>, changed: Config, event: Event| {
        assert_eq!(outcome.result, Ok(()));
        assert_eq!(script(&outcome), vec![
            format!("auth {:?}", ADMIN),
            format!("store {:?}", changed),
            format!("keep 103680 120960"),
            format!("{:?}", event),
        ]);
    };
    check(
        MarketplaceContract::set_fee_bps(&ledger, 500),
        Config { fee_bps: 500, ..config() },
        Event::FeeBpsUpdated { old_fee_bps: 250, new_fee_bps: 500 },
    );
    check(
        MarketplaceContract::set_fee_recipient(&ledger, BUYER),
        Config { fee_recipient: BUYER, ..config() },
        Event::FeeRecipientUpdated { old_recipient: RECIPIENT, new_recipient: BUYER },
    );
    check(
        MarketplaceContract::set_bot_nft(&ledger, TOKEN),
        Config { bot_nft: TOKEN, ..config() },
        Event::BotNftUpdated { old_nft: NFT, new_nft: TOKEN },
    );
    check(
        MarketplaceContract::set_admin(&ledger, SELLER),
        Config { admin: SELLER, ..config() },
        Event::AdminUpdated { old_admin: ADMIN, new_admin: SELLER },
    );
    let outcome = MarketplaceContract::set_admin(&Ledger::new(), SELLER);
    assert_eq!(outcome.result, Err(MarketplaceError::NotInitialized));
    assert_eq!(outcome.actions.len(), 0);
}

#[test]
fn answers_depend_on_what_is_read() {
    let env = Env::default();
    let mut full = Ledger::new();
    store(&mut full, vec![
        Write::Config(config()),
        Write::Initialized,
        Write::NextListingId(9),
        Write::ActiveListings(list_of(&env, &[4, 5])),
        Write::Listing(4, listing(4, true)),
        Write::Listing(5, listing(5, true)),
        Write::UserListings(SELLER, list_of(&env, &[4, 5])),
    ]);
    let mut read = Ledger::new();
    store(&mut read, vec![
        Write::Config(config()),
        Write::ActiveListings(list_of(&env, &[4, 5])),
        Write::Listing(5, listing(5, true)),
    ]);
    assert_eq!(
        script(&MarketplaceContract::buy_bot(&env, &full, BUYER, 5, MARKETPLACE)),
        script(&MarketplaceContract::buy_bot(&env, &read, BUYER, 5, MARKETPLACE))
    );
    assert_eq!(
        script(&MarketplaceContract::cancel_listing(&env, &full, SELLER, 5, MARKETPLACE)),
        script(&MarketplaceContract::cancel_listing(&env, &read, SELLER, 5, MARKETPLACE))
    );
    let mut own = Ledger::new();
    store(&mut own, vec![
        Write::UserListings(SELLER, list_of(&env, &[4, 5])),
        Write::Listing(4, listing(4, true)),
        Write::Listing(5, listing(5, true)),
    ]);
    assert_eq!(
        MarketplaceContract::get_user_listings(&env, &full, SELLER),
        MarketplaceContract::get_user_listings(&env, &own, SELLER)
    );
}

#[test]
fn lists_skip_what_is_gone() {
    let env = Env::default();
    let mut ledger = Ledger::new();
    store(&mut ledger, vec![
        Write::ActiveListings(list_of(&env, &[1, 2, 3, 4, 5])),
        Write::UserListings(SELLER, list_of(&env, &[1, 2, 3])),
        Write::Listing(1, listing(1, true)),
        Write::Listing(2, listing(2, false)),
        Write::Listing(4, listing(4, true)),
        Write::Listing(5, listing(5, true)),
    ]);
    let page = |start: u32, limit: u32| -> Vec<u64> {
        MarketplaceContract::get_active_listings(&env, &ledger, start, limit)
            .iter()
            .map(|l| l.id)
            .collect()
    };
    assert_eq!(page(0, 10), vec![1, 4, 5]);
    // The limit counts what is shown, the start counts positions of the list.
    assert_eq!(page(0, 2), vec![1, 4]);
    assert_eq!(page(1, 2), vec![4, 5]);
    assert_eq!(page(4, 2), vec![5]);
    let own: Vec<u64> = MarketplaceContract::get_user_listings(&env, &ledger, SELLER)
        .iter()
        .map(|l| l.id)
        .collect();
    assert_eq!(own, vec![1, 2]);
}

#[test]
fn a_scan_reads_no_more_than_its_page_needs() {
    let env = Env::default();
    let mut scan = ActiveScan::new(list_of(&env, &[1, 2, 3, 4, 5]), 1, 2);
    let mut asked = Vec::new();
    while let Some(id) = scan.wanted() {
        asked.push(id);
        scan.offer(if id == 2 { None } else { Some(listing(id, true)) });
    }
    assert_eq!(asked, vec![2, 3, 4]);
    assert_eq!(scan.finish(), vec![listing(3, true), listing(4, true)]);
    assert_eq!(ActiveScan::new(list_of(&env, &[1]), 0, 0).wanted(), None);
    assert_eq!(ActiveScan::new(list_of(&env, &[1]), 1, 5).wanted(), None);
}
