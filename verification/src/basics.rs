//! What the parts that requests and answers are made of mean.
use crate::action::{Action, ActionView, Event, Invocation, Outcome, Value};
use crate::id_list::IdList;
use crate::ledger::{LedgerView, Write, WriteView};
use crate::types::{Address, Config, DataKey, Durability, Listing, MarketplaceError};
use vstd::prelude::*;

verus! {

/// A new ledger has no entries.
pub proof fn new_ledgers_are_empty(id: u64, seller: Address)
    ensures
        !LedgerView::empty().initialized,
        LedgerView::empty().config is None,
        LedgerView::empty().next_listing_id is None,
        LedgerView::empty().active_listings is None,
        !LedgerView::empty().listings.contains_key(id),
        !LedgerView::empty().user_listings.contains_key(seller),
{
}

/// The next id and the lists are those that are stored; where nothing is stored,
/// the next id is 1 and the lists are empty.
pub proof fn absent_entries_have_defaults(l: LedgerView, seller: Address)
    ensures
        l.next_listing_id matches Some(id) ==> l.next_id() == id,
        l.next_listing_id is None ==> l.next_id() == 1,
        l.active_listings matches Some(ids) ==> l.active_ids() == ids,
        l.active_listings is None ==> l.active_ids().len() == 0,
        l.user_listings.contains_key(seller) ==> l.ids_of(seller) == l.user_listings[seller],
        !l.user_listings.contains_key(seller) ==> l.ids_of(seller).len() == 0,
{
}

/// Storing the configuration changes it and nothing else.
pub proof fn storing_the_config(l: LedgerView, config: Config)
    ensures
        l.write(WriteView::Config(config)).config == Some(config),
        l.write(WriteView::Config(config)).initialized == l.initialized,
        l.write(WriteView::Config(config)).next_listing_id == l.next_listing_id,
        l.write(WriteView::Config(config)).active_listings == l.active_listings,
        l.write(WriteView::Config(config)).listings == l.listings,
        l.write(WriteView::Config(config)).user_listings == l.user_listings,
{
}

/// Storing the initialization mark sets it and changes nothing else.
pub proof fn storing_the_mark(l: LedgerView)
    ensures
        l.write(WriteView::Initialized).initialized,
        l.write(WriteView::Initialized).config == l.config,
        l.write(WriteView::Initialized).next_listing_id == l.next_listing_id,
        l.write(WriteView::Initialized).active_listings == l.active_listings,
        l.write(WriteView::Initialized).listings == l.listings,
        l.write(WriteView::Initialized).user_listings == l.user_listings,
{
}

/// Storing the next id changes it and nothing else.
pub proof fn storing_the_next_id(l: LedgerView, id: u64)
    ensures
        l.write(WriteView::NextListingId(id)).next_listing_id == Some(id),
        l.write(WriteView::NextListingId(id)).initialized == l.initialized,
        l.write(WriteView::NextListingId(id)).config == l.config,
        l.write(WriteView::NextListingId(id)).active_listings == l.active_listings,
        l.write(WriteView::NextListingId(id)).listings == l.listings,
        l.write(WriteView::NextListingId(id)).user_listings == l.user_listings,
{
}

/// Storing the list of active listings changes it and nothing else.
pub proof fn storing_the_active_list(l: LedgerView, ids: Seq<u64>)
    ensures
        l.write(WriteView::ActiveListings(ids)).active_listings == Some(ids),
        l.write(WriteView::ActiveListings(ids)).initialized == l.initialized,
        l.write(WriteView::ActiveListings(ids)).config == l.config,
        l.write(WriteView::ActiveListings(ids)).next_listing_id == l.next_listing_id,
        l.write(WriteView::ActiveListings(ids)).listings == l.listings,
        l.write(WriteView::ActiveListings(ids)).user_listings == l.user_listings,
{
}

/// Storing a listing changes what is under its id and nothing else.
pub proof fn storing_a_listing(l: LedgerView, id: u64, listing: Listing, other: u64)
    ensures
        l.write(WriteView::Listing(id, listing)).listings.contains_key(id),
        l.write(WriteView::Listing(id, listing)).listings[id] == listing,
        other != id ==> (l.write(WriteView::Listing(id, listing)).listings.contains_key(other)
            <==> l.listings.contains_key(other)),
        other != id && l.listings.contains_key(other) ==> l.write(
            WriteView::Listing(id, listing),
        ).listings[other] == l.listings[other],
        l.write(WriteView::Listing(id, listing)).initialized == l.initialized,
        l.write(WriteView::Listing(id, listing)).config == l.config,
        l.write(WriteView::Listing(id, listing)).next_listing_id == l.next_listing_id,
        l.write(WriteView::Listing(id, listing)).active_listings == l.active_listings,
        l.write(WriteView::Listing(id, listing)).user_listings == l.user_listings,
{
}

/// Storing the list of a seller changes that list and nothing else.
pub proof fn storing_a_seller_list(
    l: LedgerView,
    seller: Address,
    ids: Seq<u64>,
    other: Address,
)
    ensures
        l.write(WriteView::UserListings(seller, ids)).user_listings.contains_key(seller),
        l.write(WriteView::UserListings(seller, ids)).user_listings[seller] == ids,
        other != seller ==> (l.write(
            WriteView::UserListings(seller, ids),
        ).user_listings.contains_key(other) <==> l.user_listings.contains_key(other)),
        other != seller && l.user_listings.contains_key(other) ==> l.write(
            WriteView::UserListings(seller, ids),
        ).user_listings[other] == l.user_listings[other],
        l.write(WriteView::UserListings(seller, ids)).initialized == l.initialized,
        l.write(WriteView::UserListings(seller, ids)).config == l.config,
        l.write(WriteView::UserListings(seller, ids)).next_listing_id == l.next_listing_id,
        l.write(WriteView::UserListings(seller, ids)).active_listings == l.active_listings,
        l.write(WriteView::UserListings(seller, ids)).listings == l.listings,
{
}

/// The entry under a key is there exactly if something is stored under it, and
/// says what that is.
pub proof fn entries_say_what_is_stored(l: LedgerView, id: u64, seller: Address)
    ensures
        l.entry(DataKey::Initialized) == (if l.initialized {
            Some(WriteView::Initialized)
        } else {
            None
        }),
        l.config is None ==> l.entry(DataKey::Config) is None,
        l.config matches Some(config) ==> l.entry(DataKey::Config) == Some(
            WriteView::Config(config),
        ),
        l.next_listing_id is None ==> l.entry(DataKey::NextListingId) is None,
        l.next_listing_id matches Some(next) ==> l.entry(DataKey::NextListingId) == Some(
            WriteView::NextListingId(next),
        ),
        l.active_listings is None ==> l.entry(DataKey::ActiveListings) is None,
        l.active_listings matches Some(ids) ==> l.entry(DataKey::ActiveListings) == Some(
            WriteView::ActiveListings(ids),
        ),
        !l.listings.contains_key(id) ==> l.entry(DataKey::Listing(id)) is None,
        l.listings.contains_key(id) ==> l.entry(DataKey::Listing(id)) == Some(
            WriteView::Listing(id, l.listings[id]),
        ),
        !l.user_listings.contains_key(seller) ==> l.entry(DataKey::UserListings(seller)) is None,
        l.user_listings.contains_key(seller) ==> l.entry(DataKey::UserListings(seller)) == Some(
            WriteView::UserListings(seller, l.user_listings[seller]),
        ),
{
}

/// Each entry is stored under the key of its kind, which for a listing names its
/// id and for a seller's list the seller.
pub proof fn entries_have_their_own_keys(
    config: Config,
    next: u64,
    ids: Seq<u64>,
    id: u64,
    listing: Listing,
    seller: Address,
)
    ensures
        WriteView::Config(config).key() == DataKey::Config,
        WriteView::Initialized.key() == DataKey::Initialized,
        WriteView::NextListingId(next).key() == DataKey::NextListingId,
        WriteView::ActiveListings(ids).key() == DataKey::ActiveListings,
        WriteView::Listing(id, listing).key() == DataKey::Listing(id),
        WriteView::UserListings(seller, ids).key() == DataKey::UserListings(seller),
{
}

/// Listings and the lists of sellers live on their own; all other entries live
/// with the contract.
pub proof fn listings_outlive_the_instance(key: DataKey)
    ensures
        key is Listing || key is UserListings ==> key.spec_durability() == Durability::Persistent,
        !(key is Listing) && !(key is UserListings) ==> key.spec_durability()
            == Durability::Instance,
{
}

/// Carrying out no action leaves the ledger; carrying out one more stores what it
/// says to store, or leaves the ledger.
pub proof fn actions_are_carried_out_in_order(
    l: LedgerView,
    actions: Seq<ActionView>,
    action: ActionView,
)
    ensures
        l.after(Seq::empty()) == l,
        action matches ActionView::Store(w) ==> l.after(actions.push(action)) == l.after(
            actions,
        ).write(w),
        !(action is Store) ==> l.after(actions.push(action)) == l.after(actions),
{
    assert(actions.push(action).drop_last() =~= actions);
}

/// An entry to be stored is modelled by what it holds.
pub proof fn writes_are_modelled_as_they_are(
    config: Config,
    next: u64,
    ids: IdList,
    id: u64,
    listing: Listing,
    seller: Address,
)
    ensures
        Write::Config(config)@ == WriteView::Config(config),
        Write::Initialized@ == WriteView::Initialized,
        Write::NextListingId(next)@ == WriteView::NextListingId(next),
        Write::ActiveListings(ids)@ == WriteView::ActiveListings(ids@),
        Write::Listing(id, listing)@ == WriteView::Listing(id, listing),
        Write::UserListings(seller, ids)@ == WriteView::UserListings(seller, ids@),
{
}

/// A call is modelled by the contract, the function and the arguments that it
/// names.
pub proof fn calls_are_modelled_as_they_are(call: Invocation)
    ensures
        call@.contract == call.contract,
        call@.function == call.function@,
        call@.args == call.args@,
{
}

/// An action is modelled by what it asks for.
pub proof fn actions_are_modelled_as_they_are(action: Action)
    ensures
        action matches Action::RequireAuth(party) ==> action@ == ActionView::RequireAuth(party),
        action matches Action::Invoke(call) ==> action@ == ActionView::Invoke(call@),
        action matches Action::TransferTokens { token, from, to, amount } ==> action@ == (
        ActionView::TransferTokens { token, from, to, amount }),
        action matches Action::Store(w) ==> action@ == ActionView::Store(w@),
        action matches Action::ExtendInstanceTtl { threshold, extend_to } ==> action@ == (
        ActionView::ExtendInstanceTtl { threshold, extend_to }),
        action matches Action::ExtendTtl { key, threshold, extend_to } ==> action@ == (
        ActionView::ExtendTtl { key, threshold, extend_to }),
        action matches Action::Publish(event) ==> action@ == ActionView::Publish(event),
{
}

/// An outcome is modelled by its actions, one by one, and its result.
pub proof fn outcomes_are_modelled_as_they_are<T>(outcome: Outcome<T>, i: int)
    ensures
        outcome@.result == outcome.result,
        outcome@.actions.len() == outcome.actions@.len(),
        0 <= i < outcome.actions@.len() ==> outcome@.actions[i] == outcome.actions@[i]@,
{
}

/// Each kind of event has the name that is documented for it.
pub proof fn events_are_named_by_their_kind(event: Event)
    ensures
        event is Initialized ==> event.spec_name() == "initialized"@,
        event is Listed ==> event.spec_name() == "listed"@,
        event is Sold ==> event.spec_name() == "sold"@,
        event is Cancel ==> event.spec_name() == "cancel"@,
        event is FeeBpsUpdated ==> event.spec_name() == "fee_bps_updated"@,
        event is FeeRecipientUpdated ==> event.spec_name() == "fee_recipient_updated"@,
        event is BotNftUpdated ==> event.spec_name() == "bot_nft_updated"@,
        event is AdminUpdated ==> event.spec_name() == "admin_updated"@,
{
}

/// The topics of an event are the parties and the listing by which it is found,
/// in the documented order: the seller first, then the buyer or the listing.
pub proof fn events_are_found_by_their_topics(event: Event)
    ensures
        event matches Event::Listed { seller, listing_id, .. } ==> {
            &&& event.spec_topics().len() == 2
            &&& event.spec_topics()[0] == Value::Address(seller)
            &&& event.spec_topics()[1] == Value::U64(listing_id)
        },
        event matches Event::Sold { seller, buyer, .. } ==> {
            &&& event.spec_topics().len() == 2
            &&& event.spec_topics()[0] == Value::Address(seller)
            &&& event.spec_topics()[1] == Value::Address(buyer)
        },
        event matches Event::Cancel { seller, listing_id, .. } ==> {
            &&& event.spec_topics().len() == 2
            &&& event.spec_topics()[0] == Value::Address(seller)
            &&& event.spec_topics()[1] == Value::U64(listing_id)
        },
        !(event is Listed) && !(event is Sold) && !(event is Cancel) ==> event.spec_topics().len()
            == 0,
{
}

/// The data of an event says what happened, in the documented order; of a changed
/// setting, what it was and then what it is.
pub proof fn events_say_what_happened(event: Event)
    ensures
        event matches Event::Initialized { admin, bot_nft, fee_recipient } ==> {
            &&& event.spec_data().len() == 3
            &&& event.spec_data()[0] == Value::Address(admin)
            &&& event.spec_data()[1] == Value::Address(bot_nft)
            &&& event.spec_data()[2] == Value::Address(fee_recipient)
        },
        event matches Event::Listed { bot_id, price, .. } ==> {
            &&& event.spec_data().len() == 2
            &&& event.spec_data()[0] == Value::U64(bot_id)
            &&& event.spec_data()[1] == Value::I128(price)
        },
        event matches Event::Sold { listing_id, bot_id, price, .. } ==> {
            &&& event.spec_data().len() == 3
            &&& event.spec_data()[0] == Value::U64(listing_id)
            &&& event.spec_data()[1] == Value::U64(bot_id)
            &&& event.spec_data()[2] == Value::I128(price)
        },
        event matches Event::Cancel { bot_id, .. } ==> {
            &&& event.spec_data().len() == 1
            &&& event.spec_data()[0] == Value::U64(bot_id)
        },
        event matches Event::FeeBpsUpdated { old_fee_bps, new_fee_bps } ==> {
            &&& event.spec_data().len() == 2
            &&& event.spec_data()[0] == Value::U32(old_fee_bps)
            &&& event.spec_data()[1] == Value::U32(new_fee_bps)
        },
        event matches Event::FeeRecipientUpdated { old_recipient, new_recipient } ==> {
            &&& event.spec_data().len() == 2
            &&& event.spec_data()[0] == Value::Address(old_recipient)
            &&& event.spec_data()[1] == Value::Address(new_recipient)
        },
        event matches Event::BotNftUpdated { old_nft, new_nft } ==> {
            &&& event.spec_data().len() == 2
            &&& event.spec_data()[0] == Value::Address(old_nft)
            &&& event.spec_data()[1] == Value::Address(new_nft)
        },
        event matches Event::AdminUpdated { old_admin, new_admin } ==> {
            &&& event.spec_data().len() == 2
            &&& event.spec_data()[0] == Value::Address(old_admin)
            &&& event.spec_data()[1] == Value::Address(new_admin)
        },
{
}

/// The errors are numbered from 1 to 9, in the order in which they are declared.
pub proof fn errors_are_numbered(error: MarketplaceError)
    ensures
        1 <= error.spec_code() <= 9,
        error is AlreadyInitialized <==> error.spec_code() == 1,
        error is NotInitialized <==> error.spec_code() == 2,
        error is Unauthorized <==> error.spec_code() == 3,
        error is ListingNotFound <==> error.spec_code() == 4,
        error is ListingInactive <==> error.spec_code() == 5,
        error is SelfPurchase <==> error.spec_code() == 6,
        error is BotTransferFailed <==> error.spec_code() == 7,
        error is PaymentFailed <==> error.spec_code() == 8,
        error is InvalidPrice <==> error.spec_code() == 9,
{
}

} // verus!
