//! The ledger entries of the marketplace.
//!
//! [`Ledger`] holds the entries that a request works on, [`LedgerView`] is its
//! mathematical model, and a [`Write`] is one entry with its key, as it is stored.
use crate::id_list::IdList;
use crate::types::{Address, Config, DataKey, Listing};
use std::collections::BTreeMap;
use vstd::prelude::*;

verus! {

/// An entry to be stored, together with what its key says.
pub enum Write {
    Config(Config),
    Initialized,
    NextListingId(u64),
    ActiveListings(IdList),
    /// The listing that is stored under an id.
    Listing(u64, Listing),
    /// The ids of everything that a seller has ever listed.
    UserListings(Address, IdList),
}

/// The model of a [`Write`].
#[verifier::ext_equal]
pub enum WriteView {
    Config(Config),
    Initialized,
    NextListingId(u64),
    ActiveListings(Seq<u64>),
    Listing(u64, Listing),
    UserListings(Address, Seq<u64>),
}

impl Write {
    pub open spec fn view(&self) -> WriteView {
        match self {
            Write::Config(config) => WriteView::Config(*config),
            Write::Initialized => WriteView::Initialized,
            Write::NextListingId(id) => WriteView::NextListingId(*id),
            Write::ActiveListings(ids) => WriteView::ActiveListings(ids@),
            Write::Listing(id, listing) => WriteView::Listing(*id, *listing),
            Write::UserListings(seller, ids) => WriteView::UserListings(*seller, ids@),
        }
    }

    /// The key of the entry.
    pub fn key(&self) -> (key: DataKey)
        ensures
            key == self@.key(),
    {
        match self {
            Write::Config(_) => DataKey::Config,
            Write::Initialized => DataKey::Initialized,
            Write::NextListingId(_) => DataKey::NextListingId,
            Write::ActiveListings(_) => DataKey::ActiveListings,
            Write::Listing(id, _) => DataKey::Listing(*id),
            Write::UserListings(seller, _) => DataKey::UserListings(*seller),
        }
    }
}

impl WriteView {
    /// The key of the entry.
    pub open spec fn key(self) -> DataKey {
        match self {
            WriteView::Config(_) => DataKey::Config,
            WriteView::Initialized => DataKey::Initialized,
            WriteView::NextListingId(_) => DataKey::NextListingId,
            WriteView::ActiveListings(_) => DataKey::ActiveListings,
            WriteView::Listing(id, _) => DataKey::Listing(id),
            WriteView::UserListings(seller, _) => DataKey::UserListings(seller),
        }
    }
}

/// The model of the ledger entries. An entry that is not there is `None`, a key
/// outside a map's domain, or, for the initialization mark, `false`.
#[verifier::ext_equal]
pub struct LedgerView {
    pub initialized: bool,
    pub config: Option<Config>,
    pub next_listing_id: Option<u64>,
    pub active_listings: Option<Seq<u64>>,
    pub listings: Map<u64, Listing>,
    pub user_listings: Map<Address, Seq<u64>>,
}

impl LedgerView {
    /// The ledger without entries.
    pub open spec fn empty() -> LedgerView {
        LedgerView {
            initialized: false,
            config: None,
            next_listing_id: None,
            active_listings: None,
            listings: Map::empty(),
            user_listings: Map::empty(),
        }
    }

    /// The entry under a key.
    pub open spec fn entry(self, key: DataKey) -> Option<WriteView> {
        match key {
            DataKey::Config => match self.config {
                Some(config) => Some(WriteView::Config(config)),
                None => None,
            },
            DataKey::Initialized => if self.initialized {
                Some(WriteView::Initialized)
            } else {
                None
            },
            DataKey::NextListingId => match self.next_listing_id {
                Some(id) => Some(WriteView::NextListingId(id)),
                None => None,
            },
            DataKey::ActiveListings => match self.active_listings {
                Some(ids) => Some(WriteView::ActiveListings(ids)),
                None => None,
            },
            DataKey::Listing(id) => if self.listings.contains_key(id) {
                Some(WriteView::Listing(id, self.listings[id]))
            } else {
                None
            },
            DataKey::UserListings(seller) => if self.user_listings.contains_key(seller) {
                Some(WriteView::UserListings(seller, self.user_listings[seller]))
            } else {
                None
            },
        }
    }

    /// The ledger after an entry is stored.
    pub open spec fn write(self, w: WriteView) -> LedgerView {
        match w {
            WriteView::Config(config) => LedgerView { config: Some(config), ..self },
            WriteView::Initialized => LedgerView { initialized: true, ..self },
            WriteView::NextListingId(id) => LedgerView { next_listing_id: Some(id), ..self },
            WriteView::ActiveListings(ids) => LedgerView { active_listings: Some(ids), ..self },
            WriteView::Listing(id, listing) => LedgerView {
                listings: self.listings.insert(id, listing),
                ..self
            },
            WriteView::UserListings(seller, ids) => LedgerView {
                user_listings: self.user_listings.insert(seller, ids),
                ..self
            },
        }
    }

    /// The id that the next listing gets. The first one is 1.
    pub open spec fn next_id(self) -> u64 {
        match self.next_listing_id {
            Some(id) => id,
            None => 1,
        }
    }

    /// The ids of the active listings, oldest first.
    pub open spec fn active_ids(self) -> Seq<u64> {
        match self.active_listings {
            Some(ids) => ids,
            None => Seq::empty(),
        }
    }

    /// The ids of everything that a seller has ever listed, oldest first.
    pub open spec fn ids_of(self, seller: Address) -> Seq<u64> {
        if self.user_listings.contains_key(seller) {
            self.user_listings[seller]
        } else {
            Seq::empty()
        }
    }
}

/// The map that a log of insertions leaves: a later one replaces an earlier one.
spec fn replay(log: Seq<(Address, IdList)>) -> Map<Address, Seq<u64>>
    decreases log.len(),
{
    if log.len() == 0 {
        Map::empty()
    } else {
        replay(log.drop_last()).insert(log.last().0, log.last().1@)
    }
}

/// The ledger entries that a request works on.
pub struct Ledger {
    initialized: bool,
    config: Option<Config>,
    next_listing_id: Option<u64>,
    active_listings: Option<IdList>,
    listings: BTreeMap<u64, Listing>,
    /// A log of insertions.
    user_listings: Vec<(Address, IdList)>,
}

impl Ledger {
    pub closed spec fn view(&self) -> LedgerView {
        LedgerView {
            initialized: self.initialized,
            config: self.config,
            next_listing_id: self.next_listing_id,
            active_listings: match self.active_listings {
                Some(ids) => Some(ids@),
                None => None,
            },
            listings: self.listings@,
            user_listings: replay(self.user_listings@),
        }
    }

    /// The ledger without entries.
    pub fn new() -> (ledger: Ledger)
        ensures
            ledger@ == LedgerView::empty(),
    {
        Ledger {
            initialized: false,
            config: None,
            next_listing_id: None,
            active_listings: None,
            listings: BTreeMap::new(),
            user_listings: Vec::new(),
        }
    }

    /// Stores an entry, in place of the one that its key had.
    pub fn write(&mut self, w: Write)
        ensures
            final(self)@ == old(self)@.write(w@),
    {
        match w {
            Write::Config(config) => {
                self.config = Some(config);
            },
            Write::Initialized => {
                self.initialized = true;
            },
            Write::NextListingId(id) => {
                self.next_listing_id = Some(id);
            },
            Write::ActiveListings(ids) => {
                self.active_listings = Some(ids);
            },
            Write::Listing(id, listing) => {
                self.listings.insert(id, listing);
            },
            Write::UserListings(seller, ids) => {
                self.user_listings.push((seller, ids));
                assert(self.user_listings@.drop_last() =~= old(self).user_listings@);
            },
        }
    }

    /// Whether the marketplace is marked as initialized.
    pub fn is_initialized(&self) -> (yes: bool)
        ensures
            yes == self@.initialized,
    {
        self.initialized
    }

    /// The configuration.
    pub fn config(&self) -> (config: Option<Config>)
        ensures
            config == self@.config,
    {
        self.config
    }

    /// The id that the next listing gets.
    pub fn next_listing_id(&self) -> (id: u64)
        ensures
            id == self@.next_id(),
    {
        match self.next_listing_id {
            Some(id) => id,
            None => 1,
        }
    }

    /// The list of the active listings.
    pub fn active_listings(&self, env: &soroban_sdk::Env) -> (ids: IdList)
        ensures
            ids@ == self@.active_ids(),
    {
        match &self.active_listings {
            Some(ids) => ids.clone(),
            None => IdList::new(env),
        }
    }

    /// The listing under an id.
    pub fn listing(&self, id: u64) -> (listing: Option<Listing>)
        ensures
            listing == (if self@.listings.contains_key(id) {
                Some(self@.listings[id])
            } else {
                None::<Listing>
            }),
    {
        match self.listings.get(&id) {
            Some(listing) => Some(*listing),
            None => None,
        }
    }

    /// The list of everything that a seller has ever listed.
    pub fn user_listings(&self, env: &soroban_sdk::Env, seller: &Address) -> (ids: IdList)
        ensures
            ids@ == self@.ids_of(*seller),
    {
        let ghost log = self.user_listings@;
        let mut i: usize = self.user_listings.len();
        assert(log.take(i as int) =~= log);
        while i > 0
            invariant
                i <= log.len(),
                log == self.user_listings@,
                replay(log).contains_key(*seller) <==> replay(log.take(i as int)).contains_key(
                    *seller,
                ),
                replay(log.take(i as int)).contains_key(*seller) ==> replay(log)[*seller]
                    == replay(log.take(i as int))[*seller],
            decreases i,
        {
            assert(log.take(i as int).drop_last() =~= log.take(i - 1));
            i = i - 1;
            let entry = &self.user_listings[i];
            if entry.0 == *seller {
                return entry.1.clone();
            }
        }
        IdList::new(env)
    }
}

} // verus!
