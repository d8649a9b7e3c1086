//! The data of the marketplace: addresses, ledger keys, listings, the
//! configuration and the errors.
use vstd::prelude::*;

verus! {

/// How long a ledger entry lives on after its lifetime is extended, in ledgers.
pub const LEDGER_BUMP: u32 = 120960;

/// The remaining lifetime below which an entry's lifetime is extended, in
/// ledgers.
pub const LEDGER_THRESHOLD: u32 = 103680;

/// The marketplace fee that a new marketplace starts with, in basis points.
pub const FEE_BPS: u32 = 250;

/// The number of basis points in the whole price.
pub const BPS_DENOMINATOR: i128 = 10_000;

/// A party on the network. Both kinds are identified by 32 bytes, held here as
/// two big-endian halves: the public key of an account, the hash of a contract.
#[derive(Clone, Copy, Debug, PartialEq, Eq, Structural)]
pub enum Address {
    Account(u128, u128),
    Contract(u128, u128),
}

/// The keys of the ledger entries that the marketplace owns.
#[derive(Clone, Copy, Debug, PartialEq, Eq, Structural)]
pub enum DataKey {
    Listing(u64),
    ActiveListings,
    UserListings(Address),
    NextListingId,
    Config,
    Initialized,
}

/// The two kinds of ledger storage that the marketplace uses. Instance entries
/// live and expire with the contract, persistent ones each on its own.
#[derive(Clone, Copy, Debug, PartialEq, Eq, Structural)]
pub enum Durability {
    Instance,
    Persistent,
}

impl DataKey {
    /// The storage that holds the entry of this key.
    pub open spec fn spec_durability(self) -> Durability {
        match self {
            DataKey::Listing(_) | DataKey::UserListings(_) => Durability::Persistent,
            _ => Durability::Instance,
        }
    }

    /// The storage that holds the entry of this key.
    pub fn durability(self) -> (storage: Durability)
        ensures
            storage == self.spec_durability(),
    {
        match self {
            DataKey::Listing(_) => Durability::Persistent,
            DataKey::UserListings(_) => Durability::Persistent,
            DataKey::ActiveListings => Durability::Instance,
            DataKey::NextListingId => Durability::Instance,
            DataKey::Config => Durability::Instance,
            DataKey::Initialized => Durability::Instance,
        }
    }
}

/// A bot that is, or once was, for sale.
#[derive(Clone, Copy, Debug, PartialEq, Eq, Structural)]
pub struct Listing {
    pub id: u64,
    pub seller: Address,
    pub bot_id: u64,
    pub bot_tier: u32,
    pub price: i128,
    pub currency: Address,
    pub listed_at: u64,
    pub active: bool,
}

/// What the administrator of the marketplace can change.
#[derive(Clone, Copy, Debug, PartialEq, Eq, Structural)]
pub struct Config {
    pub bot_nft: Address,
    pub admin: Address,
    pub fee_bps: u32,
    pub fee_recipient: Address,
}

/// The reasons for which the marketplace refuses a request.
#[derive(Copy, Clone, Debug, Eq, PartialEq, PartialOrd, Ord, Structural)]
pub enum MarketplaceError {
    AlreadyInitialized,
    NotInitialized,
    Unauthorized,
    ListingNotFound,
    ListingInactive,
    SelfPurchase,
    BotTransferFailed,
    PaymentFailed,
    InvalidPrice,
}

impl MarketplaceError {
    /// The number under which the error is reported on the network.
    pub open spec fn spec_code(self) -> u32 {
        match self {
            MarketplaceError::AlreadyInitialized => 1,
            MarketplaceError::NotInitialized => 2,
            MarketplaceError::Unauthorized => 3,
            MarketplaceError::ListingNotFound => 4,
            MarketplaceError::ListingInactive => 5,
            MarketplaceError::SelfPurchase => 6,
            MarketplaceError::BotTransferFailed => 7,
            MarketplaceError::PaymentFailed => 8,
            MarketplaceError::InvalidPrice => 9,
        }
    }

    /// The number under which the error is reported on the network.
    pub fn code(self) -> (number: u32)
        ensures
            number == self.spec_code(),
    {
        match self {
            MarketplaceError::AlreadyInitialized => 1,
            MarketplaceError::NotInitialized => 2,
            MarketplaceError::Unauthorized => 3,
            MarketplaceError::ListingNotFound => 4,
            MarketplaceError::ListingInactive => 5,
            MarketplaceError::SelfPurchase => 6,
            MarketplaceError::BotTransferFailed => 7,
            MarketplaceError::PaymentFailed => 8,
            MarketplaceError::InvalidPrice => 9,
        }
    }
}

} // verus!
