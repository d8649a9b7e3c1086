//! The marketplace over time: requests, and the ledgers that they lead to.
use crate::action::OutcomeView;
use crate::ledger::LedgerView;
use crate::model::{
    buy_bot_fits, buy_bot_outcome, cancel_listing_fits, cancel_listing_outcome,
    initialize_outcome, list_bot_fits, list_bot_outcome, set_admin_outcome, set_bot_nft_outcome,
    set_fee_bps_outcome, set_fee_recipient_outcome,
};
use crate::types::{Address, DataKey};
use vstd::prelude::*;

verus! {

/// A request that can change the ledger.
pub enum Request {
    Initialize { admin: Address, bot_nft: Address, fee_recipient: Address },
    ListBot {
        seller: Address,
        bot_id: u64,
        bot_tier: u32,
        price: i128,
        currency: Address,
        timestamp: u64,
    },
    BuyBot { buyer: Address, listing_id: u64 },
    CancelListing { seller: Address, listing_id: u64 },
    SetFeeBps { new_fee_bps: u32 },
    SetFeeRecipient { new_recipient: Address },
    SetBotNft { new_bot_nft: Address },
    SetAdmin { new_admin: Address },
}

/// An outcome without the value that the request returns.
pub open spec fn without_value<T>(outcome: OutcomeView<T>) -> OutcomeView<()> {
    OutcomeView {
        actions: outcome.actions,
        result: match outcome.result {
            Ok(_) => Ok(()),
            Err(error) => Err(error),
        },
    }
}

impl Request {
    /// The answer of the marketplace at an address to the request.
    pub open spec fn outcome(self, l: LedgerView, marketplace: Address) -> OutcomeView<()> {
        match self {
            Request::Initialize { admin, bot_nft, fee_recipient } => initialize_outcome(
                l,
                admin,
                bot_nft,
                fee_recipient,
            ),
            Request::ListBot { seller, bot_id, bot_tier, price, currency, timestamp } =>
                without_value(
                list_bot_outcome(
                    l,
                    seller,
                    bot_id,
                    bot_tier,
                    price,
                    currency,
                    marketplace,
                    timestamp,
                ),
            ),
            Request::BuyBot { buyer, listing_id } => buy_bot_outcome(
                l,
                buyer,
                listing_id,
                marketplace,
            ),
            Request::CancelListing { seller, listing_id } => cancel_listing_outcome(
                l,
                seller,
                listing_id,
                marketplace,
            ),
            Request::SetFeeBps { new_fee_bps } => set_fee_bps_outcome(l, new_fee_bps),
            Request::SetFeeRecipient { new_recipient } => set_fee_recipient_outcome(
                l,
                new_recipient,
            ),
            Request::SetBotNft { new_bot_nft } => set_bot_nft_outcome(l, new_bot_nft),
            Request::SetAdmin { new_admin } => set_admin_outcome(l, new_admin),
        }
    }

    /// Whether everything that the answer needs is there and stays within its
    /// machine type. A request for which it is not is aborted.
    pub open spec fn fits(self, l: LedgerView) -> bool {
        match self {
            Request::ListBot { seller, price, .. } => list_bot_fits(l, seller, price),
            Request::BuyBot { buyer, listing_id } => buy_bot_fits(l, buyer, listing_id),
            Request::CancelListing { seller, listing_id } => cancel_listing_fits(
                l,
                seller,
                listing_id,
            ),
            _ => true,
        }
    }

    /// The party that has to authorize the request.
    pub open spec fn maker(self, l: LedgerView) -> Address {
        match self {
            Request::Initialize { admin, .. } => admin,
            Request::ListBot { seller, .. } => seller,
            Request::BuyBot { buyer, .. } => buyer,
            Request::CancelListing { seller, .. } => seller,
            _ => l.config->0.admin,
        }
    }

    /// The keys of the entries that the answer depends on.
    pub open spec fn reads(self) -> Set<DataKey> {
        match self {
            Request::Initialize { .. } => set![DataKey::Initialized],
            Request::ListBot { seller, .. } => set![
                DataKey::Config,
                DataKey::NextListingId,
                DataKey::ActiveListings,
                DataKey::UserListings(seller),
            ],
            Request::BuyBot { listing_id, .. } => set![
                DataKey::Config,
                DataKey::ActiveListings,
                DataKey::Listing(listing_id),
            ],
            Request::CancelListing { listing_id, .. } => set![
                DataKey::Config,
                DataKey::ActiveListings,
                DataKey::Listing(listing_id),
            ],
            _ => set![DataKey::Config],
        }
    }

    /// The ledger that the request leaves, if the network can carry out what the
    /// marketplace asks of it.
    pub open spec fn next(self, l: LedgerView, marketplace: Address) -> LedgerView {
        if self.fits(l) && self.outcome(l, marketplace).result is Ok {
            l.after(self.outcome(l, marketplace).actions)
        } else {
            l
        }
    }
}

/// A request that was made, and whether the network could carry out what the
/// marketplace asked of it: all authorizations were there, and no other contract
/// failed.
pub struct Call {
    pub request: Request,
    pub carried_out: bool,
}

/// The ledger that a series of calls leads to.
pub open spec fn run(l: LedgerView, calls: Seq<Call>, marketplace: Address) -> LedgerView
    decreases calls.len(),
{
    if calls.len() == 0 {
        l
    } else {
        let before = run(l, calls.drop_last(), marketplace);
        if calls.last().carried_out {
            calls.last().request.next(before, marketplace)
        } else {
            before
        }
    }
}

} // verus!
