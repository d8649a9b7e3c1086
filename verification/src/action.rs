//! What the marketplace asks of the network in answer to a request.
//!
//! An [`Outcome`] lists the [`Action`]s in the order in which they are carried
//! out, and the result that is returned after them. The network carries out all
//! of them or none: where one fails, or where the result is an error, it undoes
//! the ones before.
use crate::ledger::{LedgerView, Write, WriteView};
use crate::types::{Address, DataKey, MarketplaceError};
use vstd::prelude::*;

verus! {

/// A value that is handed to another contract or published in an event.
#[derive(Clone, Copy, Debug, PartialEq, Eq, Structural)]
pub enum Value {
    Address(Address),
    U32(u32),
    U64(u64),
    I128(i128),
}

/// A call of a function of another contract, which returns nothing.
pub struct Invocation {
    pub contract: Address,
    pub function: &'static str,
    pub args: Vec<Value>,
}

/// The model of an [`Invocation`].
#[verifier::ext_equal]
pub struct InvocationView {
    pub contract: Address,
    pub function: Seq<char>,
    pub args: Seq<Value>,
}

impl Invocation {
    pub open spec fn view(&self) -> InvocationView {
        InvocationView {
            contract: self.contract,
            function: self.function@,
            args: self.args@,
        }
    }
}

/// What the marketplace announces.
#[derive(Clone, Copy, Debug, PartialEq, Eq, Structural)]
pub enum Event {
    /// The marketplace was set up.
    Initialized { admin: Address, bot_nft: Address, fee_recipient: Address },
    /// A bot was put up for sale.
    Listed { seller: Address, listing_id: u64, bot_id: u64, price: i128 },
    /// A bot was bought.
    Sold { seller: Address, buyer: Address, listing_id: u64, bot_id: u64, price: i128 },
    /// A bot was withdrawn from sale.
    Cancel { seller: Address, listing_id: u64, bot_id: u64 },
    FeeBpsUpdated { old_fee_bps: u32, new_fee_bps: u32 },
    FeeRecipientUpdated { old_recipient: Address, new_recipient: Address },
    BotNftUpdated { old_nft: Address, new_nft: Address },
    AdminUpdated { old_admin: Address, new_admin: Address },
}

impl Event {
    /// The name of the event, which is its first topic.
    pub open spec fn spec_name(self) -> Seq<char> {
        match self {
            Event::Initialized { .. } => "initialized"@,
            Event::Listed { .. } => "listed"@,
            Event::Sold { .. } => "sold"@,
            Event::Cancel { .. } => "cancel"@,
            Event::FeeBpsUpdated { .. } => "fee_bps_updated"@,
            Event::FeeRecipientUpdated { .. } => "fee_recipient_updated"@,
            Event::BotNftUpdated { .. } => "bot_nft_updated"@,
            Event::AdminUpdated { .. } => "admin_updated"@,
        }
    }

    /// The topics that follow the name.
    pub open spec fn spec_topics(self) -> Seq<Value> {
        match self {
            Event::Listed { seller, listing_id, .. } => seq![
                Value::Address(seller),
                Value::U64(listing_id),
            ],
            Event::Sold { seller, buyer, .. } => seq![
                Value::Address(seller),
                Value::Address(buyer),
            ],
            Event::Cancel { seller, listing_id, .. } => seq![
                Value::Address(seller),
                Value::U64(listing_id),
            ],
            _ => Seq::empty(),
        }
    }

    /// The data of the event.
    pub open spec fn spec_data(self) -> Seq<Value> {
        match self {
            Event::Initialized { admin, bot_nft, fee_recipient } => seq![
                Value::Address(admin),
                Value::Address(bot_nft),
                Value::Address(fee_recipient),
            ],
            Event::Listed { bot_id, price, .. } => seq![Value::U64(bot_id), Value::I128(price)],
            Event::Sold { listing_id, bot_id, price, .. } => seq![
                Value::U64(listing_id),
                Value::U64(bot_id),
                Value::I128(price),
            ],
            Event::Cancel { bot_id, .. } => seq![Value::U64(bot_id)],
            Event::FeeBpsUpdated { old_fee_bps, new_fee_bps } => seq![
                Value::U32(old_fee_bps),
                Value::U32(new_fee_bps),
            ],
            Event::FeeRecipientUpdated { old_recipient, new_recipient } => seq![
                Value::Address(old_recipient),
                Value::Address(new_recipient),
            ],
            Event::BotNftUpdated { old_nft, new_nft } => seq![
                Value::Address(old_nft),
                Value::Address(new_nft),
            ],
            Event::AdminUpdated { old_admin, new_admin } => seq![
                Value::Address(old_admin),
                Value::Address(new_admin),
            ],
        }
    }

    /// The name of the event, which is its first topic.
    pub fn name(&self) -> (name: &'static str)
        ensures
            name@ == self.spec_name(),
    {
        match self {
            Event::Initialized { .. } => "initialized",
            Event::Listed { .. } => "listed",
            Event::Sold { .. } => "sold",
            Event::Cancel { .. } => "cancel",
            Event::FeeBpsUpdated { .. } => "fee_bps_updated",
            Event::FeeRecipientUpdated { .. } => "fee_recipient_updated",
            Event::BotNftUpdated { .. } => "bot_nft_updated",
            Event::AdminUpdated { .. } => "admin_updated",
        }
    }

    /// The topics that follow the name.
    pub fn topics(&self) -> (topics: Vec<Value>)
        ensures
            topics@ == self.spec_topics(),
    {
        match self {
            Event::Listed { seller, listing_id, .. } => vec![
                Value::Address(*seller),
                Value::U64(*listing_id),
            ],
            Event::Sold { seller, buyer, .. } => vec![
                Value::Address(*seller),
                Value::Address(*buyer),
            ],
            Event::Cancel { seller, listing_id, .. } => vec![
                Value::Address(*seller),
                Value::U64(*listing_id),
            ],
            _ => Vec::new(),
        }
    }

    /// The data of the event.
    pub fn data(&self) -> (data: Vec<Value>)
        ensures
            data@ == self.spec_data(),
    {
        match self {
            Event::Initialized { admin, bot_nft, fee_recipient } => vec![
                Value::Address(*admin),
                Value::Address(*bot_nft),
                Value::Address(*fee_recipient),
            ],
            Event::Listed { bot_id, price, .. } => vec![Value::U64(*bot_id), Value::I128(*price)],
            Event::Sold { listing_id, bot_id, price, .. } => vec![
                Value::U64(*listing_id),
                Value::U64(*bot_id),
                Value::I128(*price),
            ],
            Event::Cancel { bot_id, .. } => vec![Value::U64(*bot_id)],
            Event::FeeBpsUpdated { old_fee_bps, new_fee_bps } => vec![
                Value::U32(*old_fee_bps),
                Value::U32(*new_fee_bps),
            ],
            Event::FeeRecipientUpdated { old_recipient, new_recipient } => vec![
                Value::Address(*old_recipient),
                Value::Address(*new_recipient),
            ],
            Event::BotNftUpdated { old_nft, new_nft } => vec![
                Value::Address(*old_nft),
                Value::Address(*new_nft),
            ],
            Event::AdminUpdated { old_admin, new_admin } => vec![
                Value::Address(*old_admin),
                Value::Address(*new_admin),
            ],
        }
    }
}

/// One step that the network carries out for the marketplace.
pub enum Action {
    /// Go on only if this party has authorized the request.
    RequireAuth(Address),
    /// Call another contract.
    Invoke(Invocation),
    /// Move an amount of a token from one party to another.
    TransferTokens { token: Address, from: Address, to: Address, amount: i128 },
    /// Store a ledger entry.
    Store(Write),
    /// Extend the lifetime of the instance entries to `extend_to` ledgers if
    /// fewer than `threshold` are left.
    ExtendInstanceTtl { threshold: u32, extend_to: u32 },
    /// Extend the lifetime of a persistent entry in the same way.
    ExtendTtl { key: DataKey, threshold: u32, extend_to: u32 },
    /// Publish an event.
    Publish(Event),
}

/// The model of an [`Action`].
#[verifier::ext_equal]
pub enum ActionView {
    RequireAuth(Address),
    Invoke(InvocationView),
    TransferTokens { token: Address, from: Address, to: Address, amount: i128 },
    Store(WriteView),
    ExtendInstanceTtl { threshold: u32, extend_to: u32 },
    ExtendTtl { key: DataKey, threshold: u32, extend_to: u32 },
    Publish(Event),
}

impl Action {
    pub open spec fn view(&self) -> ActionView {
        match self {
            Action::RequireAuth(party) => ActionView::RequireAuth(*party),
            Action::Invoke(call) => ActionView::Invoke(call@),
            Action::TransferTokens { token, from, to, amount } => ActionView::TransferTokens {
                token: *token,
                from: *from,
                to: *to,
                amount: *amount,
            },
            Action::Store(w) => ActionView::Store(w@),
            Action::ExtendInstanceTtl { threshold, extend_to } => ActionView::ExtendInstanceTtl {
                threshold: *threshold,
                extend_to: *extend_to,
            },
            Action::ExtendTtl { key, threshold, extend_to } => ActionView::ExtendTtl {
                key: *key,
                threshold: *threshold,
                extend_to: *extend_to,
            },
            Action::Publish(event) => ActionView::Publish(*event),
        }
    }
}

/// The answer to a request.
pub struct Outcome<T> {
    pub actions: Vec<Action>,
    pub result: Result<T, MarketplaceError>,
}

/// The model of an [`Outcome`].
#[verifier::ext_equal]
pub struct OutcomeView<T> {
    pub actions: Seq<ActionView>,
    pub result: Result<T, MarketplaceError>,
}

impl<T> Outcome<T> {
    pub open spec fn view(&self) -> OutcomeView<T> {
        OutcomeView {
            actions: Seq::new(self.actions@.len(), |i: int| self.actions@[i]@),
            result: self.result,
        }
    }
}

impl LedgerView {
    /// The ledger after an action is carried out.
    pub open spec fn apply(self, action: ActionView) -> LedgerView {
        match action {
            ActionView::Store(w) => self.write(w),
            _ => self,
        }
    }

    /// The ledger after a list of actions is carried out in order.
    pub open spec fn after(self, actions: Seq<ActionView>) -> LedgerView
        decreases actions.len(),
    {
        if actions.len() == 0 {
            self
        } else {
            self.after(actions.drop_last()).apply(actions.last())
        }
    }
}

} // verus!
