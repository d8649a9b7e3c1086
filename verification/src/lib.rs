//! A marketplace for trading bots that are kept in an NFT contract.
//!
//! A seller puts a bot up for sale, and the marketplace takes it into escrow. A
//! buyer pays the price, of which a fee goes to the marketplace's recipient, and
//! gets the bot; or the seller cancels the listing and gets it back. An
//! administrator changes the fee, its recipient, the NFT contract and the
//! administrator.
//!
//! [`contract::MarketplaceContract`] answers each request from the ledger entries
//! that it reads, in an [`action::Outcome`]: the list of what the network is to
//! do, in order, and the result of the request. [`model`] says what these answers
//! are. The remaining modules state what follows from them: what each request does
//! with what it is given ([`answers`]), what is true of every ledger
//! ([`consistency`]), what is paid ([`payments`]), who owns the bots on sale
//! ([`escrow`]), what the lists show ([`pages`]) and what holds of all requests
//! ([`laws`]). [`basics`] says what the parts of requests and answers mean.
//!
//! ## Events
//!
//! - `initialized`: the marketplace was set up.
//!   Topics: ("initialized",), data: (admin, bot_nft, fee_recipient)
//! - `listed`: a bot was put up for sale.
//!   Topics: ("listed", seller, listing_id), data: (bot_id, price)
//! - `sold`: a bot was bought.
//!   Topics: ("sold", seller, buyer), data: (listing_id, bot_id, price)
//! - `cancel`: a listing was cancelled.
//!   Topics: ("cancel", seller, listing_id), data: (bot_id,)
//! - `fee_bps_updated`: the fee was changed.
//!   Topics: ("fee_bps_updated",), data: (old_fee_bps, new_fee_bps)
//! - `fee_recipient_updated`: the recipient of the fees was changed.
//!   Topics: ("fee_recipient_updated",), data: (old_recipient, new_recipient)
//! - `bot_nft_updated`: the NFT contract was changed.
//!   Topics: ("bot_nft_updated",), data: (old_nft, new_nft)
//! - `admin_updated`: the administrator was changed.
//!   Topics: ("admin_updated",), data: (old_admin, new_admin)
pub mod action;
pub mod answers;
pub mod basics;
pub mod consistency;
pub mod contract;
pub mod escrow;
pub mod history;
pub mod id_list;
pub mod laws;
pub mod ledger;
pub mod lists;
pub mod model;
pub mod pages;
pub mod payments;
pub mod scan;
pub mod steps;
pub mod types;
