//! Who owns the bots that are on sale.
use crate::action::ActionView;
use crate::consistency::consistent;
use crate::history::Request;
use crate::ledger::LedgerView;
use crate::lists::{lemma_add_id, lemma_drop_id};
use crate::model::{bot_transfer, new_listing, payments};
use crate::steps::{
    lemma_after_buy_bot, lemma_after_cancel_listing, lemma_after_initialize,
    lemma_after_list_bot, lemma_after_settings, lemma_buy_bot_actions, with_closed,
};
use crate::types::{Address, Listing};
use vstd::prelude::*;

verus! {

/// The parties that own the bots, after a list of actions is carried out.
pub open spec fn owners_after(
    owners: Map<u64, Address>,
    bot_nft: Address,
    actions: Seq<ActionView>,
) -> Map<u64, Address>
    decreases actions.len(),
{
    if actions.len() == 0 {
        owners
    } else {
        let before = owners_after(owners, bot_nft, actions.drop_last());
        match actions.last() {
            ActionView::Invoke(call) => if call.contract == bot_nft {
                before.insert(call.args[2]->U64_0, call.args[1]->Address_0)
            } else {
                before
            },
            _ => before,
        }
    }
}

/// Whether each bot that is moved belongs to the party that it is taken from.
pub open spec fn moves_own_bots(
    owners: Map<u64, Address>,
    bot_nft: Address,
    actions: Seq<ActionView>,
) -> bool {
    forall|i: int|
        #![trigger actions[i]]
        0 <= i < actions.len() && actions[i] is Invoke && actions[i]->Invoke_0.contract == bot_nft
            ==> {
            let bot_id = actions[i]->Invoke_0.args[2]->U64_0;
            let owner = owners_after(owners, bot_nft, actions.take(i));
            owner.contains_key(bot_id) && owner[bot_id]
                == actions[i]->Invoke_0.args[0]->Address_0
        }
}

/// The marketplace owns every bot that it has on sale, and has none on sale
/// twice.
pub open spec fn escrowed(
    l: LedgerView,
    owners: Map<u64, Address>,
    marketplace: Address,
) -> bool {
    &&& forall|id: u64| #[trigger]
        l.active_ids().contains(id) ==> owners.contains_key(l.listings[id].bot_id)
            && owners[l.listings[id].bot_id] == marketplace
    &&& forall|a: u64, b: u64| #[trigger]
        l.active_ids().contains(a) && #[trigger] l.active_ids().contains(b) && a != b
            ==> l.listings[a].bot_id != l.listings[b].bot_id
}

/// Bots change hands by calls of their contract alone: each gives the bot that
/// its third argument names to the party that its second argument names.
pub proof fn calls_move_bots(
    owners: Map<u64, Address>,
    bot_nft: Address,
    actions: Seq<ActionView>,
    action: ActionView,
)
    ensures
        owners_after(owners, bot_nft, Seq::empty()) == owners,
        action matches ActionView::Invoke(call) ==> call.contract == bot_nft ==> owners_after(
            owners,
            bot_nft,
            actions.push(action),
        ) == owners_after(owners, bot_nft, actions).insert(
            call.args[2]->U64_0,
            call.args[1]->Address_0,
        ),
        !(action is Invoke) || action->Invoke_0.contract != bot_nft ==> owners_after(
            owners,
            bot_nft,
            actions.push(action),
        ) == owners_after(owners, bot_nft, actions),
{
    assert(actions.push(action).drop_last() =~= actions);
}

/// Where one action at most calls the contract of the bots, the owners change by
/// that call alone.
pub(crate) proof fn lemma_owners_steps(
    owners: Map<u64, Address>,
    bot_nft: Address,
    actions: Seq<ActionView>,
    at: int,
)
    requires
        forall|i: int| 0 <= i < actions.len() && i != at ==> !((#[trigger] actions[i]) is Invoke),
    ensures
        forall|i: int|
            0 <= i <= actions.len() && i <= at ==> #[trigger] owners_after(
                owners,
                bot_nft,
                actions.take(i),
            ) == owners,
        0 <= at < actions.len() && actions[at] is Invoke && actions[at]->Invoke_0.contract
            == bot_nft ==> owners_after(owners, bot_nft, actions) == owners.insert(
            actions[at]->Invoke_0.args[2]->U64_0,
            actions[at]->Invoke_0.args[1]->Address_0,
        ),
        at >= actions.len() ==> owners_after(owners, bot_nft, actions) == owners,
    decreases actions.len(),
{
    if actions.len() > 0 {
        let rest = actions.drop_last();
        lemma_owners_steps(owners, bot_nft, rest, at);
        assert(rest.take(rest.len() as int) =~= rest);
        assert forall|i: int| 0 <= i <= actions.len() && i <= at implies #[trigger] owners_after(
            owners,
            bot_nft,
            actions.take(i),
        ) == owners by {
            if i < actions.len() {
                assert(actions.take(i) =~= rest.take(i));
            } else {
                assert(actions.take(i) =~= actions);
            }
        }
    }
}

/// Where one action calls the contract of the bots, and it moves a bot at the
/// word of its owner, the bot changes hands.
proof fn lemma_one_move(
    owners: Map<u64, Address>,
    actions: Seq<ActionView>,
    at: int,
    bot_nft: Address,
    from: Address,
    to: Address,
    bot_id: u64,
)
    requires
        0 <= at < actions.len(),
        actions[at] == ActionView::Invoke(bot_transfer(bot_nft, from, to, bot_id)),
        forall|i: int| 0 <= i < actions.len() && i != at ==> !((#[trigger] actions[i]) is Invoke),
        moves_own_bots(owners, bot_nft, actions),
    ensures
        owners[bot_id] == from,
        owners_after(owners, bot_nft, actions) == owners.insert(bot_id, to),
{
    lemma_owners_steps(owners, bot_nft, actions, at);
    assert(owners_after(owners, bot_nft, actions.take(at)) == owners);
}

/// Putting a bot on sale that someone else owns, and taking it, keeps the escrow.
proof fn lemma_listing_keeps_escrow(
    l: LedgerView,
    next: LedgerView,
    owners: Map<u64, Address>,
    marketplace: Address,
    listing: Listing,
)
    requires
        consistent(l),
        escrowed(l, owners, marketplace),
        owners[listing.bot_id] != marketplace,
        next.active_ids() == l.active_ids().push(l.next_id()),
        next.listings == l.listings.insert(l.next_id(), listing),
    ensures
        escrowed(next, owners.insert(listing.bot_id, marketplace), marketplace),
{
    let id = l.next_id();
    assert forall|other: u64| #[trigger] l.active_ids().contains(other) implies other < id by {
        assert(l.listings.contains_key(other));
    }
    lemma_add_id(l.active_ids(), id);
}

/// Taking a bot off sale, and giving it away, keeps the escrow.
proof fn lemma_closing_keeps_escrow(
    l: LedgerView,
    owners: Map<u64, Address>,
    marketplace: Address,
    listing_id: u64,
    to: Address,
)
    requires
        consistent(l),
        escrowed(l, owners, marketplace),
        l.listings.contains_key(listing_id),
        l.listings[listing_id].active,
    ensures
        escrowed(
            with_closed(l, listing_id),
            owners.insert(l.listings[listing_id].bot_id, to),
            marketplace,
        ),
{
    lemma_drop_id(l.active_ids(), listing_id);
    assert(l.active_ids().contains(listing_id));
    let next = with_closed(l, listing_id);
    assert forall|id: u64| #[trigger] next.active_ids().contains(id) implies id != listing_id
        && l.active_ids().contains(id) by {}
}

/// The marketplace owns what it sells: as long as bots move only at the word of
/// their owner, and neither the contract of the bots is replaced nor the
/// marketplace trades with itself, every bot on sale belongs to the marketplace,
/// and none is on sale twice.
#[verifier::spinoff_prover]
#[verifier::rlimit(40)]
pub proof fn bots_on_sale_are_in_escrow(
    l: LedgerView,
    owners: Map<u64, Address>,
    request: Request,
    marketplace: Address,
)
    requires
        consistent(l),
        escrowed(l, owners, marketplace),
        request.maker(l) != marketplace,
        !(request is SetBotNft),
        request.fits(l),
        request.outcome(l, marketplace).result is Ok,
        moves_own_bots(
            owners,
            l.config->0.bot_nft,
            request.outcome(l, marketplace).actions,
        ),
    ensures
        escrowed(
            request.next(l, marketplace),
            owners_after(owners, l.config->0.bot_nft, request.outcome(l, marketplace).actions),
            marketplace,
        ),
{
    let nft = l.config->0.bot_nft;
    let actions = request.outcome(l, marketplace).actions;
    match request {
        Request::Initialize { admin, bot_nft, fee_recipient } => {
            lemma_after_initialize(l, admin, bot_nft, fee_recipient);
        },
        Request::ListBot { seller, bot_id, bot_tier, price, currency, timestamp } => {
            lemma_after_list_bot(
                l,
                seller,
                bot_id,
                bot_tier,
                price,
                currency,
                marketplace,
                timestamp,
            );
            lemma_one_move(owners, actions, 1, nft, seller, marketplace, bot_id);
            lemma_listing_keeps_escrow(
                l,
                request.next(l, marketplace),
                owners,
                marketplace,
                new_listing(l.next_id(), seller, bot_id, bot_tier, price, currency, timestamp),
            );
        },
        Request::BuyBot { buyer, listing_id } => {
            let bot_id = l.listings[listing_id].bot_id;
            let at: int = 1 + payments(l.listings[listing_id], l.config->0, buyer).len() as int;
            lemma_after_buy_bot(l, buyer, listing_id, marketplace);
            lemma_buy_bot_actions(l, buyer, listing_id, marketplace);
            lemma_one_move(owners, actions, at, nft, marketplace, buyer, bot_id);
            lemma_closing_keeps_escrow(l, owners, marketplace, listing_id, buyer);
        },
        Request::CancelListing { seller, listing_id } => {
            let bot_id = l.listings[listing_id].bot_id;
            lemma_after_cancel_listing(l, seller, listing_id, marketplace);
            lemma_one_move(owners, actions, 1, nft, marketplace, seller, bot_id);
            lemma_closing_keeps_escrow(l, owners, marketplace, listing_id, seller);
        },
        _ => {
            lemma_after_settings(l, request, marketplace);
            lemma_owners_steps(owners, nft, actions, actions.len() as int);
        },
    }
}

} // verus!
