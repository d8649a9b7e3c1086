//! What is paid, and by whom.
use crate::action::ActionView;
use crate::consistency::consistent;
use crate::history::Request;
use crate::ledger::LedgerView;
use crate::model::{buy_bot_outcome, can_buy, fee_on, payments};
use crate::steps::lemma_buy_bot_actions;
use crate::types::{Address, Config, Listing};
use vstd::prelude::*;

verus! {

/// What a list of payments adds up to.
pub open spec fn total_paid(actions: Seq<ActionView>) -> int
    decreases actions.len(),
{
    if actions.len() == 0 {
        0
    } else {
        total_paid(actions.drop_last()) + match actions.last() {
            ActionView::TransferTokens { amount, .. } => amount as int,
            _ => 0,
        }
    }
}

proof fn lemma_total_paid_add(a: Seq<ActionView>, b: Seq<ActionView>)
    ensures
        total_paid(a + b) == total_paid(a) + total_paid(b),
    decreases b.len(),
{
    if b.len() == 0 {
        assert(a + b =~= a);
    } else {
        assert((a + b).drop_last() =~= a + b.drop_last());
        lemma_total_paid_add(a, b.drop_last());
    }
}

proof fn lemma_nothing_paid(actions: Seq<ActionView>)
    requires
        forall|i: int| 0 <= i < actions.len() ==> !((#[trigger] actions[i]) is TransferTokens),
    ensures
        total_paid(actions) == 0,
    decreases actions.len(),
{
    if actions.len() > 0 {
        lemma_nothing_paid(actions.drop_last());
    }
}

/// The payments of a purchase add up to the price.
proof fn lemma_payments_add_up(listing: Listing, config: Config, buyer: Address)
    requires
        listing.price >= 0,
        listing.price * config.fee_bps <= i128::MAX,
    ensures
        total_paid(payments(listing, config, buyer)) == listing.price,
{
    let pay = payments(listing, config, buyer);
    let price: int = listing.price as int;
    let bps: int = config.fee_bps as int;
    assert(price * bps >= 0) by (nonlinear_arith)
        requires
            price >= 0,
            bps >= 0,
    ;
    reveal_with_fuel(total_paid, 3);
    if pay.len() == 2 {
        assert(pay.drop_last() =~= seq![pay[0]]);
        assert(pay.drop_last().drop_last() =~= Seq::<ActionView>::empty());
    } else {
        assert(pay.drop_last() =~= Seq::<ActionView>::empty());
    }
}

/// A purchase costs the buyer the price, no more and no less, in the currency of
/// the listing; all of it goes to the seller and the recipient of the fees.
pub proof fn buyers_pay_the_price(
    l: LedgerView,
    buyer: Address,
    listing_id: u64,
    marketplace: Address,
)
    requires
        consistent(l),
        (Request::BuyBot { buyer, listing_id }).fits(l),
        can_buy(l, buyer, listing_id),
    ensures
        ({
            let listing = l.listings[listing_id];
            let actions = buy_bot_outcome(l, buyer, listing_id, marketplace).actions;
            &&& total_paid(actions) == listing.price
            &&& forall|i: int|
                0 <= i < actions.len() ==> ((#[trigger] actions[i]) matches
                    ActionView::TransferTokens { token, from, to, .. } ==> token
                    == listing.currency && from == buyer && (to == listing.seller || to
                    == l.config->0.fee_recipient))
        }),
{
    let listing = l.listings[listing_id];
    let pay = payments(listing, l.config->0, buyer);
    let n: int = 1 + pay.len() as int;
    let actions = buy_bot_outcome(l, buyer, listing_id, marketplace).actions;
    lemma_buy_bot_actions(l, buyer, listing_id, marketplace);
    lemma_payments_add_up(listing, l.config->0, buyer);
    let head = actions.take(1);
    let tail = actions.skip(n);
    assert(actions =~= head + pay + tail);
    lemma_total_paid_add(head + pay, tail);
    lemma_total_paid_add(head, pay);
    lemma_nothing_paid(head);
    lemma_nothing_paid(tail);
}

/// Nothing but a purchase moves tokens.
pub proof fn only_purchases_move_tokens(l: LedgerView, request: Request, marketplace: Address)
    requires
        !(request is BuyBot),
    ensures
        total_paid(request.outcome(l, marketplace).actions) == 0,
        forall|i: int|
            0 <= i < request.outcome(l, marketplace).actions.len() ==> !((
            #[trigger] request.outcome(l, marketplace).actions[i]) is TransferTokens),
{
    lemma_nothing_paid(request.outcome(l, marketplace).actions);
}

/// As long as the fee is at most the whole price, neither the seller nor the
/// recipient of the fee is paid a negative amount, and the recipient gets at most
/// the price.
pub proof fn fees_stay_within_the_price(price: int, fee_bps: int)
    requires
        price >= 0,
        0 <= fee_bps <= 10_000,
    ensures
        0 <= fee_on(price, fee_bps) <= price,
{
    assert(0 <= price * fee_bps <= price * 10_000) by (nonlinear_arith)
        requires
            price >= 0,
            0 <= fee_bps <= 10_000,
    ;
}

} // verus!
