//! Properties of the auction over whole sequences of operations.
use vstd::prelude::*;
use crate::bidding::{after_bid, bid_error, bid_item, issues_item, item_step, required_amount, settle_item};
use crate::contexts::Bid;
use crate::blueprints::{Identity, Item, ItemCounter};

verus! {

proof fn lemma_counter_after_listings(counters: Seq<ItemCounter>, items: Seq<Item>, k: int)
    requires
        counters.len() == items.len() + 1,
        counters[0].item_count == 1,
        forall|i: int|
            0 <= i < items.len() ==> issues_item(counters[i], counters[i + 1], #[trigger] items[i]),
        0 <= k <= items.len(),
    ensures
        counters[k].item_count == k + 1,
    decreases k,
{
    if k > 0 {
        lemma_counter_after_listings(counters, items, k - 1);
        assert(issues_item(counters[k - 1], counters[k], items[k - 1]));
    }
}

/// Listings made one after another from a freshly created counter receive the
/// identifiers 1, 2, ..., n in order: no identifier is repeated and none is
/// skipped, whatever bids happen on other items in between. `counters[i]` is
/// the counter as listing `i` finds it.
pub proof fn lemma_listings_issue_consecutive_ids(counters: Seq<ItemCounter>, items: Seq<Item>)
    requires
        counters.len() == items.len() + 1,
        counters[0].item_count == 1,
        forall|i: int|
            0 <= i < items.len() ==> issues_item(counters[i], counters[i + 1], #[trigger] items[i]),
    ensures
        forall|i: int| 0 <= i < items.len() ==> #[trigger] items[i].item_id == i + 1,
        forall|i: int, j: int|
            0 <= i < j < items.len() ==> #[trigger] items[i].item_id != #[trigger] items[j].item_id,
        Set::new(|id: int| exists|i: int| 0 <= i < items.len() && #[trigger] items[i].item_id == id)
            == Set::new(|id: int| 1 <= id <= items.len()),
{
    assert forall|i: int| 0 <= i < items.len() implies #[trigger] items[i].item_id == i + 1 by {
        lemma_counter_after_listings(counters, items, i);
        assert(issues_item(counters[i], counters[i + 1], items[i]));
    }
    let issued = Set::new(|id: int| exists|i: int| 0 <= i < items.len() && #[trigger] items[i].item_id == id);
    let range = Set::new(|id: int| 1 <= id <= items.len());
    assert forall|id: int| range.contains(id) implies issued.contains(id) by {
        assert(items[id - 1].item_id == id);
    }
    assert(issued =~= range);
}

/// Over the life of an item, from its listing through any sequence of
/// refused operations, accepted bids and settlement, the high bid never
/// decreases and is never held without a bidder; when the opening price is
/// above zero, the item has a high bid exactly when it has a bidder.
pub proof fn lemma_item_lifetime(items: Seq<Item>)
    requires
        items.len() > 0,
        items[0].highest_bid == 0,
        items[0].highest_bidder is None,
        forall|i: int| 0 <= i < items.len() - 1 ==> item_step(#[trigger] items[i], items[i + 1]),
    ensures
        forall|i: int, j: int|
            0 <= i <= j < items.len() ==> #[trigger] items[i].highest_bid
                <= #[trigger] items[j].highest_bid,
        forall|i: int| 0 <= i < items.len() ==> #[trigger] items[i].bidder_recorded(),
        items[0].opening_price > 0 ==> forall|i: int|
            0 <= i < items.len() ==> (#[trigger] items[i].highest_bid == 0
                <==> items[i].highest_bidder is None),
{
    lemma_item_lifetime_prefix(items, items.len() - 1);
}

proof fn lemma_item_step(before: Item, after: Item)
    requires
        item_step(before, after),
        before.bidder_recorded(),
    ensures
        before.highest_bid <= after.highest_bid,
        after.bidder_recorded(),
        after.opening_price == before.opening_price,
        before.opening_price > 0 && (before.highest_bid == 0 <==> before.highest_bidder is None)
            ==> (after.highest_bid == 0 <==> after.highest_bidder is None),
{
    reveal(item_step);
    if after != before {
        if exists|bidder: Identity|
            !before.settled && required_amount(before) <= u64::MAX && after == #[trigger] bid_item(
                before,
                bidder,
            ) {
            let bidder = choose|bidder: Identity|
                !before.settled && required_amount(before) <= u64::MAX && after
                    == #[trigger] bid_item(before, bidder);
            assert(after.highest_bid == required_amount(before));
        } else {
            let winner = choose|winner: Identity|
                !before.settled && after == #[trigger] settle_item(before, winner);
            assert(after.highest_bid == before.highest_bid);
        }
    }
}

proof fn lemma_item_lifetime_prefix(items: Seq<Item>, k: int)
    requires
        0 <= k < items.len(),
        items[0].highest_bid == 0,
        items[0].highest_bidder is None,
        forall|i: int| 0 <= i < items.len() - 1 ==> item_step(#[trigger] items[i], items[i + 1]),
    ensures
        forall|i: int, j: int|
            0 <= i <= j <= k ==> #[trigger] items[i].highest_bid <= #[trigger] items[j].highest_bid,
        forall|i: int| 0 <= i <= k ==> #[trigger] items[i].bidder_recorded(),
        forall|i: int| 0 <= i <= k ==> #[trigger] items[i].opening_price == items[0].opening_price,
        items[0].opening_price > 0 ==> forall|i: int|
            0 <= i <= k ==> (#[trigger] items[i].highest_bid == 0
                <==> items[i].highest_bidder is None),
    decreases k,
{
    if k > 0 {
        lemma_item_lifetime_prefix(items, k - 1);
        assert(item_step(items[k - 1], items[k]));
        lemma_item_step(items[k - 1], items[k]);
        assert forall|i: int, j: int| 0 <= i <= j <= k implies #[trigger] items[i].highest_bid
            <= #[trigger] items[j].highest_bid by {
            if j == k && i < k {
                assert(items[i].highest_bid <= items[k - 1].highest_bid);
            }
        }
    }
}

/// From a fresh listing, through any sequence of bids, each accepted or
/// refused, the escrow holds exactly the high bid. `bids[i]` is the context of
/// bid `i`; the next bid finds the item and escrow that bid `i` left behind.
pub proof fn lemma_escrow_holds_high_bid(bids: Seq<Bid>, item_id: u16)
    requires
        bids.len() > 0,
        bids[0].item_account.highest_bid == 0,
        bids[0].item_account.highest_bidder is None,
        bids[0].escrow_account.lamports == 0,
        forall|i: int|
            0 <= i < bids.len() - 1 ==> {
                let next = if bid_error(#[trigger] bids[i], item_id) is None {
                    after_bid(bids[i])
                } else {
                    bids[i]
                };
                bids[i + 1].item_account == next.item_account && bids[i + 1].escrow_account
                    == next.escrow_account
            },
    ensures
        forall|i: int|
            0 <= i < bids.len() ==> (#[trigger] bids[i]).escrow_account.lamports
                == bids[i].item_account.highest_bid,
{
    lemma_escrow_holds_high_bid_prefix(bids, item_id, bids.len() - 1);
}

proof fn lemma_escrow_holds_high_bid_prefix(bids: Seq<Bid>, item_id: u16, k: int)
    requires
        0 <= k < bids.len(),
        bids[0].item_account.highest_bid == 0,
        bids[0].item_account.highest_bidder is None,
        bids[0].escrow_account.lamports == 0,
        forall|i: int|
            0 <= i < bids.len() - 1 ==> {
                let next = if bid_error(#[trigger] bids[i], item_id) is None {
                    after_bid(bids[i])
                } else {
                    bids[i]
                };
                bids[i + 1].item_account == next.item_account && bids[i + 1].escrow_account
                    == next.escrow_account
            },
    ensures
        forall|i: int|
            0 <= i <= k ==> (#[trigger] bids[i]).escrow_account.lamports
                == bids[i].item_account.highest_bid && bids[i].item_account.bidder_recorded(),
    decreases k,
{
    if k > 0 {
        lemma_escrow_holds_high_bid_prefix(bids, item_id, k - 1);
        let prev = bids[k - 1];
        assert(prev.escrow_account.lamports == prev.item_account.highest_bid);
        assert(prev.item_account.bidder_recorded());
    }
}

} // verus!
