//! The auction's operations: creating the sequence counter, listing an item,
//! bidding and settlement. Each either applies in full or refuses with an
//! error and leaves every record as it was.
use vstd::prelude::*;
use crate::blueprints::{BidReceipt, Escrow, Identity, Item, ItemCounter, Payment};
use crate::contexts::{Bid, InitializeCounter, InitializeItem, TransferItemToWinner};
use crate::errors::BiddingError;
use vstd::string::StrSliceExecFns;

verus! {

/// The longest name an item may carry, in characters.
pub const MAX_NAME_LEN: usize = 200;

/// The longest description an item may carry, in characters.
pub const MAX_DESCRIPTION_LEN: usize = 600;

/// The longest image reference an item may carry, in characters.
pub const MAX_IMAGE_URL_LEN: usize = 500;

/// Creates the sequence counter, owned by the caller, with the first item
/// identifier set to 1. Refused when the counter exists already.
pub fn initialize_counter(ctx: &mut InitializeCounter) -> (r: Result<(), BiddingError>)
    ensures
        old(ctx).item_counter_account.item_count != 0 ==> r == Err::<(), BiddingError>(
            BiddingError::AlreadyInitialized,
        ) && *final(ctx) == *old(ctx),
        old(ctx).item_counter_account.item_count == 0 ==> r is Ok && *final(ctx) == (
        InitializeCounter {
            item_counter_account: ItemCounter { authority: old(ctx).authority, item_count: 1 },
            ..*old(ctx)
        }),
{
    if ctx.item_counter_account.item_count != 0 {
        return Err(BiddingError::AlreadyInitialized);
    }
    ctx.item_counter_account = ItemCounter { authority: ctx.authority, item_count: 1 };
    Ok(())
}

/// Why listing an item with this metadata is refused, checked in this order;
/// `None` when it is accepted.
pub open spec fn listing_error(
    counter: ItemCounter,
    name: Seq<char>,
    description: Seq<char>,
    image_url: Seq<char>,
) -> Option<BiddingError> {
    if counter.item_count == 0 {
        Some(BiddingError::CounterNotInitialized)
    } else if name.len() > MAX_NAME_LEN {
        Some(BiddingError::NameTooLong)
    } else if description.len() > MAX_DESCRIPTION_LEN {
        Some(BiddingError::DescriptionTooLong)
    } else if image_url.len() > MAX_IMAGE_URL_LEN {
        Some(BiddingError::ImageUrlTooLong)
    } else if counter.item_count == u16::MAX {
        Some(BiddingError::ItemIdsExhausted)
    } else {
        None
    }
}

/// One accepted listing: the counter moves on by exactly one and the item
/// takes the identifier it held.
pub open spec fn issues_item(before: ItemCounter, after: ItemCounter, item: Item) -> bool {
    &&& after.item_count == before.item_count + 1
    &&& after.authority == before.authority
    &&& item.item_id == before.item_count
}

/// Lists an item for the seller in `ctx`: takes the next identifier from the
/// counter and returns the new item, with no bid and owned by the seller,
/// and its empty escrow bound to the seller. On refusal nothing changes.
pub fn initialize_item(
    ctx: &mut InitializeItem,
    name: String,
    description: String,
    image_url: String,
    opening_price: u64,
    minimum_bid: u64,
) -> (r: Result<(Item, Escrow), BiddingError>)
    ensures
        match listing_error(old(ctx).item_counter_account, name@, description@, image_url@) {
            Some(e) => r == Err::<(Item, Escrow), BiddingError>(e) && *final(ctx) == *old(ctx),
            None => r is Ok && final(ctx).authority == old(ctx).authority && issues_item(
                old(ctx).item_counter_account,
                final(ctx).item_counter_account,
                r->Ok_0.0,
            ) && r->Ok_0.0 == (Item {
                authority: old(ctx).authority,
                name,
                description,
                image_url,
                opening_price,
                item_id: old(ctx).item_counter_account.item_count,
                highest_bid: 0,
                minimum_bid,
                highest_bidder: None,
                settled: false,
            }) && r->Ok_0.1 == (Escrow { authority: old(ctx).authority, lamports: 0 }),
        },
        r is Ok ==> r->Ok_0.0.bidder_recorded() && r->Ok_0.0.custodies(r->Ok_0.1),
{
    if ctx.item_counter_account.item_count == 0 {
        return Err(BiddingError::CounterNotInitialized);
    }
    if name.as_str().unicode_len() > MAX_NAME_LEN {
        return Err(BiddingError::NameTooLong);
    }
    if description.as_str().unicode_len() > MAX_DESCRIPTION_LEN {
        return Err(BiddingError::DescriptionTooLong);
    }
    if image_url.as_str().unicode_len() > MAX_IMAGE_URL_LEN {
        return Err(BiddingError::ImageUrlTooLong);
    }
    let current_count: u16 = ctx.item_counter_account.item_count;
    if current_count == u16::MAX {
        return Err(BiddingError::ItemIdsExhausted);
    }
    ctx.item_counter_account.item_count = current_count + 1;
    let escrow = Escrow { authority: ctx.authority, lamports: 0 };
    let item = Item {
        authority: ctx.authority,
        name,
        description,
        image_url,
        opening_price,
        item_id: current_count,
        highest_bid: 0,
        minimum_bid,
        highest_bidder: None,
        settled: false,
    };
    Ok((item, escrow))
}

/// The only amount a bid on `item` may carry: the opening price for the first
/// bid, else the high bid raised by the minimum increment.
pub open spec fn required_amount(item: Item) -> int {
    if item.highest_bid == 0 {
        item.opening_price as int
    } else {
        item.highest_bid + item.minimum_bid
    }
}

/// Whether a new bid on `item` displaces a bidder who must be refunded.
pub open spec fn refund_due(item: Item) -> bool {
    item.highest_bid > 0 && item.highest_bidder is Some
}

/// The refund that a new bid on `item` owes the displaced bidder.
pub open spec fn refund_of(item: Item) -> Option<Payment> {
    match item.highest_bidder {
        Some(prev) => if item.highest_bid > 0 {
            Some(Payment { recipient: prev, amount: item.highest_bid })
        } else {
            None
        },
        None => None,
    }
}

/// The refund amount owed on a bid: the displaced high bid, or nothing.
pub open spec fn refund_amount(item: Item) -> int {
    if refund_due(item) { item.highest_bid as int } else { 0 }
}

/// Why a bid in `ctx` on item `item_id` is refused, checked in this order;
/// `None` when it is accepted.
pub open spec fn bid_error(ctx: Bid, item_id: u16) -> Option<BiddingError> {
    let item = ctx.item_account;
    let amount = required_amount(item);
    if item.item_id != item_id {
        Some(BiddingError::ItemMismatch)
    } else if item.settled {
        Some(BiddingError::AuctionAlreadySettled)
    } else if ctx.escrow_account.authority != item.authority {
        Some(BiddingError::InvalidAuctionCreator)
    } else if ctx.previous_bidder != item.highest_bidder {
        Some(BiddingError::InvalidPreviousBidder)
    } else if amount > u64::MAX {
        Some(BiddingError::AmountOverflow)
    } else if ctx.authority_lamports < amount {
        Some(BiddingError::InsufficientFunds)
    } else if ctx.escrow_account.lamports + amount > u64::MAX {
        Some(BiddingError::AmountOverflow)
    } else if refund_due(item) && !ctx.previous_bidder_writable {
        Some(BiddingError::PreviousBidderNotWritable)
    } else if refund_due(item) && ctx.escrow_account.lamports + amount - item.highest_bid
        < ctx.reserve_floor {
        Some(BiddingError::EscrowNotRentExempt)
    } else {
        None
    }
}

/// The item after `bidder`'s bid on it is accepted.
pub open spec fn bid_item(item: Item, bidder: Identity) -> Item {
    Item { highest_bid: required_amount(item) as u64, highest_bidder: Some(bidder), ..item }
}

/// The item after it is settled in favour of `winner`.
pub open spec fn settle_item(item: Item, winner: Identity) -> Item {
    Item { authority: winner, settled: true, ..item }
}

/// One step in the life of an item: a refused operation leaves it as it was,
/// an accepted bid by some bidder, or its settlement in favour of some winner.
#[verifier::opaque]
pub open spec fn item_step(before: Item, after: Item) -> bool {
    ||| after == before
    ||| exists|bidder: Identity|
        !before.settled && required_amount(before) <= u64::MAX && after == #[trigger] bid_item(
            before,
            bidder,
        )
    ||| exists|winner: Identity| !before.settled && after == #[trigger] settle_item(before, winner)
}

/// The records after an accepted bid in `ctx`: the escrow takes in the
/// required amount and pays out the refund, and the bidder holds the high bid.
pub open spec fn after_bid(ctx: Bid) -> Bid {
    let item = ctx.item_account;
    let amount = required_amount(item);
    Bid {
        item_account: bid_item(item, ctx.authority),
        escrow_account: Escrow {
            lamports: (ctx.escrow_account.lamports + amount - refund_amount(item)) as u64,
            ..ctx.escrow_account
        },
        ..ctx
    }
}

/// The funds an accepted bid in `ctx` moves.
pub open spec fn bid_receipt(ctx: Bid) -> BidReceipt {
    BidReceipt {
        amount: required_amount(ctx.item_account) as u64,
        refund: refund_of(ctx.item_account),
    }
}

fn same_party(a: &Option<Identity>, b: &Option<Identity>) -> (r: bool)
    ensures
        r == (*a == *b),
{
    match (a, b) {
        (Some(x), Some(y)) => *x == *y,
        (None, None) => true,
        _ => false,
    }
}

/// Places a bid of the required amount for the bidder in `ctx` on item
/// `item_id`. On success the item records the bidder and the new high bid,
/// the escrow's balance is credited with the bid and debited with the refund
/// of the displaced bidder, and the receipt names both movements for the
/// caller to carry out. On refusal nothing changes.
pub fn bid(ctx: &mut Bid, item_id: u16) -> (r: Result<BidReceipt, BiddingError>)
    ensures
        match bid_error(*old(ctx), item_id) {
            Some(e) => r == Err::<BidReceipt, BiddingError>(e) && *final(ctx) == *old(ctx),
            None => r == Ok::<BidReceipt, BiddingError>(bid_receipt(*old(ctx)))
                && *final(ctx) == after_bid(*old(ctx)),
        },
        item_step(old(ctx).item_account, final(ctx).item_account),
        final(ctx).item_account.highest_bid >= old(ctx).item_account.highest_bid,
        old(ctx).item_account.bidder_recorded() ==> final(ctx).item_account.bidder_recorded(),
        old(ctx).item_account.opening_price > 0 && (old(ctx).item_account.highest_bid == 0
            <==> old(ctx).item_account.highest_bidder is None) ==> (
        final(ctx).item_account.highest_bid == 0 <==> final(ctx).item_account.highest_bidder is None),
        r is Ok && old(ctx).item_account.bidder_recorded() && old(ctx).item_account.custodies(
            old(ctx).escrow_account,
        ) ==> final(ctx).escrow_account.lamports == final(ctx).item_account.highest_bid
            && final(ctx).item_account.custodies(final(ctx).escrow_account),
        old(ctx).previous_bidder != old(ctx).item_account.highest_bidder ==> r is Err
            && *final(ctx) == *old(ctx),
        refund_due(old(ctx).item_account) && old(ctx).escrow_account.lamports + required_amount(
            old(ctx).item_account,
        ) - old(ctx).item_account.highest_bid < old(ctx).reserve_floor ==> r is Err
            && *final(ctx) == *old(ctx),
{
    proof {
        reveal(item_step);
    }
    if ctx.item_account.item_id != item_id {
        return Err(BiddingError::ItemMismatch);
    }
    if ctx.item_account.settled {
        return Err(BiddingError::AuctionAlreadySettled);
    }
    if ctx.escrow_account.authority != ctx.item_account.authority {
        return Err(BiddingError::InvalidAuctionCreator);
    }
    if !same_party(&ctx.previous_bidder, &ctx.item_account.highest_bidder) {
        return Err(BiddingError::InvalidPreviousBidder);
    }
    let bid_amount: u64 = if ctx.item_account.highest_bid == 0 {
        ctx.item_account.opening_price
    } else {
        match ctx.item_account.highest_bid.checked_add(ctx.item_account.minimum_bid) {
            Some(v) => v,
            None => {
                return Err(BiddingError::AmountOverflow);
            },
        }
    };
    if ctx.authority_lamports < bid_amount {
        return Err(BiddingError::InsufficientFunds);
    }
    let credited: u64 = match ctx.escrow_account.lamports.checked_add(bid_amount) {
        Some(v) => v,
        None => {
            return Err(BiddingError::AmountOverflow);
        },
    };
    let mut remaining: u64 = credited;
    let mut refund: Option<Payment> = None;
    if ctx.item_account.highest_bid > 0 {
        if let Some(prev) = ctx.item_account.highest_bidder {
            if !ctx.previous_bidder_writable {
                return Err(BiddingError::PreviousBidderNotWritable);
            }
            let refund_amount: u64 = ctx.item_account.highest_bid;
            if credited < refund_amount || credited - refund_amount < ctx.reserve_floor {
                return Err(BiddingError::EscrowNotRentExempt);
            }
            remaining = credited - refund_amount;
            refund = Some(Payment { recipient: prev, amount: refund_amount });
        }
    }
    ctx.escrow_account.lamports = remaining;
    ctx.item_account.highest_bid = bid_amount;
    ctx.item_account.highest_bidder = Some(ctx.authority);
    Ok(BidReceipt { amount: bid_amount, refund })
}

/// Why settling the item in `ctx` named `item_id` in favour of `new_authority`
/// is refused, checked in this order; `None` when it is accepted.
pub open spec fn settlement_error(
    ctx: TransferItemToWinner,
    item_id: u16,
    new_authority: Option<Identity>,
) -> Option<BiddingError> {
    if ctx.item_account.item_id != item_id {
        Some(BiddingError::ItemMismatch)
    } else if ctx.item_account.settled {
        Some(BiddingError::AuctionAlreadySettled)
    } else if ctx.escrow_account.authority != ctx.item_account.authority {
        Some(BiddingError::InvalidAuctionCreator)
    } else if new_authority is None {
        Some(BiddingError::InvalidNewAuthority)
    } else {
        None
    }
}

/// Settles the item in `ctx`: the whole escrow balance is paid to the seller
/// the escrow was created for, the escrow is left empty, the winner becomes
/// the owning party and the item takes no more bids. The returned payment
/// names the movement for the caller to carry out. On refusal nothing
/// changes.
pub fn transfer_item_to_winner(
    ctx: &mut TransferItemToWinner,
    item_id: u16,
    new_authority: Option<Identity>,
) -> (r: Result<Payment, BiddingError>)
    ensures
        match settlement_error(*old(ctx), item_id, new_authority) {
            Some(e) => r == Err::<Payment, BiddingError>(e) && *final(ctx) == *old(ctx),
            None => r == Ok::<Payment, BiddingError>(
                Payment {
                    recipient: old(ctx).escrow_account.authority,
                    amount: old(ctx).escrow_account.lamports,
                },
            ) && final(ctx).escrow_account == (Escrow { lamports: 0, ..old(ctx).escrow_account })
                && final(ctx).item_account == settle_item(
                old(ctx).item_account,
                new_authority->Some_0,
            ),
        },
        r is Ok ==> final(ctx).escrow_account.lamports == 0 && Some(
            final(ctx).item_account.authority,
        ) == new_authority && final(ctx).item_account.custodies(final(ctx).escrow_account),
        r is Err ==> *final(ctx) == *old(ctx),
        item_step(old(ctx).item_account, final(ctx).item_account),
{
    proof {
        reveal(item_step);
    }
    if ctx.item_account.item_id != item_id {
        return Err(BiddingError::ItemMismatch);
    }
    if ctx.item_account.settled {
        return Err(BiddingError::AuctionAlreadySettled);
    }
    if ctx.escrow_account.authority != ctx.item_account.authority {
        return Err(BiddingError::InvalidAuctionCreator);
    }
    let winner = match new_authority {
        Some(w) => w,
        None => {
            return Err(BiddingError::InvalidNewAuthority);
        },
    };
    let payout = Payment {
        recipient: ctx.escrow_account.authority,
        amount: ctx.escrow_account.lamports,
    };
    ctx.escrow_account.lamports = 0;
    ctx.item_account.authority = winner;
    ctx.item_account.settled = true;
    Ok(payout)
}

} // verus!
