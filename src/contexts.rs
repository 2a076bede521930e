use vstd::prelude::*;
use crate::blueprints::{Escrow, Identity, Item, ItemCounter};

verus! {

/// The records that creating the sequence counter reads and writes.
#[derive(Clone, Copy, Debug)]
pub struct InitializeCounter {
    /// The party creating the counter.
    pub authority: Identity,
    /// The counter record; `item_count == 0` while it does not exist.
    pub item_counter_account: ItemCounter,
}

/// The records that listing an item reads and writes.
#[derive(Clone, Copy, Debug)]
pub struct InitializeItem {
    /// The seller listing the item.
    pub authority: Identity,
    pub item_counter_account: ItemCounter,
}

/// The records and facts that one bid reads and writes.
#[derive(Clone, Debug)]
pub struct Bid {
    /// The bidder.
    pub authority: Identity,
    /// The funds the bidder can pay from.
    pub authority_lamports: u64,
    pub item_account: Item,
    pub escrow_account: Escrow,
    /// The party the caller presents as the current highest bidder.
    pub previous_bidder: Option<Identity>,
    /// Whether that party's account can receive a refund.
    pub previous_bidder_writable: bool,
    /// The least balance the escrow must keep after a refund.
    pub reserve_floor: u64,
}

/// The records that settling an item reads and writes.
#[derive(Clone, Debug)]
pub struct TransferItemToWinner {
    pub item_account: Item,
    pub escrow_account: Escrow,
}

} // verus!
