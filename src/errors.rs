use vstd::prelude::*;

verus! {

/// Every way an operation of the auction can be refused. A refused operation
/// changes no record and moves no funds.
#[derive(Clone, Copy, Debug, PartialEq, Eq, Structural)]
pub enum BiddingError {
    /// The presented previous bidder is not the stored highest bidder.
    InvalidPreviousBidder,
    /// The previous bidder's account cannot receive the refund.
    PreviousBidderNotWritable,
    /// The refund would leave the escrow below its reserve floor.
    EscrowNotRentExempt,
    /// Settlement was asked to hand the item to no one.
    InvalidNewAuthority,
    /// The seller recorded on the escrow is not the seller of the item.
    InvalidAuctionCreator,
    /// The sequence counter exists already.
    AlreadyInitialized,
    /// The sequence counter has not been created yet.
    CounterNotInitialized,
    /// Every 16-bit item identifier has been issued.
    ItemIdsExhausted,
    /// The item name is longer than its limit.
    NameTooLong,
    /// The item description is longer than its limit.
    DescriptionTooLong,
    /// The image reference is longer than its limit.
    ImageUrlTooLong,
    /// The record presented is not the item that the call names.
    ItemMismatch,
    /// The item has been settled and takes no more bids.
    AuctionAlreadySettled,
    /// The bidder cannot pay the required amount.
    InsufficientFunds,
    /// An amount would not fit in 64 bits.
    AmountOverflow,
}

} // verus!
