//! An escrow-backed ascending auction: a sequencer issues item identifiers,
//! each item carries its current high bid, and a paired escrow custodies the
//! funds of that bid until settlement releases them to the seller.
mod blueprints;
mod contexts;
mod errors;
pub mod bidding;
pub mod laws;

pub use blueprints::{BidReceipt, Escrow, Identity, Item, ItemCounter, Payment};
pub use contexts::{Bid, InitializeCounter, InitializeItem, TransferItemToWinner};
pub use errors::BiddingError;
