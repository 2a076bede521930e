use vstd::prelude::*;

verus! {

/// The identity of a party: a 32-byte public key, held as four 64-bit words.
#[derive(Clone, Copy, Debug, PartialEq, Eq, Structural)]
pub struct Identity {
    pub k0: u64,
    pub k1: u64,
    pub k2: u64,
    pub k3: u64,
}

/// The singleton sequence counter. `item_count` is the identifier that the
/// next item receives; zero means the counter has not been created.
#[derive(Clone, Copy, Debug, PartialEq, Eq, Structural)]
pub struct ItemCounter {
    pub authority: Identity,
    pub item_count: u16,
}

/// One auctioned item: listing metadata and the current high-bid state.
/// `authority` is the owning party: the seller until settlement, then the winner.
/// `highest_bidder` is `None` while no bid has been accepted.
#[derive(Clone, Debug)]
pub struct Item {
    pub authority: Identity,
    pub name: String,
    pub description: String,
    pub image_url: String,
    pub opening_price: u64,
    pub item_id: u16,
    pub highest_bid: u64,
    pub minimum_bid: u64,
    pub highest_bidder: Option<Identity>,
    pub settled: bool,
}

/// The escrow paired with one item: the seller it was created for, and the
/// funds it holds.
#[derive(Clone, Copy, Debug, PartialEq, Eq, Structural)]
pub struct Escrow {
    pub authority: Identity,
    pub lamports: u64,
}

/// A movement of funds out of an escrow, which the caller carries out.
#[derive(Clone, Copy, Debug, PartialEq, Eq, Structural)]
pub struct Payment {
    pub recipient: Identity,
    pub amount: u64,
}

/// What an accepted bid asks of the caller: the amount it moves from the
/// bidder into the escrow, and the refund it moves from the escrow to the
/// bidder it displaced.
#[derive(Clone, Copy, Debug, PartialEq, Eq, Structural)]
pub struct BidReceipt {
    pub amount: u64,
    pub refund: Option<Payment>,
}

impl Item {
    /// A high bid is never held without a bidder to refund.
    pub open spec fn bidder_recorded(self) -> bool {
        self.highest_bid > 0 ==> self.highest_bidder is Some
    }

    /// The escrow holds exactly the custodied amount: the high bid while the
    /// auction runs, nothing once it is settled.
    pub open spec fn custodies(self, escrow: Escrow) -> bool {
        escrow.lamports == (if self.settled { 0 } else { self.highest_bid })
    }
}

} // verus!
