use vstd::prelude::*;

verus! {

/// Parameters of one auction, fixed when it is created.
#[derive(Debug, PartialEq, Eq)]
pub struct Config {
    pub seller: String,
    pub token_addr: String,
    pub reserve_price: u128,
    pub increment: u128,
    /// Block height from which bidding is closed and settlement is open.
    pub timeout: u64,
}

impl Config {
    pub fn duplicate(&self) -> (r: Config)
        ensures
            r == *self,
    {
        Config {
            seller: self.seller.clone(),
            token_addr: self.token_addr.clone(),
            reserve_price: self.reserve_price,
            increment: self.increment,
            timeout: self.timeout,
        }
    }
}

/// One accepted bid.
#[derive(Debug, PartialEq, Eq)]
pub struct BidRecord {
    pub buyer: String,
    pub price: u128,
}

impl BidRecord {
    pub fn duplicate(&self) -> (r: BidRecord)
        ensures
            r == *self,
    {
        BidRecord { buyer: self.buyer.clone(), price: self.price }
    }
}

/// The current leading bid, with its sequence id and whether it was paid for.
#[derive(Debug, PartialEq, Eq)]
pub struct BestBid {
    pub id: u64,
    pub bid_record: BidRecord,
    pub sold: bool,
}

impl BestBid {
    pub fn duplicate(&self) -> (r: BestBid)
        ensures
            r == *self,
    {
        BestBid { id: self.id, bid_record: self.bid_record.duplicate(), sold: self.sold }
    }
}

} // verus!
