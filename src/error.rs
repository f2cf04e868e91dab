use vstd::prelude::*;

verus! {

/// Why a call was rejected. A rejected call leaves the auction unchanged.
#[derive(Debug, PartialEq, Eq)]
pub enum ContractError {
    ArithmeticOverflow,
    AuctionClosed,
    BidBelowReserve { price: u128, reserve_price: u128 },
    BidNotHighEnough { price: u128, best_price: u128 },
    IncrementTooLow { increment: u128, minimum_increment: u128 },
    AuctionNotYetClosed,
    NothingToSettle,
    AlreadySold,
    Unauthorized,
    InsufficientPayment { amount: u128, price: u128 },
    NotFound,
}

impl ContractError {
    /// The text that describes each kind of rejection.
    pub open spec fn message_text(&self) -> Seq<char> {
        match self {
            ContractError::ArithmeticOverflow => "Arithmetic overflow"@,
            ContractError::AuctionClosed => "Auction closed"@,
            ContractError::BidBelowReserve { .. } => "Bid price lower than reserve price"@,
            ContractError::BidNotHighEnough { .. } => "Bid price not greater than best price"@,
            ContractError::IncrementTooLow { .. } => "Bid increment too low"@,
            ContractError::AuctionNotYetClosed => "Auction not yet closed"@,
            ContractError::NothingToSettle => "No bid to settle"@,
            ContractError::AlreadySold => "Item already sold"@,
            ContractError::Unauthorized => "Unauthorized"@,
            ContractError::InsufficientPayment { .. } => "Amount lower than bid price"@,
            ContractError::NotFound => "Not found"@,
        }
    }

    /// A short human-readable description of the rejection.
    pub fn message(&self) -> (r: String)
        ensures
            r@ == self.message_text(),
    {
        match self {
            ContractError::ArithmeticOverflow => "Arithmetic overflow".to_owned(),
            ContractError::AuctionClosed => "Auction closed".to_owned(),
            ContractError::BidBelowReserve { .. } => "Bid price lower than reserve price".to_owned(),
            ContractError::BidNotHighEnough { .. } => "Bid price not greater than best price".to_owned(),
            ContractError::IncrementTooLow { .. } => "Bid increment too low".to_owned(),
            ContractError::AuctionNotYetClosed => "Auction not yet closed".to_owned(),
            ContractError::NothingToSettle => "No bid to settle".to_owned(),
            ContractError::AlreadySold => "Item already sold".to_owned(),
            ContractError::Unauthorized => "Unauthorized".to_owned(),
            ContractError::InsufficientPayment { .. } => "Amount lower than bid price".to_owned(),
            ContractError::NotFound => "Not found".to_owned(),
        }
    }
}

} // verus!
