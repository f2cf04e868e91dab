use vstd::prelude::*;

use crate::state::{BestBid, Config};

verus! {

/// Parameters given when an auction is created.
#[derive(Debug, PartialEq, Eq)]
pub struct InstantiateMsg {
    pub token_addr: String,
    pub reserve_price: u128,
    pub increment: u128,
    pub duration_in_blocks: u64,
}

/// What a payment notification asks for.
#[derive(Clone, Copy, Debug, PartialEq, Eq)]
pub enum ReceiveMsg {
    Buy,
}

/// A payment notification from the token contract: who paid, how much, and why.
#[derive(Debug, PartialEq, Eq)]
pub struct TokenReceipt {
    pub sender: String,
    pub amount: u128,
    pub msg: ReceiveMsg,
}

/// The state-changing calls.
#[derive(Debug, PartialEq, Eq)]
pub enum ExecuteMsg {
    Bid { price: u128 },
    Receive(TokenReceipt),
}

/// The read-only calls.
#[derive(Clone, Copy, Debug, PartialEq, Eq)]
pub enum QueryMsg {
    GetConfig,
    GetBidSeq,
    GetBidRecord { id: u64 },
    GetBestBid,
}

/// One bid as returned by a query.
#[derive(Debug, PartialEq, Eq)]
pub struct BidResponse {
    pub buyer: String,
    pub price: u128,
}

/// The answer to a query.
#[derive(Debug, PartialEq, Eq)]
pub enum QueryResponse {
    Config(Config),
    BidSeq(u64),
    BidRecord(BidResponse),
    BestBid(BestBid),
}

/// A token transfer to be carried out once the call has been committed:
/// move `amount` of the token at `token_addr` from `owner` to `recipient`.
#[derive(Debug, PartialEq, Eq)]
pub struct Transfer {
    pub token_addr: String,
    pub owner: String,
    pub recipient: String,
    pub amount: u128,
}

/// The value of an event attribute.
#[derive(Debug, PartialEq, Eq)]
pub enum AttributeValue {
    Text(String),
    Uint(u128),
}

/// One key/value pair of the event that a successful call emits.
#[derive(Debug, PartialEq, Eq)]
pub struct Attribute {
    pub key: String,
    pub value: AttributeValue,
}

/// What a successful state-changing call hands back: the transfers to carry
/// out and the attributes of its event.
#[derive(Debug, PartialEq, Eq)]
pub struct Response {
    pub messages: Vec<Transfer>,
    pub attributes: Vec<Attribute>,
}

pub fn text_attribute(key: &str, value: String) -> (r: Attribute)
    ensures
        r.key@ == key@,
        r.value == AttributeValue::Text(value),
{
    Attribute { key: key.to_owned(), value: AttributeValue::Text(value) }
}

pub fn uint_attribute(key: &str, value: u128) -> (r: Attribute)
    ensures
        r.key@ == key@,
        r.value == AttributeValue::Uint(value),
{
    Attribute { key: key.to_owned(), value: AttributeValue::Uint(value) }
}

} // verus!
