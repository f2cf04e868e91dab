use vstd::prelude::*;

use crate::error::ContractError;
use crate::lemmas::lemma_accepted_bid_raises_price;
use crate::msg::{
    text_attribute, uint_attribute, Attribute, BidResponse, ExecuteMsg,
    InstantiateMsg, QueryMsg, QueryResponse, ReceiveMsg, Response, TokenReceipt, Transfer,
};
use crate::state::{BestBid, BidRecord, Config};

verus! {

/// The whole state of one auction: its configuration, the bid counter, every
/// accepted bid (the bid with id `i` at index `i - 1`) and the leading bid.
#[derive(Debug, PartialEq, Eq)]
pub struct Auction {
    pub config: Config,
    pub bid_seq: u64,
    pub bid_records: Vec<BidRecord>,
    pub best_bid: Option<BestBid>,
}

/// The records of a bid history have strictly increasing prices.
pub open spec fn prices_increasing(records: Seq<BidRecord>) -> bool {
    forall|i: int, j: int| 0 <= i < j < records.len() ==> records[i].price < records[j].price
}

impl Auction {
    /// The counter matches the history, the leading bid is the last one
    /// accepted, and prices only ever went up.
    pub open spec fn wf(&self) -> bool {
        &&& self.bid_records@.len() == self.bid_seq
        &&& (self.best_bid is None <==> self.bid_seq == 0)
        &&& (self.best_bid matches Some(b) ==> b.id == self.bid_seq && b.bid_record
            == self.bid_records@.last())
        &&& prices_increasing(self.bid_records@)
    }

    /// The price a new bid is measured against: the reserve before the first
    /// bid, the leading price after it.
    pub open spec fn reference_price(&self) -> u128 {
        match self.best_bid {
            None => self.config.reserve_price,
            Some(b) => b.bid_record.price,
        }
    }

    /// The error with which a bid of `price` at `block_height` is rejected,
    /// checked in this order; `None` where it is accepted.
    pub open spec fn bid_rejection(&self, block_height: u64, price: u128) -> Option<ContractError> {
        if block_height >= self.config.timeout {
            Some(ContractError::AuctionClosed)
        } else if price < self.config.reserve_price {
            Some(
                ContractError::BidBelowReserve {
                    price,
                    reserve_price: self.config.reserve_price,
                },
            )
        } else if self.best_bid is Some && price <= self.reference_price() {
            Some(ContractError::BidNotHighEnough { price, best_price: self.reference_price() })
        } else if price - self.reference_price() < self.config.increment {
            Some(
                ContractError::IncrementTooLow {
                    increment: (price - self.reference_price()) as u128,
                    minimum_increment: self.config.increment,
                },
            )
        } else if self.bid_seq == u64::MAX {
            Some(ContractError::ArithmeticOverflow)
        } else {
            None
        }
    }

    /// `post` is `self` after accepting a bid of `price` by `bidder`.
    pub open spec fn bid_accepted(&self, post: Auction, bidder: String, price: u128) -> bool {
        let rec = BidRecord { buyer: bidder, price };
        &&& post.config == self.config
        &&& post.bid_seq == self.bid_seq + 1
        &&& post.bid_records@ == self.bid_records@.push(rec)
        &&& post.best_bid == Some(BestBid { id: post.bid_seq, bid_record: rec, sold: false })
    }

    /// The error with which a payment of `amount` by `buyer` is rejected once
    /// bidding has closed, checked in this order; `None` where it settles.
    pub open spec fn purchase_rejection(&self, buyer: String, amount: u128) -> Option<ContractError> {
        match self.best_bid {
            None => Some(ContractError::NothingToSettle),
            Some(b) => if b.sold {
                Some(ContractError::AlreadySold)
            } else if buyer@ != b.bid_record.buyer@ {
                Some(ContractError::Unauthorized)
            } else if amount < b.bid_record.price {
                Some(ContractError::InsufficientPayment { amount, price: b.bid_record.price })
            } else {
                None
            },
        }
    }

    /// The error with which a payment at `block_height` is rejected; `None`
    /// where it settles the auction.
    pub open spec fn settle_rejection(&self, block_height: u64, buyer: String, amount: u128) -> Option<
        ContractError,
    > {
        if block_height < self.config.timeout {
            Some(ContractError::AuctionNotYetClosed)
        } else {
            self.purchase_rejection(buyer, amount)
        }
    }

    /// `post` is `self` with its leading bid marked as sold.
    pub open spec fn sold(&self, post: Auction) -> bool {
        &&& post.config == self.config
        &&& post.bid_seq == self.bid_seq
        &&& post.bid_records@ == self.bid_records@
        &&& post.best_bid matches Some(nb) && self.best_bid matches Some(b) && nb == BestBid {
            sold: true,
            ..b
        }
    }

    /// The one transfer that settling with a payment of `amount` by `buyer` issues.
    pub open spec fn settlement_transfer(&self, buyer: String, amount: u128) -> Transfer {
        Transfer {
            token_addr: self.config.token_addr,
            owner: buyer,
            recipient: self.config.seller,
            amount,
        }
    }
    /// The error with which `execute` rejects `msg` from `sender`; `None`
    /// where it is applied.
    pub open spec fn execute_rejection(&self, block_height: u64, msg: ExecuteMsg) -> Option<
        ContractError,
    > {
        match msg {
            ExecuteMsg::Bid { price } => self.bid_rejection(block_height, price),
            ExecuteMsg::Receive(receipt) => self.settle_rejection(
                block_height,
                receipt.sender,
                receipt.amount,
            ),
        }
    }

    /// `post` and `res` are what applying `msg` from `sender` to `self` gives.
    pub open spec fn executed(&self, post: Auction, sender: String, msg: ExecuteMsg, res: Response) -> bool {
        match msg {
            ExecuteMsg::Bid { price } => self.bid_accepted(post, sender, price)
                && res.messages@.len() == 0,
            ExecuteMsg::Receive(receipt) => self.sold(post) && res.messages@ == seq![
                self.settlement_transfer(receipt.sender, receipt.amount),
            ],
        }
    }

    /// What a query for bid `id` answers.
    pub open spec fn bid_query_result(&self, id: u64) -> Result<BidResponse, ContractError> {
        if 1 <= id <= self.bid_seq {
            let rec = self.bid_records@[id - 1];
            Ok(BidResponse { buyer: rec.buyer, price: rec.price })
        } else {
            Err(ContractError::NotFound)
        }
    }

    /// What `msg` answers.
    pub open spec fn query_result(&self, msg: QueryMsg) -> Result<QueryResponse, ContractError> {
        match msg {
            QueryMsg::GetConfig => Ok(QueryResponse::Config(self.config)),
            QueryMsg::GetBidSeq => Ok(QueryResponse::BidSeq(self.bid_seq)),
            QueryMsg::GetBidRecord { id } => match self.bid_query_result(id) {
                Ok(b) => Ok(QueryResponse::BidRecord(b)),
                Err(e) => Err(e),
            },
            QueryMsg::GetBestBid => match self.best_bid {
                Some(b) => Ok(QueryResponse::BestBid(b)),
                None => Err(ContractError::NotFound),
            },
        }
    }
}

/// Pays for the item: `buyer` pays `amount` for the leading bid. Bidding is
/// taken to be closed.
pub fn receive_buy(auction: &mut Auction, amount: u128, buyer: String) -> (r: Result<
    Response,
    ContractError,
>)
    requires
        old(auction).wf(),
    ensures
        final(auction).wf(),
        r is Ok <==> old(auction).purchase_rejection(buyer, amount) is None,
        r matches Err(e) ==> Some(e) == old(auction).purchase_rejection(buyer, amount)
            && *final(auction) == *old(auction),
        r matches Ok(res) ==> old(auction).sold(*final(auction)) && res.messages@ == seq![
            old(auction).settlement_transfer(buyer, amount),
        ] && res.attributes@.len() == 4,
{
    let id = match &mut auction.best_bid {
        None => return Err(ContractError::NothingToSettle),
        Some(best) => {
            if best.sold {
                return Err(ContractError::AlreadySold);
            }
            if buyer != best.bid_record.buyer {
                return Err(ContractError::Unauthorized);
            }
            if amount < best.bid_record.price {
                return Err(
                    ContractError::InsufficientPayment { amount, price: best.bid_record.price },
                );
            }
            best.sold = true;
            best.id
        },
    };
    let transfer = Transfer {
        token_addr: auction.config.token_addr.clone(),
        owner: buyer.clone(),
        recipient: auction.config.seller.clone(),
        amount,
    };
    let mut messages: Vec<Transfer> = Vec::new();
    messages.push(transfer);
    let mut attributes: Vec<Attribute> = Vec::new();
    attributes.push(text_attribute("action", "receive_buy".to_owned()));
    attributes.push(uint_attribute("id", id as u128));
    attributes.push(text_attribute("buyer", buyer));
    attributes.push(uint_attribute("amount", amount));
    Ok(Response { messages, attributes })
}

/// Handles a payment notification received at `block_height`.
pub fn execute_receive(auction: &mut Auction, block_height: u64, receipt: TokenReceipt) -> (r:
    Result<Response, ContractError>)
    requires
        old(auction).wf(),
    ensures
        final(auction).wf(),
        r is Ok <==> old(auction).settle_rejection(block_height, receipt.sender, receipt.amount)
            is None,
        r matches Err(e) ==> Some(e) == old(auction).settle_rejection(
            block_height,
            receipt.sender,
            receipt.amount,
        ) && *final(auction) == *old(auction),
        r matches Ok(res) ==> old(auction).sold(*final(auction)) && res.messages@ == seq![
            old(auction).settlement_transfer(receipt.sender, receipt.amount),
        ] && res.attributes@.len() == 4,
{
    if block_height < auction.config.timeout {
        return Err(ContractError::AuctionNotYetClosed);
    }
    match receipt.msg {
        ReceiveMsg::Buy => receive_buy(auction, receipt.amount, receipt.sender),
    }
}

/// Places a bid of `price` by `sender` at `block_height`.
pub fn execute_bid(auction: &mut Auction, block_height: u64, sender: String, price: u128) -> (r:
    Result<Response, ContractError>)
    requires
        old(auction).wf(),
    ensures
        final(auction).wf(),
        r is Ok <==> old(auction).bid_rejection(block_height, price) is None,
        r matches Err(e) ==> Some(e) == old(auction).bid_rejection(block_height, price)
            && *final(auction) == *old(auction),
        r matches Ok(res) ==> old(auction).bid_accepted(*final(auction), sender, price)
            && res.messages@.len() == 0 && res.attributes@.len() == 4,
{
    if block_height >= auction.config.timeout {
        return Err(ContractError::AuctionClosed);
    }
    if price < auction.config.reserve_price {
        return Err(
            ContractError::BidBelowReserve { price, reserve_price: auction.config.reserve_price },
        );
    }
    let best_price = match &auction.best_bid {
        None => auction.config.reserve_price,
        Some(best) => {
            if price <= best.bid_record.price {
                return Err(
                    ContractError::BidNotHighEnough { price, best_price: best.bid_record.price },
                );
            }
            best.bid_record.price
        },
    };
    let increment = price - best_price;
    if increment < auction.config.increment {
        return Err(
            ContractError::IncrementTooLow {
                increment,
                minimum_increment: auction.config.increment,
            },
        );
    }
    let next_id = match auction.bid_seq.checked_add(1) {
        Some(n) => n,
        None => return Err(ContractError::ArithmeticOverflow),
    };
    let ghost pre = *auction;
    auction.bid_seq = next_id;
    auction.bid_records.push(BidRecord { buyer: sender.clone(), price });
    auction.best_bid = Some(
        BestBid { id: next_id, bid_record: BidRecord { buyer: sender.clone(), price }, sold: false },
    );
    proof {
        lemma_accepted_bid_raises_price(pre, *auction, sender, block_height, price);
    }
    let mut attributes: Vec<Attribute> = Vec::new();
    attributes.push(text_attribute("action", "execute_bid".to_owned()));
    attributes.push(uint_attribute("id", next_id as u128));
    attributes.push(text_attribute("buyer", sender));
    attributes.push(uint_attribute("price", price));
    Ok(Response { messages: Vec::new(), attributes })
}

/// Creates an auction for `seller` at `block_height`: bidding stays open for
/// `msg.duration_in_blocks` blocks.
pub fn instantiate(seller: String, block_height: u64, msg: InstantiateMsg) -> (r: Result<
    (Auction, Response),
    ContractError,
>)
    ensures
        r is Ok <==> block_height + msg.duration_in_blocks <= u64::MAX,
        r matches Err(e) ==> e == ContractError::ArithmeticOverflow,
        r matches Ok((a, res)) ==> {
            &&& a.wf()
            &&& a.config == (Config {
                seller,
                token_addr: msg.token_addr,
                reserve_price: msg.reserve_price,
                increment: msg.increment,
                timeout: (block_height + msg.duration_in_blocks) as u64,
            })
            &&& a.bid_seq == 0
            &&& a.best_bid is None
            &&& res.messages@.len() == 0
            &&& res.attributes@.len() == 6
        },
{
    let timeout = match block_height.checked_add(msg.duration_in_blocks) {
        Some(t) => t,
        None => return Err(ContractError::ArithmeticOverflow),
    };
    let mut attributes: Vec<Attribute> = Vec::new();
    attributes.push(text_attribute("action", "instantiate".to_owned()));
    attributes.push(text_attribute("seller", seller.clone()));
    attributes.push(text_attribute("token_addr", msg.token_addr.clone()));
    attributes.push(uint_attribute("reserve_price", msg.reserve_price));
    attributes.push(uint_attribute("increment", msg.increment));
    attributes.push(uint_attribute("timeout", timeout as u128));
    let config = Config {
        seller,
        token_addr: msg.token_addr,
        reserve_price: msg.reserve_price,
        increment: msg.increment,
        timeout,
    };
    let auction = Auction { config, bid_seq: 0, bid_records: Vec::new(), best_bid: None };
    Ok((auction, Response { messages: Vec::new(), attributes }))
}

/// Applies a state-changing call from `sender` at `block_height`.
pub fn execute(auction: &mut Auction, block_height: u64, sender: String, msg: ExecuteMsg) -> (r:
    Result<Response, ContractError>)
    requires
        old(auction).wf(),
    ensures
        final(auction).wf(),
        r is Ok <==> old(auction).execute_rejection(block_height, msg) is None,
        r matches Err(e) ==> Some(e) == old(auction).execute_rejection(block_height, msg)
            && *final(auction) == *old(auction),
        r matches Ok(res) ==> old(auction).executed(*final(auction), sender, msg, res),
{
    match msg {
        ExecuteMsg::Bid { price } => execute_bid(auction, block_height, sender, price),
        ExecuteMsg::Receive(receipt) => execute_receive(auction, block_height, receipt),
    }
}

/// Answers a read-only query.
pub fn query(auction: &Auction, msg: QueryMsg) -> (r: Result<QueryResponse, ContractError>)
    requires
        auction.wf(),
    ensures
        r == auction.query_result(msg),
{
    match msg {
        QueryMsg::GetConfig => Ok(QueryResponse::Config(auction.config.duplicate())),
        QueryMsg::GetBidSeq => Ok(QueryResponse::BidSeq(auction.bid_seq)),
        QueryMsg::GetBidRecord { id } => match query_bid(auction, id) {
            Ok(b) => Ok(QueryResponse::BidRecord(b)),
            Err(e) => Err(e),
        },
        QueryMsg::GetBestBid => match &auction.best_bid {
            Some(b) => Ok(QueryResponse::BestBid(b.duplicate())),
            None => Err(ContractError::NotFound),
        },
    }
}

/// The bid with sequence id `id`.
pub fn query_bid(auction: &Auction, id: u64) -> (r: Result<BidResponse, ContractError>)
    requires
        auction.wf(),
    ensures
        r == auction.bid_query_result(id),
{
    if id == 0 || id > auction.bid_seq {
        return Err(ContractError::NotFound);
    }
    let len = auction.bid_records.len();
    assert((id - 1) < len);
    let rec = &auction.bid_records[(id - 1) as usize];
    Ok(BidResponse { buyer: rec.buyer.clone(), price: rec.price })
}

} // verus!
