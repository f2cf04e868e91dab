use cw20_bid::contract::{execute, instantiate, query, Auction};
use cw20_bid::error::ContractError;
use cw20_bid::msg::{ExecuteMsg, InstantiateMsg, QueryMsg, QueryResponse, ReceiveMsg, TokenReceipt};

fn setup() -> Auction {
    let msg = InstantiateMsg {
        token_addr: String::from("cw20 token"),
        reserve_price: 100,
        increment: 10,
        duration_in_blocks: 200,
    };
    let (auction, _res) = instantiate(String::from("creator"), 200_000, msg).unwrap();
    auction
}

fn receipt(sender: &str, amount: u128) -> ExecuteMsg {
    ExecuteMsg::Receive(TokenReceipt { sender: String::from(sender), amount, msg: ReceiveMsg::Buy })
}

#[test]
fn test_instantiate() {
    let token_addr = String::from("cw20 token");
    let reserve_price: u128 = 100;
    let increment: u128 = 10;
    let duration_in_blocks: u64 = 200;
    let msg = InstantiateMsg { token_addr, reserve_price, increment, duration_in_blocks };
    let (auction, res) = instantiate(String::from("creator"), 200_000, msg).unwrap();
    assert_eq!(res.attributes.len(), 6);

    let config = match query(&auction, QueryMsg::GetConfig).unwrap() {
        QueryResponse::Config(c) => c,
        r => panic!("unexpected response: {:?}", r),
    };
    assert_eq!(config.seller, "creator");
    assert_eq!(config.token_addr, "cw20 token");
    assert_eq!(config.reserve_price, reserve_price);
    assert_eq!(config.increment, increment);
    assert_eq!(config.timeout, 200_200);

    let bid_seq = match query(&auction, QueryMsg::GetBidSeq).unwrap() {
        QueryResponse::BidSeq(n) => n,
        r => panic!("unexpected response: {:?}", r),
    };
    assert_eq!(bid_seq, 0u64);
}

#[test]
fn test_bid() {
    let mut auction = setup();
    let height: u64 = 200_000;

    let err = execute(&mut auction, height, String::from("buyer"), ExecuteMsg::Bid { price: 80 }).unwrap_err();
    match err {
        ContractError::BidBelowReserve { .. } => {
            assert!(err.message().contains("Bid price lower than reserve price"))
        }
        e => panic!("unexpected error: {:?}", e),
    }

    let err = execute(&mut auction, height, String::from("buyer"), ExecuteMsg::Bid { price: 109 }).unwrap_err();
    match err {
        ContractError::IncrementTooLow { .. } => assert!(err.message().contains("Bid increment too low")),
        e => panic!("unexpected error: {:?}", e),
    }

    let bid_price: u128 = 110;
    let res = execute(&mut auction, height, String::from("buyer"), ExecuteMsg::Bid { price: bid_price }).unwrap();
    assert_eq!(res.attributes.len(), 4);

    let bid_seq = match query(&auction, QueryMsg::GetBidSeq).unwrap() {
        QueryResponse::BidSeq(n) => n,
        r => panic!("unexpected response: {:?}", r),
    };
    assert_eq!(bid_seq, 1u64);

    let bid_record = match query(&auction, QueryMsg::GetBidRecord { id: bid_seq }).unwrap() {
        QueryResponse::BidRecord(b) => b,
        r => panic!("unexpected response: {:?}", r),
    };
    assert_eq!(bid_record.buyer, "buyer");
    assert_eq!(bid_record.price, bid_price);

    let best_bid = match query(&auction, QueryMsg::GetBestBid).unwrap() {
        QueryResponse::BestBid(b) => b,
        r => panic!("unexpected response: {:?}", r),
    };
    assert_eq!(best_bid.id, 1);
    assert_eq!(best_bid.bid_record.buyer, "buyer");
    assert_eq!(best_bid.bid_record.price, bid_price);
    assert_eq!(best_bid.sold, false);

    let err = execute(&mut auction, height, String::from("buyer"), ExecuteMsg::Bid { price: bid_price }).unwrap_err();
    match err {
        ContractError::BidNotHighEnough { .. } => {
            assert!(err.message().contains("Bid price not greater than best price"))
        }
        e => panic!("unexpected error: {:?}", e),
    }

    let err = execute(&mut auction, 200_200, String::from("buyer"), ExecuteMsg::Bid { price: 130 }).unwrap_err();
    match err {
        ContractError::AuctionClosed => assert!(err.message().contains("Auction closed")),
        e => panic!("unexpected error: {:?}", e),
    }
}

#[test]
fn test_buy() {
    let mut auction = setup();
    let height: u64 = 200_000;
    execute(&mut auction, height, String::from("buyer"), ExecuteMsg::Bid { price: 110 }).unwrap();

    let err = execute(&mut auction, height, String::from("buyer"), receipt("buyer", 110)).unwrap_err();
    match err {
        ContractError::AuctionNotYetClosed => assert!(err.message().contains("Auction not yet closed")),
        e => panic!("unexpected error: {:?}", e),
    }

    let height: u64 = 200_300;
    let err = execute(&mut auction, height, String::from("anyone"), receipt("anyone", 110)).unwrap_err();
    match err {
        ContractError::Unauthorized => {}
        e => panic!("unexpected error: {:?}", e),
    }

    let err = execute(&mut auction, height, String::from("buyer"), receipt("buyer", 105)).unwrap_err();
    match err {
        ContractError::InsufficientPayment { .. } => {
            assert!(err.message().contains("Amount lower than bid price"))
        }
        e => panic!("unexpected error: {:?}", e),
    }

    let res = execute(&mut auction, height, String::from("buyer"), receipt("buyer", 110)).unwrap();
    assert_eq!(res.messages.len(), 1);
    assert_eq!(res.attributes.len(), 4);

    let best_bid = match query(&auction, QueryMsg::GetBestBid).unwrap() {
        QueryResponse::BestBid(b) => b,
        r => panic!("unexpected response: {:?}", r),
    };
    assert_eq!(best_bid.sold, true);

    let err = execute(&mut auction, height, String::from("buyer"), receipt("buyer", 110)).unwrap_err();
    match err {
        ContractError::AlreadySold => assert!(err.message().contains("Item already sold")),
        e => panic!("unexpected error: {:?}", e),
    }
}
