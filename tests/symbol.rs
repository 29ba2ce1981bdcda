use binance_core::signer::Side;
use binance_core::decimal::Dec;
use binance_core::symbol::{purchase_result, sale_result, size_trade, MarketDataError, Symbol, TradeError};

const TICKER: &str = r#"{"u":22277893334,"s":"ETHUSDT","b":"1268.53000000","B":"107.76630000","a":"1268.54000000","A":"3.89930000"}"#;

fn sample() -> Symbol {
    let mut s1 = Symbol::new("ETH", "USDT");
    s1.update(TICKER).unwrap();
    s1
}

#[test]
fn test_new() {
    let s1 = Symbol::new("BTC", "USDT");

    assert_eq!(s1.base, "BTC");
    assert_eq!(s1.quote, "USDT");

    // Prices start at 1 and quantities at -1: no market data yet.
    assert_eq!(s1.asking_price, "1.000000");
    assert_eq!(s1.asking_qty, "-1.000000");
    assert_eq!(s1.bid_price, "1.000000");
    assert_eq!(s1.bid_qty, "-1.000000");
}

#[test]
fn test_calculate_trade_base() {
    let s1 = sample();

    assert_eq!(s1.calculate_trade(Side::Base, "100").unwrap(), "126853.00000000");
    assert_eq!(s1.calculate_trade(Side::Base, "10").unwrap(), "12685.30000000");
    assert_eq!(s1.calculate_trade(Side::Base, "1").unwrap(), "1268.53000000");
    assert_eq!(s1.calculate_trade(Side::Base, "107.76630000").unwrap(), "136704.78453900");

    let e = s1.calculate_trade(Side::Base, "107.76640000");
    assert_eq!(e, Err(TradeError::InsufficientLiquidity(Side::Base)));
    assert_eq!(e.unwrap_err().message(), "Base_side Not enough qty to trade");

    let s2 = Symbol::new("ETH", "USDT");

    let e = s2.calculate_trade(Side::Base, "1");
    assert_eq!(e, Err(TradeError::InsufficientLiquidity(Side::Base)));
    assert_eq!(e.unwrap_err().message(), "Base_side Not enough qty to trade");
    let e = s2.calculate_trade(Side::Quote, "100");
    assert_eq!(e, Err(TradeError::InsufficientLiquidity(Side::Quote)));
    assert_eq!(e.unwrap_err().message(), "Not enough qty to trade");
}

#[test]
fn test_calculate_trade_quote() {
    let s1 = sample();

    assert_eq!(s1.calculate_trade(Side::Quote, "100").unwrap(), "0.07883078");
    assert_eq!(s1.calculate_trade(Side::Quote, "10").unwrap(), "0.00788307");
    assert_eq!(s1.calculate_trade(Side::Quote, "1").unwrap(), "0.00078830");
    assert_eq!(s1.calculate_trade(Side::Quote, "4946.418022").unwrap(), "3.8993");

    let e = s1.calculate_trade(Side::Quote, "4946.418023");
    assert_eq!(e, Err(TradeError::InsufficientLiquidity(Side::Quote)));
    assert_eq!(e.unwrap_err().message(), "Not enough qty to trade");
}

#[test]
fn test_update() {
    let s1 = sample();

    assert_eq!(s1.base, "ETH");
    assert_eq!(s1.quote, "USDT");

    assert_eq!(s1.bid_price, "1268.53000000");
    assert_eq!(s1.bid_qty, "107.76630000");
    assert_eq!(s1.asking_price, "1268.54000000");
    assert_eq!(s1.asking_qty, "3.89930000");
}

#[test]
fn update_refuses_missing_field_and_keeps_book() {
    let mut s1 = sample();
    let r = s1.update(r#"{"b":"1.0","B":"2.0","a":"3.0"}"#);
    assert_eq!(r, Err(MarketDataError::MalformedMarketData));
    assert_eq!(s1.bid_price, "1268.53000000");
    assert_eq!(s1.asking_qty, "3.89930000");
}

#[test]
fn update_refuses_member_that_is_not_a_decimal() {
    let mut s1 = sample();
    let r = s1.update(r#"{"b":"1.0","B":"2.0","a":"abc","A":"4.0"}"#);
    assert_eq!(r, Err(MarketDataError::MalformedMarketData));
    assert_eq!(s1.asking_price, "1268.54000000");
    assert_eq!(s1.bid_price, "1268.53000000");
    let r = s1.update(r#"{"b":"1.0","B":null,"a":"3.0","A":"4.0"}"#);
    assert_eq!(r, Err(MarketDataError::MalformedMarketData));
    assert_eq!(s1.bid_qty, "107.76630000");
}

#[test]
fn update_refuses_text_that_is_not_json() {
    let mut s1 = Symbol::new("ETH", "USDT");
    assert_eq!(s1.update("not json"), Err(MarketDataError::MalformedMarketData));
    assert_eq!(s1.bid_qty, "-1.000000");
}

#[test]
fn invalid_amount_is_refused() {
    let s1 = sample();
    assert_eq!(s1.calculate_trade(Side::Base, "abc"), Err(TradeError::InvalidAmount));
    assert_eq!(s1.calculate_trade(Side::Quote, ""), Err(TradeError::InvalidAmount));
}

#[test]
fn invalid_book_value_is_refused() {
    let mut s1 = Symbol::new("ETH", "USDT");
    let r = s1.update(r#"{"b":"x","B":"1","a":"1","A":"1"}"#);
    assert_eq!(r, Err(MarketDataError::MalformedMarketData));
    assert_eq!(s1.bid_price, "1.000000");
    assert_eq!(s1.calculate_trade(Side::Base, "1"), Err(TradeError::InsufficientLiquidity(Side::Base)));
}

#[test]
fn fresh_symbol_refuses_every_trade() {
    let s1 = Symbol::new("ETH", "USDT");
    for amount in ["0", "1", "0.5", "1000000"] {
        assert_eq!(s1.calculate_trade(Side::Base, amount), Err(TradeError::InsufficientLiquidity(Side::Base)));
        assert_eq!(s1.calculate_trade(Side::Quote, amount), Err(TradeError::InsufficientLiquidity(Side::Quote)));
    }
    assert_eq!(s1.calculate_trade(Side::Base, "-2"), Err(TradeError::InsufficientLiquidity(Side::Base)));
    assert_eq!(s1.calculate_trade(Side::Quote, "-2"), Err(TradeError::InsufficientLiquidity(Side::Quote)));
}

#[test]
fn zero_asking_price_is_unrepresentable() {
    let mut s1 = Symbol::new("ETH", "USDT");
    s1.update(r#"{"b":"1","B":"1","a":"0","A":"1"}"#).unwrap();
    assert_eq!(s1.calculate_trade(Side::Quote, "1"), Err(TradeError::Unrepresentable));
}

#[test]
fn sell_of_whole_bid_is_accepted() {
    let s1 = sample();
    assert!(s1.calculate_trade(Side::Base, "107.7663").is_ok());
}

#[test]
fn buy_of_whole_ask_is_accepted() {
    let mut s1 = Symbol::new("ETH", "USDT");
    s1.update(r#"{"b":"1","B":"1","a":"2","A":"5"}"#).unwrap();
    assert_eq!(s1.calculate_trade(Side::Quote, "10").unwrap(), "5");
    assert_eq!(
        s1.calculate_trade(Side::Quote, "10.00000001"),
        Err(TradeError::InsufficientLiquidity(Side::Quote))
    );
}

#[test]
fn proceeds_are_truncated_not_rounded() {
    let mut s1 = Symbol::new("ETH", "USDT");
    s1.update(r#"{"b":"0.999999999","B":"100","a":"1","A":"1"}"#).unwrap();
    assert_eq!(s1.calculate_trade(Side::Base, "1").unwrap(), "0.99999999");
}

#[test]
fn test_build_trade_json() {
    let s1 = sample();
    assert_eq!(
        s1.build_trade_json(Side::Base, "100", 1499827319559, "secret"),
        "symbol=ETHUSDT&side=SELL&type=MARKET&quantity=100&recvWindow=5000&timestamp=1499827319559\
         &signature=e7600331895d643840b9a55ae05d841afa15b40eb5d82a71a6f67e18cff289e5"
    );
    assert_eq!(
        s1.build_trade_json(Side::Quote, "100", 1499827319559, ""),
        "symbol=ETHUSDT&side=BUY&type=MARKET&quoteOrderQty=100&recvWindow=5000&timestamp=1499827319559\
         &signature=21af325d90f85e56b8e2ffa11623cef418b579fb0aa9766e0f4ec25e8860b514"
    );
}

#[test]
fn signing_is_deterministic() {
    let s1 = sample();
    let a = s1.build_trade_json(Side::Base, "1.5", 42, "k");
    let b = s1.build_trade_json(Side::Base, "1.5", 42, "k");
    assert_eq!(a, b);
}

#[test]
fn zero_quantity_accepts_zero_amount() {
    let mut s1 = Symbol::new("ETH", "USDT");
    s1.update(r#"{"b":"1","B":"0","a":"1","A":"0"}"#).unwrap();
    assert_eq!(s1.calculate_trade(Side::Base, "0").unwrap(), "0");
    assert!(s1.calculate_trade(Side::Quote, "0").is_ok());
    assert_eq!(s1.calculate_trade(Side::Base, "0.1"), Err(TradeError::InsufficientLiquidity(Side::Base)));
    assert_eq!(s1.calculate_trade(Side::Quote, "0.1"), Err(TradeError::InsufficientLiquidity(Side::Quote)));
}

#[test]
fn proceeds_beyond_bid_refused_for_negative_amount() {
    let mut s1 = Symbol::new("ETH", "USDT");
    s1.update(r#"{"b":"1","B":"-3","a":"1","A":"1"}"#).unwrap();
    assert_eq!(s1.calculate_trade(Side::Base, "-2"), Err(TradeError::InsufficientLiquidity(Side::Base)));
    s1.update(r#"{"b":"-1","B":"3","a":"1","A":"1"}"#).unwrap();
    assert_eq!(s1.calculate_trade(Side::Base, "-2"), Err(TradeError::InsufficientLiquidity(Side::Base)));
    s1.update(r#"{"b":"1","B":"3","a":"1","A":"1"}"#).unwrap();
    assert_eq!(s1.calculate_trade(Side::Base, "-2").unwrap(), "-2");
}

#[test]
fn purchase_at_exact_ask_cost_is_accepted() {
    let mut s1 = Symbol::new("ETH", "USDT");
    s1.update(r#"{"b":"1","B":"1","a":"3","A":"1"}"#).unwrap();
    assert_eq!(s1.calculate_trade(Side::Quote, "3").unwrap(), "1");
    assert_eq!(s1.calculate_trade(Side::Quote, "3.00000001"), Err(TradeError::InsufficientLiquidity(Side::Quote)));
    assert_eq!(s1.calculate_trade(Side::Quote, "1").unwrap(), "0.33333333");
}

#[test]
fn outcome_functions_on_computed_values() {
    let p = Dec { mantissa: 1999999999, scale: 9 };
    assert_eq!(sale_result(p, Dec { mantissa: 2, scale: 0 }), Ok(Dec { mantissa: 199999999, scale: 8 }));
    assert_eq!(sale_result(p, Dec { mantissa: 1, scale: 0 }), Err(TradeError::InsufficientLiquidity(Side::Base)));
    assert_eq!(purchase_result(true, Some(p)), Err(TradeError::InsufficientLiquidity(Side::Quote)));
    assert_eq!(purchase_result(false, Some(p)), Ok(Dec { mantissa: 199999999, scale: 8 }));
    assert_eq!(purchase_result(false, None), Err(TradeError::Unrepresentable));
}

#[test]
fn size_trade_on_decimals() {
    let price = Dec { mantissa: 126853, scale: 2 };
    let qty = Dec { mantissa: 10776630000, scale: 8 };
    assert_eq!(
        size_trade(Side::Base, Dec { mantissa: 100, scale: 0 }, price, qty),
        Ok(Dec { mantissa: 12685300, scale: 2 })
    );
    assert_eq!(size_trade(Side::Base, qty, price, qty).is_ok(), true);
    assert_eq!(
        size_trade(Side::Base, Dec { mantissa: 10776640000, scale: 8 }, price, qty),
        Err(TradeError::InsufficientLiquidity(Side::Base))
    );
}

#[test]
fn text_shows_every_fractional_digit() {
    let mut s1 = Symbol::new("ETH", "USDT");
    s1.update(r#"{"b":"0.001","B":"1000","a":"1","A":"1"}"#).unwrap();
    assert_eq!(s1.calculate_trade(Side::Base, "5").unwrap(), "0.005");
    assert_eq!(s1.calculate_trade(Side::Base, "0").unwrap(), "0");
}
