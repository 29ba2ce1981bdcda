use binance_core::signer::{build_signed_order, build_unsigned_order, sign, Side};

#[test]
fn sign_known_vector() {
    assert_eq!(
        sign("key", "The quick brown fox jumps over the lazy dog"),
        "f7bc83f430538424b13298e6aa6fb143ef4d59a14946175997479dbc2d1a3cd8"
    );
}

#[test]
fn unsigned_order_has_fixed_field_order() {
    assert_eq!(
        build_unsigned_order("BNB", "ETH", Side::Quote, "0.5", 0),
        "symbol=BNBETH&side=BUY&type=MARKET&quoteOrderQty=0.5&recvWindow=5000&timestamp=0"
    );
}

#[test]
fn signature_recomputes_from_prefix() {
    let signed = build_signed_order("ETH", "USDT", Side::Base, "3", 1700000000000, "s3cret");
    let (prefix, sig) = signed.split_once("&signature=").unwrap();
    assert_eq!(prefix, build_unsigned_order("ETH", "USDT", Side::Base, "3", 1700000000000));
    assert_eq!(sig, sign("s3cret", prefix));
    assert_eq!(sig.len(), 64);
    assert!(sig.chars().all(|c| c.is_ascii_digit() || ('a'..='f').contains(&c)));
}
