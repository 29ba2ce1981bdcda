//! The best bid and ask of one trading pair, and trade sizing against them.

use vstd::prelude::*;
use vstd::string::*;
use crate::decimal::{
    checked_product, checked_quotient, dec_text, decimal_text, greater_than, parse_decimal, parsed,
    exact_product, lemma_pow10_positive, pow10, product, product_is_exact, quotient, truncate,
    truncated, value_gt, value_le, Dec, TRADE_DECIMALS,
};
use crate::json::{json_string_member, string_member};
use crate::signer::{build_signed_order, is_lower_hex, signature, signed_order, unsigned_order};
pub use crate::signer::Side;

verus! {

/// Why a trade could not be sized.
#[derive(Clone, Copy, Debug, PartialEq, Eq, Structural)]
pub enum TradeError {
    /// The amount or a book value is not a decimal number.
    InvalidAmount,
    /// The book on the given side cannot absorb the trade.
    InsufficientLiquidity(Side),
    /// The result cannot be held as a decimal (overflow, or a zero asking price).
    Unrepresentable,
}

impl TradeError {
    /// A short human-readable description.
    pub fn message(&self) -> (r: &'static str)
        ensures
            r@ == match *self {
                TradeError::InvalidAmount => "Invalid amount"@,
                TradeError::InsufficientLiquidity(Side::Base) => "Base_side Not enough qty to trade"@,
                TradeError::InsufficientLiquidity(Side::Quote) => "Not enough qty to trade"@,
                TradeError::Unrepresentable => "Result out of decimal range"@,
            },
    {
        match self {
            TradeError::InvalidAmount => "Invalid amount",
            TradeError::InsufficientLiquidity(Side::Base) => "Base_side Not enough qty to trade",
            TradeError::InsufficientLiquidity(Side::Quote) => "Not enough qty to trade",
            TradeError::Unrepresentable => "Result out of decimal range",
        }
    }
}

/// Why a ticker message was refused.
#[derive(Clone, Copy, Debug, PartialEq, Eq, Structural)]
pub enum MarketDataError {
    /// A best bid or ask field is missing or is not a string.
    MalformedMarketData,
}

/// The result of a trade of `amount` against a book side quoted at `price`
/// with `qty` available. A negative quantity marks a side with no market
/// data, which absorbs nothing.
pub open spec fn sized(side: Side, amount: Dec, price: Dec, qty: Dec) -> Result<Dec, TradeError> {
    if qty.mantissa < 0 {
        Err(TradeError::InsufficientLiquidity(side))
    } else {
        match side {
            Side::Base => match (product(amount, price), product(price, qty)) {
                (Some(proceeds), Some(available)) => sale(proceeds, available),
                _ => Err(TradeError::Unrepresentable),
            },
            Side::Quote => if price.mantissa == 0 {
                Err(TradeError::Unrepresentable)
            } else {
                match product(price, qty) {
                    Some(cost) => purchase(exceeds_cost(amount, price, cost), quotient(amount, price)),
                    None => Err(TradeError::Unrepresentable),
                }
            },
        }
    }
}

/// A sale with these proceeds into a bid worth `available`: refused when the
/// proceeds exceed it, else the proceeds cut to eight fractional digits.
pub open spec fn sale(proceeds: Dec, available: Dec) -> Result<Dec, TradeError> {
    if value_gt(proceeds, available) {
        Err(TradeError::InsufficientLiquidity(Side::Base))
    } else {
        Ok(truncated(proceeds))
    }
}

/// `amount ÷ price` exceeds the quantity whose cost at `price` is `cost`.
/// For a positive price that is `amount > cost`; for a negative one the
/// inequality turns round.
pub open spec fn exceeds_cost(amount: Dec, price: Dec, cost: Dec) -> bool {
    if price.mantissa > 0 {
        value_gt(amount, cost)
    } else {
        value_gt(cost, amount)
    }
}

/// A purchase, refused when it `exceeds` the ask, else the base `bought`
/// cut to eight fractional digits.
pub open spec fn purchase(exceeds: bool, bought: Option<Dec>) -> Result<Dec, TradeError> {
    if exceeds {
        Err(TradeError::InsufficientLiquidity(Side::Quote))
    } else {
        match bought {
            Some(b) => Ok(truncated(b)),
            None => Err(TradeError::Unrepresentable),
        }
    }
}

/// `sized` on decimal texts, with the result written out.
pub open spec fn sized_text(side: Side, amount: Seq<char>, price: Seq<char>, qty: Seq<char>) -> Result<
    Seq<char>,
    TradeError,
> {
    match (parsed(amount), parsed(price), parsed(qty)) {
        (Some(a), Some(p), Some(q)) => match sized(side, a, p, q) {
            Ok(d) => Ok(dec_text(d)),
            Err(e) => Err(e),
        },
        _ => Err(TradeError::InvalidAmount),
    }
}


/// The outcome of a sale whose proceeds and whose bid's worth are computed.
pub fn sale_result(proceeds: Dec, available: Dec) -> (r: Result<Dec, TradeError>)
    requires
        proceeds.wf(),
        available.wf(),
    ensures
        r == sale(proceeds, available),
        r matches Ok(d) ==> d.wf(),
{
    if greater_than(proceeds, available) {
        Err(TradeError::InsufficientLiquidity(Side::Base))
    } else {
        Ok(truncate(proceeds, TRADE_DECIMALS))
    }
}

/// The outcome of a purchase, given whether it exceeds the ask and the
/// quotient `amount ÷ price` as computed.
pub fn purchase_result(exceeds: bool, bought: Option<Dec>) -> (r: Result<Dec, TradeError>)
    requires
        bought matches Some(b) ==> b.wf(),
    ensures
        r == purchase(exceeds, bought),
        r matches Ok(d) ==> d.wf(),
{
    if exceeds {
        return Err(TradeError::InsufficientLiquidity(Side::Quote));
    }
    match bought {
        Some(b) => Ok(truncate(b, TRADE_DECIMALS)),
        None => Err(TradeError::Unrepresentable),
    }
}

/// Sizes a trade of `amount` against a book side quoted at `price` with `qty`
/// available.
///
/// A side with a negative quantity (no market data yet) absorbs nothing.
/// Selling base (`Side::Base`) yields `amount × price`, refused when that
/// exceeds `price × qty`. Buying base (`Side::Quote`) yields `amount ÷ price`,
/// refused when that exceeds `qty`, which is decided exactly by comparing
/// `amount` with `price × qty`. The result is cut to eight fractional digits
/// toward zero.
pub fn size_trade(side: Side, amount: Dec, price: Dec, qty: Dec) -> (r: Result<Dec, TradeError>)
    requires
        amount.wf(),
        price.wf(),
        qty.wf(),
    ensures
        r == sized(side, amount, price, qty),
        r matches Ok(d) ==> d.wf(),
{
    if qty.mantissa < 0 {
        return Err(TradeError::InsufficientLiquidity(side));
    }
    match side {
        Side::Base => match (checked_product(amount, price), checked_product(price, qty)) {
            (Some(proceeds), Some(available)) => sale_result(proceeds, available),
            _ => Err(TradeError::Unrepresentable),
        },
        Side::Quote => {
            if price.mantissa == 0 {
                return Err(TradeError::Unrepresentable);
            }
            match checked_product(price, qty) {
                Some(cost) => {
                    let exceeds = if price.mantissa > 0 {
                        greater_than(amount, cost)
                    } else {
                        greater_than(cost, amount)
                    };
                    purchase_result(exceeds, checked_quotient(amount, price))
                },
                None => Err(TradeError::Unrepresentable),
            }
        },
    }
}

proof fn lemma_pow10_add(x: nat, y: nat)
    ensures
        pow10(x + y) == pow10(x) * pow10(y),
    decreases x,
{
    if x > 0 {
        lemma_pow10_add((x - 1) as nat, y);
        assert(pow10(x + y) == 10 * pow10((x - 1 + y) as nat));
        assert(10 * (pow10((x - 1) as nat) * pow10(y)) == (10 * pow10((x - 1) as nat)) * pow10(y))
            by (nonlinear_arith);
    }
}

/// Selling at most the bid quantity into a bid with market data at a
/// non-negative price succeeds, and
/// yields the proceeds `amount × price` cut to eight fractional digits.
pub proof fn lemma_sell_within_bid_succeeds(amount: Dec, price: Dec, qty: Dec)
    requires
        amount.wf(),
        price.wf(),
        qty.wf(),
        qty.mantissa >= 0,
        price.mantissa >= 0,
        value_le(amount, qty),
        product_is_exact(amount, price),
        product_is_exact(price, qty),
    ensures
        sized(Side::Base, amount, price, qty) == Ok::<Dec, TradeError>(
            truncated(exact_product(amount, price)),
        ),
{
    let a = amount.mantissa as int;
    let p = price.mantissa as int;
    let q = qty.mantissa as int;
    let pa = pow10(amount.scale as nat);
    let pp = pow10(price.scale as nat);
    let pq = pow10(qty.scale as nat);
    lemma_pow10_positive(amount.scale as nat);
    lemma_pow10_positive(price.scale as nat);
    lemma_pow10_positive(qty.scale as nat);
    lemma_pow10_positive(0);
    let r = exact_product(amount, price);
    let t = exact_product(price, qty);
    assert(a * pq <= q * pa);
    if a * p == 0 {
        if p * q != 0 {
            assert(p != 0) by (nonlinear_arith)
                requires p * q != 0;
            assert(a == 0) by (nonlinear_arith)
                requires a * p == 0, p > 0;
            assert(q >= 0) by (nonlinear_arith)
                requires a == 0, a * pq <= q * pa, pa > 0;
            assert(p * q >= 0) by (nonlinear_arith)
                requires p > 0, q >= 0;
            lemma_pow10_positive(t.scale as nat);
        }
        assert(r.mantissa == 0 && r.scale == 0);
        assert(t.mantissa >= 0);
        assert(pow10(0) == 1);
        assert(r.mantissa * pow10(t.scale as nat) == 0);
        assert(t.mantissa * pow10(r.scale as nat) == t.mantissa);
        assert(!value_gt(r, t));
    } else if p * q == 0 {
        assert(p != 0) by (nonlinear_arith)
            requires a * p != 0;
        assert(q == 0) by (nonlinear_arith)
            requires p * q == 0, p > 0;
        assert(a <= 0) by (nonlinear_arith)
            requires a * pq <= q * pa, q == 0, pq > 0;
        assert(a * p <= 0) by (nonlinear_arith)
            requires a <= 0, p > 0;
        lemma_pow10_positive(r.scale as nat);
        assert(t.mantissa == 0 && t.scale == 0);
        assert(r.mantissa == a * p);
        assert(pow10(0) == 1);
        assert(t.mantissa * pow10(r.scale as nat) == 0);
        assert(r.mantissa * pow10(t.scale as nat) == r.mantissa);
        assert(!value_gt(r, t));
    } else {
        lemma_pow10_add(price.scale as nat, qty.scale as nat);
        lemma_pow10_add(amount.scale as nat, price.scale as nat);
        assert(pow10((price.scale + qty.scale) as nat) == pp * pq);
        assert(pow10((amount.scale + price.scale) as nat) == pa * pp);
        assert((a * p) * (pp * pq) <= (p * q) * (pa * pp)) by (nonlinear_arith)
            requires a * pq <= q * pa, p >= 0, pp > 0;
        assert(!value_gt(r, t));
    }
}

/// Selling for more than the whole bid is worth is refused for want of liquidity.
pub proof fn lemma_sell_beyond_bid_refused(amount: Dec, price: Dec, qty: Dec)
    requires
        amount.wf(),
        price.wf(),
        qty.wf(),
        product_is_exact(amount, price),
        product_is_exact(price, qty),
        value_gt(exact_product(amount, price), exact_product(price, qty)),
    ensures
        sized(Side::Base, amount, price, qty) == Err::<Dec, TradeError>(
            TradeError::InsufficientLiquidity(Side::Base),
        ),
{
}

/// A book side with a negative quantity, as before any market data, refuses
/// every trade for want of liquidity.
pub proof fn lemma_empty_book_refuses(side: Side, amount: Dec, price: Dec, qty: Dec)
    requires
        qty.mantissa < 0,
    ensures
        sized(side, amount, price, qty) == Err::<Dec, TradeError>(TradeError::InsufficientLiquidity(side)),
{
}

/// Selling exactly the bid quantity is accepted.
pub proof fn lemma_sell_whole_bid_accepted(price: Dec, qty: Dec)
    requires
        price.wf(),
        qty.wf(),
        qty.mantissa >= 0,
        price.mantissa >= 0,
        product_is_exact(qty, price),
        product_is_exact(price, qty),
    ensures
        sized(Side::Base, qty, price, qty) is Ok,
{
    lemma_sell_within_bid_succeeds(qty, price, qty);
}

/// The ask price, ask quantity, bid price and bid quantity of a ticker
/// message, when all four are string members holding decimal numbers.
pub open spec fn ticker_fields(t: Seq<char>) -> Option<(Seq<char>, Seq<char>, Seq<char>, Seq<char>)> {
    match (string_member(t, "a"@), string_member(t, "A"@), string_member(t, "b"@), string_member(t, "B"@)) {
        (Some(ap), Some(aq), Some(bp), Some(bq)) => if parsed(ap) is Some && parsed(aq) is Some
            && parsed(bp) is Some && parsed(bq) is Some {
            Some((ap, aq, bp, bq))
        } else {
            None
        },
        _ => None,
    }
}

/// Buying with more than the ask's whole quantity costs, at a positive
/// price, is refused for want of liquidity.
pub proof fn lemma_buy_beyond_ask_refused(amount: Dec, price: Dec, qty: Dec)
    requires
        qty.mantissa >= 0,
        price.mantissa > 0,
        product_is_exact(price, qty),
        value_gt(amount, exact_product(price, qty)),
    ensures
        sized(Side::Quote, amount, price, qty) == Err::<Dec, TradeError>(
            TradeError::InsufficientLiquidity(Side::Quote),
        ),
{
}

/// Buying with at most what the ask's whole quantity costs, at a positive
/// price, is not refused for liquidity: it yields the quotient
/// `amount ÷ price` cut to eight fractional digits.
pub proof fn lemma_buy_within_ask(amount: Dec, price: Dec, qty: Dec)
    requires
        qty.mantissa >= 0,
        price.mantissa > 0,
        product_is_exact(price, qty),
        value_le(amount, exact_product(price, qty)),
    ensures
        sized(Side::Quote, amount, price, qty) == match quotient(amount, price) {
            Some(b) => Ok::<Dec, TradeError>(truncated(b)),
            None => Err(TradeError::Unrepresentable),
        },
{
}

/// A trading pair with its latest best bid and ask, as decimal texts.
pub struct Symbol {
    /// The base asset of the pair.
    pub base: String,
    /// The quote asset of the pair.
    pub quote: String,
    /// The lowest asking price.
    pub asking_price: String,
    /// The quantity of base offered at the asking price.
    pub asking_qty: String,
    /// The highest bid price.
    pub bid_price: String,
    /// The quantity of base bid for at the bid price.
    pub bid_qty: String,
}

impl Symbol {
    /// The book side that a trade from `side` meets: its price and quantity.
    pub open spec fn book(&self, side: Side) -> (Seq<char>, Seq<char>) {
        match side {
            Side::Base => (self.bid_price@, self.bid_qty@),
            Side::Quote => (self.asking_price@, self.asking_qty@),
        }
    }

    /// A pair with no market data yet: prices 1 and quantities -1, so that
    /// every trade is refused until the first update.
    pub fn new(base: &str, quote: &str) -> (r: Self)
        ensures
            r.base@ == base@,
            r.quote@ == quote@,
            r.asking_price@ == "1.000000"@,
            r.asking_qty@ == "-1.000000"@,
            r.bid_price@ == "1.000000"@,
            r.bid_qty@ == "-1.000000"@,
    {
        Symbol {
            base: String::from_str(base),
            quote: String::from_str(quote),
            asking_price: String::from_str("1.000000"),
            asking_qty: String::from_str("-1.000000"),
            bid_price: String::from_str("1.000000"),
            bid_qty: String::from_str("-1.000000"),
        }
    }

    /// Sizes a trade of `amount` of the `owned_asset` against the current
    /// book, and writes the result with eight fractional digits at most.
    pub fn calculate_trade(&self, owned_asset: Side, amount: &str) -> (r: Result<String, TradeError>)
        ensures
            match r {
                Ok(s) => sized_text(owned_asset, amount@, self.book(owned_asset).0, self.book(owned_asset).1)
                    == Ok::<Seq<char>, TradeError>(s@),
                Err(e) => sized_text(owned_asset, amount@, self.book(owned_asset).0, self.book(owned_asset).1)
                    == Err::<Seq<char>, TradeError>(e),
            },
    {
        let (price_text, qty_text) = match owned_asset {
            Side::Base => (self.bid_price.as_str(), self.bid_qty.as_str()),
            Side::Quote => (self.asking_price.as_str(), self.asking_qty.as_str()),
        };
        let a = parse_decimal(amount);
        let p = parse_decimal(price_text);
        let q = parse_decimal(qty_text);
        match (a, p, q) {
            (Some(a), Some(p), Some(q)) => match size_trade(owned_asset, a, p, q) {
                Ok(d) => Ok(decimal_text(d)),
                Err(e) => Err(e),
            },
            _ => Err(TradeError::InvalidAmount),
        }
    }

    /// Takes the best bid and ask from a ticker message: a JSON object with
    /// string members `a`, `A`, `b`, `B` (ask price, ask quantity, bid price,
    /// bid quantity), each a decimal number. Nothing changes unless all four
    /// are there and are decimals.
    pub fn update(&mut self, json_str: &str) -> (r: Result<(), MarketDataError>)
        ensures
            match ticker_fields(json_str@) {
                Some((ap, aq, bp, bq)) => {
                    &&& r is Ok
                    &&& final(self).asking_price@ == ap
                    &&& final(self).asking_qty@ == aq
                    &&& final(self).bid_price@ == bp
                    &&& final(self).bid_qty@ == bq
                    &&& parsed(ap) is Some
                    &&& parsed(aq) is Some
                    &&& parsed(bp) is Some
                    &&& parsed(bq) is Some
                },
                None => {
                    &&& r == Err::<(), MarketDataError>(MarketDataError::MalformedMarketData)
                    &&& final(self).asking_price@ == old(self).asking_price@
                    &&& final(self).asking_qty@ == old(self).asking_qty@
                    &&& final(self).bid_price@ == old(self).bid_price@
                    &&& final(self).bid_qty@ == old(self).bid_qty@
                },
            },
            final(self).base@ == old(self).base@,
            final(self).quote@ == old(self).quote@,
    {
        let ap = json_string_member(json_str, "a");
        let aq = json_string_member(json_str, "A");
        let bp = json_string_member(json_str, "b");
        let bq = json_string_member(json_str, "B");
        match (ap, aq, bp, bq) {
            (Some(ap), Some(aq), Some(bp), Some(bq)) => {
                if parse_decimal(ap.as_str()).is_none() || parse_decimal(aq.as_str()).is_none()
                    || parse_decimal(bp.as_str()).is_none() || parse_decimal(bq.as_str()).is_none() {
                    return Err(MarketDataError::MalformedMarketData);
                }
                self.asking_price = ap;
                self.asking_qty = aq;
                self.bid_price = bp;
                self.bid_qty = bq;
                Ok(())
            },
            _ => Err(MarketDataError::MalformedMarketData),
        }
    }

    /// The signed market order for this pair: sell `owned_amount` of base
    /// (`Side::Base`) or spend `owned_amount` of quote (`Side::Quote`).
    pub fn build_trade_json(&self, owned_asset: Side, owned_amount: &str, server_time_stamp: u64, api_secret: &str) -> (r: String)
        ensures
            r@ == signed_order(self.base@, self.quote@, owned_asset, owned_amount@, server_time_stamp, api_secret@),
            signature(
                api_secret@,
                unsigned_order(self.base@, self.quote@, owned_asset, owned_amount@, server_time_stamp),
            ).len() == 64,
            is_lower_hex(
                signature(
                    api_secret@,
                    unsigned_order(self.base@, self.quote@, owned_asset, owned_amount@, server_time_stamp),
                ),
            ),
    {
        build_signed_order(
            self.base.as_str(),
            self.quote.as_str(),
            owned_asset,
            owned_amount,
            server_time_stamp,
            api_secret,
        )
    }
}

} // verus!
