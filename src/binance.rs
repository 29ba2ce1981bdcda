//! Client state for the exchange: credentials, the exchange's clock and the
//! market-data session. The transport itself is the caller's.

use vstd::prelude::*;
use vstd::string::*;
use crate::json::{json_u64_member, u64_member};
use crate::session::{Session, SessionError, SessionState, subscription_text};
use crate::signer::{signed_order, Side};
use crate::symbol::{sized_text, Symbol, TradeError};

verus! {

pub struct Binance {
    /// The key that identifies the account.
    pub api_key: String,
    /// The secret that signs orders.
    pub api_secret: String,
    /// The market-data session.
    pub session: Session,
    /// The exchange's clock as last read, in milliseconds.
    pub server_time_stamp: u64,
}

impl Binance {
    /// A client with the given credentials, the exchange time read at start,
    /// and a session that follows `channels`.
    pub fn new(api_key: &str, api_secret: &str, server_time_stamp: u64, channels: Vec<String>) -> (r: Binance)
        ensures
            r.api_key@ == api_key@,
            r.api_secret@ == api_secret@,
            r.server_time_stamp == server_time_stamp,
            r.session.state == SessionState::Disconnected,
            r.session.channels@ == channels@,
    {
        Binance {
            api_key: String::from_str(api_key),
            api_secret: String::from_str(api_secret),
            session: Session::new(channels),
            server_time_stamp,
        }
    }

    /// The key sent with each order in the `X-MBX-APIKEY` header.
    pub fn api_key(&self) -> (r: &str)
        ensures
            r@ == self.api_key@,
    {
        self.api_key.as_str()
    }

    /// The subscription message for the session's channels, or
    /// `NotConnected` before a connection is made.
    pub fn follow_ticker(&mut self) -> (r: Result<String, SessionError>)
        ensures
            old(self).session.state == SessionState::Disconnected ==> {
                &&& r == Err::<String, SessionError>(SessionError::NotConnected)
                &&& final(self).session.state == old(self).session.state
            },
            old(self).session.state != SessionState::Disconnected ==> {
                &&& r matches Ok(s) && s@ == subscription_text(old(self).session.channels@)
                &&& final(self).session.state == SessionState::Subscribed
            },
            final(self).session.connected_at == old(self).session.connected_at,
            final(self).session.failures == old(self).session.failures,
            final(self).session.channels@ == old(self).session.channels@,
            final(self).api_key@ == old(self).api_key@,
            final(self).api_secret@ == old(self).api_secret@,
            final(self).server_time_stamp == old(self).server_time_stamp,
    {
        self.session.subscribe()
    }

    pub fn set_server_time_stamp(&mut self, server_time_stamp: u64)
        ensures
            final(self).server_time_stamp == server_time_stamp,
            final(self).api_key@ == old(self).api_key@,
            final(self).api_secret@ == old(self).api_secret@,
            final(self).session.state == old(self).session.state,
            final(self).session.connected_at == old(self).session.connected_at,
            final(self).session.failures == old(self).session.failures,
            final(self).session.channels@ == old(self).session.channels@,
    {
        self.server_time_stamp = server_time_stamp;
    }

    /// The exchange time in a reply of the time endpoint: the member
    /// `serverTime` of a JSON object.
    pub fn get_server_time_stamp(body: &str) -> (r: Option<u64>)
        ensures
            r == u64_member(body@, "serverTime"@),
    {
        json_u64_member(body, "serverTime")
    }

    /// The signed body of a market order of `owned_amount` of the
    /// `owned_asset`, once the book of `symbol` is found to absorb it.
    pub fn prepare_order(&self, symbol: &Symbol, owned_asset: Side, owned_amount: &str, server_time_stamp: u64) -> (r: Result<String, TradeError>)
        ensures
            ({
                let sized = sized_text(
                    owned_asset,
                    owned_amount@,
                    symbol.book(owned_asset).0,
                    symbol.book(owned_asset).1,
                );
                match r {
                    Ok(body) => sized is Ok && body@ == signed_order(
                        symbol.base@,
                        symbol.quote@,
                        owned_asset,
                        owned_amount@,
                        server_time_stamp,
                        self.api_secret@,
                    ),
                    Err(e) => sized == Err::<Seq<char>, TradeError>(e),
                }
            }),
    {
        match symbol.calculate_trade(owned_asset, owned_amount) {
            Ok(_) => Ok(
                symbol.build_trade_json(owned_asset, owned_amount, server_time_stamp, self.api_secret.as_str()),
            ),
            Err(e) => Err(e),
        }
    }
}

} // verus!
