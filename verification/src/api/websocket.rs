//! The client of the market data feed as far as it decides: whether the
//! connection is held, and the requests that go out while it is.
//!
//! The connection itself is opened, written to and closed outside this
//! library.

use crate::api::types::{SubscriptionTopic, WebSocketSubscription};
use crate::error::Error;
use vstd::prelude::*;
use vstd::string::StringExecFns;

verus! {

/// The client of the market data feed: where the feed is, and whether the
/// connection to it is held.
#[derive(Debug)]
pub struct WebSocketClient {
    pub ws_url: String,
    pub connected: bool,
}

impl WebSocketClient {
    /// A client that holds no connection.
    pub fn new(ws_url: String) -> (r: WebSocketClient)
        ensures
            r.ws_url == ws_url,
            !r.connected,
    {
        WebSocketClient { ws_url, connected: false }
    }

    /// Notes how the attempt to open the connection ended: after a success
    /// the connection is held; a failure leaves the client as it was and is
    /// handed on.
    pub fn connect(&mut self, opened: Result<(), Error>) -> (r: Result<(), Error>)
        ensures
            r == opened,
            final(self).ws_url == old(self).ws_url,
            final(self).connected == (opened is Ok || old(self).connected),
    {
        if opened.is_ok() {
            self.connected = true;
        }
        opened
    }

    /// The request for the ticker of a symbol, if the connection is held;
    /// without a connection nothing is sent.
    pub fn subscribe_to_ticker(&self, symbol: &str) -> (r: Option<WebSocketSubscription>)
        ensures
            r is Some <==> self.connected,
            r matches Some(request) ==> is_subscription(request, "ticker"@, symbol@)
                && request.subscription.interval is None,
    {
        if self.connected {
            Some(subscribe_to_ticker(symbol))
        } else {
            None
        }
    }

    /// The request for the order book of a symbol, if the connection is
    /// held; without a connection nothing is sent.
    pub fn subscribe_to_l2_book(&self, symbol: &str) -> (r: Option<WebSocketSubscription>)
        ensures
            r is Some <==> self.connected,
            r matches Some(request) ==> is_subscription(request, "l2Book"@, symbol@)
                && request.subscription.interval is None,
    {
        if self.connected {
            Some(subscribe_to_l2_book(symbol))
        } else {
            None
        }
    }

    /// The request for the candles of a symbol at an interval, if the
    /// connection is held; without a connection nothing is sent.
    pub fn subscribe_to_candles(&self, symbol: &str, interval: &str) -> (r: Option<
        WebSocketSubscription,
    >)
        ensures
            r is Some <==> self.connected,
            r matches Some(request) ==> is_subscription(request, "candle"@, symbol@),
            r matches Some(request) ==> (request.subscription.interval matches Some(i) && i@
                == interval@),
    {
        if self.connected {
            Some(subscribe_to_candles(symbol, interval))
        } else {
            None
        }
    }

    /// Gives the connection up. The result says whether a connection was
    /// held, and so has to be closed. A client without a connection stays as
    /// it is.
    pub fn disconnect(&mut self) -> (r: bool)
        ensures
            r == old(self).connected,
            !final(self).connected,
            final(self).ws_url == old(self).ws_url,
    {
        let held = self.connected;
        self.connected = false;
        held
    }
}

/// `request` subscribes to updates of the given kind for a symbol.
pub open spec fn is_subscription(
    request: WebSocketSubscription,
    kind: Seq<char>,
    symbol: Seq<char>,
) -> bool {
    &&& request.method@ == "subscribe"@
    &&& request.subscription.kind@ == kind
    &&& request.subscription.coin@ == symbol
}

/// The request for the ticker of a symbol.
pub fn subscribe_to_ticker(symbol: &str) -> (r: WebSocketSubscription)
    ensures
        is_subscription(r, "ticker"@, symbol@),
        r.subscription.interval is None,
{
    WebSocketSubscription {
        method: String::from_str("subscribe"),
        subscription: SubscriptionTopic {
            kind: String::from_str("ticker"),
            coin: String::from_str(symbol),
            interval: None,
        },
    }
}

/// The request for the order book of a symbol.
pub fn subscribe_to_l2_book(symbol: &str) -> (r: WebSocketSubscription)
    ensures
        is_subscription(r, "l2Book"@, symbol@),
        r.subscription.interval is None,
{
    WebSocketSubscription {
        method: String::from_str("subscribe"),
        subscription: SubscriptionTopic {
            kind: String::from_str("l2Book"),
            coin: String::from_str(symbol),
            interval: None,
        },
    }
}

/// The request for the candles of a symbol at an interval.
pub fn subscribe_to_candles(symbol: &str, interval: &str) -> (r: WebSocketSubscription)
    ensures
        is_subscription(r, "candle"@, symbol@),
        r.subscription.interval matches Some(i) && i@ == interval@,
{
    WebSocketSubscription {
        method: String::from_str("subscribe"),
        subscription: SubscriptionTopic {
            kind: String::from_str("candle"),
            coin: String::from_str(symbol),
            interval: Some(String::from_str(interval)),
        },
    }
}

} // verus!
