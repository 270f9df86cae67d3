//! The error type of the library.

use vstd::prelude::*;
use vstd::string::StringExecFns;

verus! {

/// What can go wrong, by kind. Failures of outside services are carried as
/// the text that the service reported.
#[derive(Debug)]
pub enum Error {
    /// Invalid or missing settings.
    Config(String),
    /// The exchange reported a failure.
    Api(String),
    /// An order could not be placed.
    Trading(String),
    /// A strategy parameter was rejected.
    Strategy(String),
    /// The network failed.
    Network(String),
    /// A message could not be encoded or decoded.
    Serialization(String),
    /// Reading or writing failed.
    Io(String),
    /// The market data feed failed.
    WebSocket(String),
    /// An argument was not acceptable.
    InvalidInput(String),
    RateLimit,
    InsufficientBalance,
    OrderNotFound,
    MarketClosed,
    Unknown(String),
}

impl Clone for Error {
    fn clone(&self) -> (r: Error)
        ensures
            r == *self,
    {
        match self {
            Error::Config(s) => Error::Config(s.clone()),
            Error::Api(s) => Error::Api(s.clone()),
            Error::Trading(s) => Error::Trading(s.clone()),
            Error::Strategy(s) => Error::Strategy(s.clone()),
            Error::Network(s) => Error::Network(s.clone()),
            Error::Serialization(s) => Error::Serialization(s.clone()),
            Error::Io(s) => Error::Io(s.clone()),
            Error::WebSocket(s) => Error::WebSocket(s.clone()),
            Error::InvalidInput(s) => Error::InvalidInput(s.clone()),
            Error::RateLimit => Error::RateLimit,
            Error::InsufficientBalance => Error::InsufficientBalance,
            Error::OrderNotFound => Error::OrderNotFound,
            Error::MarketClosed => Error::MarketClosed,
            Error::Unknown(s) => Error::Unknown(s.clone()),
        }
    }
}

impl Error {
    /// The text shown for this error.
    pub open spec fn message_spec(self) -> Seq<char> {
        match self {
            Error::Config(s) => "Configuration error: "@ + s@,
            Error::Api(s) => "API error: "@ + s@,
            Error::Trading(s) => "Trading error: "@ + s@,
            Error::Strategy(s) => "Strategy error: "@ + s@,
            Error::Network(s) => "Network error: "@ + s@,
            Error::Serialization(s) => "Serialization error: "@ + s@,
            Error::Io(s) => "IO error: "@ + s@,
            Error::WebSocket(s) => "WebSocket error: "@ + s@,
            Error::InvalidInput(s) => "Invalid input: "@ + s@,
            Error::RateLimit => "Rate limit exceeded"@,
            Error::InsufficientBalance => "Insufficient balance"@,
            Error::OrderNotFound => "Order not found"@,
            Error::MarketClosed => "Market closed"@,
            Error::Unknown(s) => "Unknown error: "@ + s@,
        }
    }

    /// The text shown for this error.
    pub fn message(&self) -> (r: String)
        ensures
            r@ == self.message_spec(),
    {
        match self {
            Error::Config(s) => String::from_str("Configuration error: ").concat(s.as_str()),
            Error::Api(s) => String::from_str("API error: ").concat(s.as_str()),
            Error::Trading(s) => String::from_str("Trading error: ").concat(s.as_str()),
            Error::Strategy(s) => String::from_str("Strategy error: ").concat(s.as_str()),
            Error::Network(s) => String::from_str("Network error: ").concat(s.as_str()),
            Error::Serialization(s) => String::from_str("Serialization error: ").concat(
                s.as_str(),
            ),
            Error::Io(s) => String::from_str("IO error: ").concat(s.as_str()),
            Error::WebSocket(s) => String::from_str("WebSocket error: ").concat(s.as_str()),
            Error::InvalidInput(s) => String::from_str("Invalid input: ").concat(s.as_str()),
            Error::RateLimit => String::from_str("Rate limit exceeded"),
            Error::InsufficientBalance => String::from_str("Insufficient balance"),
            Error::OrderNotFound => String::from_str("Order not found"),
            Error::MarketClosed => String::from_str("Market closed"),
            Error::Unknown(s) => String::from_str("Unknown error: ").concat(s.as_str()),
        }
    }

    /// A strategy error with the given text.
    pub fn strategy(text: &str) -> (r: Error)
        ensures
            r matches Error::Strategy(s) && s@ == text@,
    {
        Error::Strategy(String::from_str(text))
    }

    /// A configuration error with the given text.
    pub fn config(text: &str) -> (r: Error)
        ensures
            r matches Error::Config(s) && s@ == text@,
    {
        Error::Config(String::from_str(text))
    }

    /// An exchange error with the given text.
    pub fn api(text: &str) -> (r: Error)
        ensures
            r matches Error::Api(s) && s@ == text@,
    {
        Error::Api(String::from_str(text))
    }
}

/// Whether two texts hold the same characters.
pub fn same_text(a: &str, b: &str) -> (r: bool)
    ensures
        r == (a@ == b@),
{
    let x = a.to_owned();
    let y = b.to_owned();
    x == y
}

} // verus!
