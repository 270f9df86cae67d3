//! The signature of a request, the reading of the exchange's answers, and
//! the mapping between the exchange's data and the engine's.

use crate::api::types::{
    AssetPosition, CancelRequest, HyperliquidResponse, OrderRequest, UserState,
};
use crate::decimal::Decimal;
use crate::error::{same_text, Error};
use crate::models::{AccountInfo, MarketData, Order, OrderSide, OrderType, Position, PositionSide};
use crate::strategies::base::{sum_forward, sum_range};
use crate::time::Timestamp;
use vstd::prelude::*;
use vstd::string::{StringExecFns, StringSliceAdditionalSpecFns};

verus! {

/// The HMAC-SHA256 code of a message under a key.
pub uninterp spec fn hmac_sha256(key: Seq<u8>, data: Seq<u8>) -> Seq<u8>;

/// The whole number that the standard library reads from a text.
pub uninterp spec fn u64_from_text(text: Seq<char>) -> Option<u64>;

/// The character for a hexadecimal digit, in lower case.
pub open spec fn hex_digit(n: int) -> char {
    seq!['0', '1', '2', '3', '4', '5', '6', '7', '8', '9', 'a', 'b', 'c', 'd', 'e', 'f'][n]
}

/// The bytes written as hexadecimal digits in lower case, two for each
/// byte.
pub open spec fn hex_text(bytes: Seq<u8>) -> Seq<char>
    decreases bytes.len(),
{
    if bytes.len() == 0 {
        Seq::<char>::empty()
    } else {
        hex_text(bytes.drop_last()) + seq![
            hex_digit(bytes.last() as int / 16),
            hex_digit(bytes.last() as int % 16),
        ]
    }
}

/// Calls `new_from_slice`, `update` and `finalize` of `hmac::Hmac` over
/// `sha2::Sha256`. The contract claims that a key of any length is taken,
/// so that a code always comes back, and names that code.
#[verifier::external_body]
fn compute_hmac_sha256(key: &[u8], data: &[u8]) -> (r: Result<Vec<u8>, String>)
    ensures
        r is Ok,
        r matches Ok(code) ==> code@ == hmac_sha256(key@, data@),
{
    match <hmac::Hmac<sha2::Sha256> as hmac::Mac>::new_from_slice(key) {
        Ok(mut mac) => {
            hmac::Mac::update(&mut mac, data);
            Ok(hmac::Mac::finalize(mac).into_bytes().to_vec())
        },
        Err(e) => Err(e.to_string()),
    }
}

/// Calls `hex::encode`. The contract claims that each byte gives two
/// hexadecimal digits in lower case, the high one first.
#[verifier::external_body]
fn encode_hex(bytes: &[u8]) -> (r: String)
    ensures
        r@ == hex_text(bytes@),
{
    hex::encode(bytes)
}

/// Calls `str::parse::<u64>` of the standard library. The contract names
/// the result.
#[verifier::external_body]
fn parse_u64(text: &str) -> (r: Option<u64>)
    ensures
        r == u64_from_text(text@),
{
    text.parse::<u64>().ok()
}

/// The signature for a code, or the error for a key that was refused with
/// the given reason.
pub fn signature_from(code: Result<Vec<u8>, String>) -> (r: Result<String, Error>)
    ensures
        match code {
            Ok(bytes) => r matches Ok(text) && text@ == hex_text(bytes@),
            Err(reason) => r matches Err(Error::Api(text)) && text@ == "Invalid private key: "@
                + reason@,
        },
{
    match code {
        Ok(bytes) => Ok(encode_hex(bytes.as_slice())),
        Err(reason) => Err(
            Error::Api(String::from_str("Invalid private key: ").concat(reason.as_str())),
        ),
    }
}

/// The signature of a request body: its HMAC-SHA256 code under the private
/// key, in hexadecimal digits.
pub fn create_signature(private_key: &str, data: &str) -> (r: Result<String, Error>)
    ensures
        r matches Ok(text) && text@ == signature_text(private_key@, data@),
{
    signature_from(compute_hmac_sha256(private_key.as_bytes(), data.as_bytes()))
}

/// The signature of a body under a key: the HMAC-SHA256 code of the body's
/// bytes under the key's bytes, in hexadecimal digits.
pub open spec fn signature_text(key: Seq<char>, body: Seq<char>) -> Seq<char> {
    hex_text(hmac_sha256(vstd::utf8::encode_utf8(key), vstd::utf8::encode_utf8(body)))
}

/// The client of the exchange as far as it computes: where the exchange is
/// and the credentials with which requests are signed.
#[derive(Debug)]
pub struct HyperliquidClient {
    pub base_url: String,
    pub api_key: String,
    pub private_key: String,
    pub testnet: bool,
}

/// A request as it is handed to the transport.
#[derive(Debug)]
pub struct SignedRequest {
    /// Where the request goes: the base address, a slash and the endpoint.
    pub url: String,
    /// The kind of content: JSON.
    pub content_type: String,
    /// The bearer authorization with the key of the interface.
    pub authorization: String,
    /// The signature of the body under the private key.
    pub signature: String,
    pub body: String,
}

/// `request` is the signed request to an endpoint with a body.
pub open spec fn is_signed_request(
    request: SignedRequest,
    client: HyperliquidClient,
    endpoint: Seq<char>,
    body: Seq<char>,
) -> bool {
    &&& request.url@ == client.base_url@ + "/"@ + endpoint
    &&& request.content_type@ == "application/json"@
    &&& request.authorization@ == "Bearer "@ + client.api_key@
    &&& request.signature@ == signature_text(client.private_key@, body)
    &&& request.body@ == body
}

impl HyperliquidClient {
    pub fn new(base_url: String, api_key: String, private_key: String, testnet: bool) -> (r:
        HyperliquidClient)
        ensures
            r.base_url == base_url,
            r.api_key == api_key,
            r.private_key == private_key,
            r.testnet == testnet,
    {
        HyperliquidClient { base_url, api_key, private_key, testnet }
    }

    /// The signature of a request body under the client's private key.
    pub fn create_signature(&self, data: &str) -> (r: Result<String, Error>)
        ensures
            r matches Ok(text) && text@ == signature_text(self.private_key@, data@),
    {
        create_signature(self.private_key.as_str(), data)
    }

    /// The signed request to an endpoint with a body.
    pub fn prepare_request(&self, endpoint: &str, body: String) -> (r: Result<
        SignedRequest,
        Error,
    >)
        ensures
            r matches Ok(request) && is_signed_request(request, *self, endpoint@, body@),
    {
        match self.create_signature(body.as_str()) {
            Ok(signature) => Ok(
                SignedRequest {
                    url: self.endpoint_url(endpoint),
                    content_type: String::from_str("application/json"),
                    authorization: self.authorization(),
                    signature,
                    body,
                },
            ),
            Err(e) => Err(e),
        }
    }

    /// The address of an endpoint: the base address, a slash and the
    /// endpoint.
    pub fn endpoint_url(&self, endpoint: &str) -> (r: String)
        ensures
            r@ == self.base_url@ + "/"@ + endpoint@,
    {
        self.base_url.clone().concat("/").concat(endpoint)
    }

    /// The bearer authorization with the key of the interface.
    pub fn authorization(&self) -> (r: String)
        ensures
            r@ == "Bearer "@ + self.api_key@,
    {
        String::from_str("Bearer ").concat(self.api_key.as_str())
    }
}

/// Whether a status code of the transport reports success.
pub open spec fn is_success_code(code: u16) -> bool {
    200 <= code < 300
}

/// Reads the status of the transport: any code outside 200..300 is an
/// error that carries the status and the body of the answer.
pub fn check_http_status(code: u16, status: &str, body: &str) -> (r: Result<(), Error>)
    ensures
        r is Ok <==> is_success_code(code),
        r matches Err(e) ==> e matches Error::Api(text) && text@ == "HTTP "@ + status@ + ": "@
            + body@,
{
    if 200 <= code && code < 300 {
        Ok(())
    } else {
        Err(Error::Api(String::from_str("HTTP ").concat(status).concat(": ").concat(body)))
    }
}

impl<T> HyperliquidResponse<T> {
    /// Reads the envelope: a failure that the exchange reports is an error
    /// with the reported reason, a success without data is an error too,
    /// and only a success with data gives the data.
    pub fn into_result(self) -> (r: Result<T, Error>)
        ensures
            match (self.success, self.data, self.error) {
                (false, _, Some(reason)) => r matches Err(Error::Api(text)) && text@ == reason@,
                (false, _, None) => r matches Err(Error::Api(text)) && text@
                    == "Unknown API error"@,
                (true, None, _) => r matches Err(Error::Api(text)) && text@
                    == "No data in response"@,
                (true, Some(data), _) => r == Ok::<T, Error>(data),
            },
    {
        if !self.success {
            return match self.error {
                Some(reason) => Err(Error::Api(reason)),
                None => Err(Error::api("Unknown API error")),
            };
        }
        match self.data {
            Some(data) => Ok(data),
            None => Err(Error::api("No data in response")),
        }
    }
}

/// The quote for a symbol from its mid price, observed at the time `now`:
/// the price is the mid price, as are the day's high and low; volume and
/// change are zero. A symbol without a mid price gives an error.
pub fn market_data_from_mid(symbol: &str, mid: Option<Decimal>, now: Timestamp) -> (r: Result<
    MarketData,
    Error,
>)
    ensures
        match mid {
            Some(price) => r matches Ok(quote) && quote.symbol@ == symbol@ && quote.price == price
                && quote.volume_24h == Decimal::spec_zero() && quote.change_24h
                == Decimal::spec_zero() && quote.high_24h == price && quote.low_24h == price
                && quote.timestamp == now,
            None => r matches Err(Error::Api(text)) && text@ == "Symbol "@ + symbol@
                + " not found"@,
        },
{
    match mid {
        Some(price) => Ok(
            MarketData {
                symbol: String::from_str(symbol),
                price,
                volume_24h: Decimal::zero(),
                change_24h: Decimal::zero(),
                high_24h: price,
                low_24h: price,
                timestamp: now,
            },
        ),
        None => Err(
            Error::Api(String::from_str("Symbol ").concat(symbol).concat(" not found")),
        ),
    }
}

/// The engine's position for an asset of the exchange: long for a positive
/// size, short for a negative one, with the size's magnitude.
pub open spec fn position_from(asset: AssetPosition, now: Timestamp) -> Position {
    Position {
        symbol: asset.coin,
        side: if asset.sz.is_positive_spec() {
            PositionSide::Long
        } else {
            PositionSide::Short
        },
        size: asset.sz.abs_spec(),
        entry_price: asset.entry_px,
        current_price: Decimal::spec_zero(),
        unrealized_pnl: asset.unrealized_pnl,
        realized_pnl: Decimal::spec_zero(),
        margin: asset.position.margin_used,
        timestamp: now,
    }
}

/// The positions for the assets whose size is not zero, in order.
pub open spec fn positions_from(assets: Seq<AssetPosition>, now: Timestamp) -> Seq<Position>
    decreases assets.len(),
{
    if assets.len() == 0 {
        Seq::<Position>::empty()
    } else if assets.last().sz.is_zero_spec() {
        positions_from(assets.drop_last(), now)
    } else {
        positions_from(assets.drop_last(), now).push(position_from(assets.last(), now))
    }
}

/// The unrealized results of positions, in order.
pub open spec fn unrealized_results(positions: Seq<Position>) -> Seq<Decimal> {
    Seq::new(positions.len(), |i: int| positions[i].unrealized_pnl)
}

/// The margins of positions, in order.
pub open spec fn margins(positions: Seq<Position>) -> Seq<Decimal> {
    Seq::new(positions.len(), |i: int| positions[i].margin)
}

/// The account snapshot for a user state observed at the time `now`: the
/// positions for the assets whose size is not zero, the withdrawable amount
/// as balance and as available balance, and the sums of the positions'
/// unrealized results and margins. When a sum cannot be represented there
/// is no snapshot.
pub fn account_info_from_state(state: &UserState, now: Timestamp) -> (r: Result<
    AccountInfo,
    Error,
>)
    ensures
        match (
            sum_forward(unrealized_results(positions_from(state.asset_positions@, now))),
            sum_forward(margins(positions_from(state.asset_positions@, now))),
        ) {
            (Some(pnl), Some(margin)) => r matches Ok(account) && account.positions@
                == positions_from(state.asset_positions@, now) && account.balance
                == state.withdrawable && account.available_balance == state.withdrawable
                && account.total_pnl == pnl && account.total_margin == margin
                && account.open_orders@.len() == 0,
            _ => r matches Err(Error::Api(text)) && text@
                == "Account totals cannot be represented"@,
        },
{
    let mut positions: Vec<Position> = Vec::new();
    let mut results: Vec<Decimal> = Vec::new();
    let mut margin_list: Vec<Decimal> = Vec::new();
    let mut i: usize = 0;
    while i < state.asset_positions.len()
        invariant
            0 <= i <= state.asset_positions@.len(),
            positions@ == positions_from(state.asset_positions@.subrange(0, i as int), now),
            results@ == unrealized_results(positions@),
            margin_list@ == margins(positions@),
        decreases state.asset_positions@.len() - i,
    {
        let asset = &state.asset_positions[i];
        proof {
            let next = state.asset_positions@.subrange(0, i + 1);
            assert(next.drop_last() == state.asset_positions@.subrange(0, i as int));
            assert(next.last() == *asset);
        }
        if !asset.sz.is_zero() {
            let side = if asset.sz.is_positive() {
                PositionSide::Long
            } else {
                PositionSide::Short
            };
            positions.push(
                Position {
                    symbol: asset.coin.clone(),
                    side,
                    size: asset.sz.abs(),
                    entry_price: asset.entry_px,
                    current_price: Decimal::zero(),
                    unrealized_pnl: asset.unrealized_pnl,
                    realized_pnl: Decimal::zero(),
                    margin: asset.position.margin_used,
                    timestamp: now,
                },
            );
            results.push(asset.unrealized_pnl);
            margin_list.push(asset.position.margin_used);
            assert(results@ =~= unrealized_results(positions@));
            assert(margin_list@ =~= margins(positions@));
        }
        i = i + 1;
    }
    assert(state.asset_positions@.subrange(0, state.asset_positions@.len() as int)
        == state.asset_positions@);
    assert(results@.subrange(0, results@.len() as int) == results@);
    assert(margin_list@.subrange(0, margin_list@.len() as int) == margin_list@);
    let total_pnl = sum_range(results.as_slice(), 0, results.len());
    let total_margin = sum_range(margin_list.as_slice(), 0, margin_list.len());
    match (total_pnl, total_margin) {
        (Some(pnl), Some(margin)) => Ok(
            AccountInfo {
                balance: state.withdrawable,
                available_balance: state.withdrawable,
                total_pnl: pnl,
                total_margin: margin,
                positions,
                open_orders: Vec::new(),
            },
        ),
        _ => Err(Error::api("Account totals cannot be represented")),
    }
}

/// The name of the kind of order that the exchange is told: market orders
/// as such, every other kind as a limit order.
pub open spec fn order_kind_name(kind: OrderType) -> Seq<char> {
    if kind == OrderType::Market {
        "Market"@
    } else {
        "Limit"@
    }
}

/// An order in the exchange's form: asset 0, the price or zero without
/// one, not reduce-only, client number 0.
pub fn order_request_from(order: &Order) -> (r: OrderRequest)
    ensures
        r.a == 0,
        r.b == (order.side == OrderSide::Buy),
        r.p == match order.price {
            Some(price) => price,
            None => Decimal::spec_zero(),
        },
        r.s == order.quantity,
        !r.r,
        r.t@ == order_kind_name(order.order_type),
        r.cid == 0,
{
    OrderRequest {
        a: 0,
        b: match order.side {
            OrderSide::Buy => true,
            OrderSide::Sell => false,
        },
        p: match order.price {
            Some(price) => price,
            None => Decimal::zero(),
        },
        s: order.quantity,
        r: false,
        t: match order.order_type {
            OrderType::Market => String::from_str("Market"),
            _ => String::from_str("Limit"),
        },
        cid: 0,
    }
}

/// Reads the status of an answer to an order: `ok` gives the order's
/// identifier, anything else is an error that carries the status.
pub fn order_outcome(status: &str) -> (r: Result<String, Error>)
    ensures
        if status@ == "ok"@ {
            r matches Ok(id) && id@ == "order_id"@
        } else {
            r matches Err(Error::Trading(text)) && text@ == "Failed to place order: "@ + status@
        },
{
    if same_text(status, "ok") {
        Ok(String::from_str("order_id"))
    } else {
        Err(Error::Trading(String::from_str("Failed to place order: ").concat(status)))
    }
}

/// The request to cancel an order: the order's number is the one written
/// in its identifier, or 0 when the identifier is not a number.
pub fn cancel_request_from(order_id: &str) -> (r: CancelRequest)
    ensures
        r.coin@.len() == 0,
        r.oid == match u64_from_text(order_id@) {
            Some(n) => n,
            None => 0,
        },
{
    CancelRequest {
        coin: String::new(),
        oid: match parse_u64(order_id) {
            Some(n) => n,
            None => 0,
        },
    }
}

/// Whether the answer to a cancellation reports success.
pub fn cancel_outcome(status: &str) -> (r: bool)
    ensures
        r == (status@ == "ok"@),
{
    same_text(status, "ok")
}

} // verus!
