//! Small computations and texts: changes in percent, position sizing,
//! results of positions, slippage, symbols and the lines that report trades.

use crate::decimal::{
    decimal_difference, decimal_product, decimal_quotient, decimal_text_fixed, Decimal,
};
use crate::models::{OrderSide, PositionSide};
use vstd::prelude::*;
use vstd::string::{StrSliceExecFns, StringExecFns, StringSliceAdditionalSpecFns};

verus! {

/// Whether the standard library counts a character as alphanumeric.
pub uninterp spec fn char_is_alphanumeric(c: char) -> bool;

/// The text that the standard library gives for a text in upper case.
pub uninterp spec fn uppercase_text(text: Seq<char>) -> Seq<char>;

/// Calls `std::time::SystemTime::now` and gives the whole seconds since
/// 1970-01-01T00:00:00Z, or 0 for a clock set before that. Nothing is
/// claimed of the result.
#[verifier::external_body]
pub fn current_timestamp() -> u64 {
    std::time::SystemTime::now().duration_since(std::time::UNIX_EPOCH).unwrap_or_default().as_secs()
}

/// Calls `char::is_alphanumeric` of the standard library. The contract
/// names the result.
#[verifier::external_body]
fn is_alphanumeric(c: char) -> (r: bool)
    ensures
        r == char_is_alphanumeric(c),
{
    c.is_alphanumeric()
}

/// Calls `str::to_uppercase` of the standard library. The contract names
/// the result.
#[verifier::external_body]
fn to_uppercase(text: &str) -> (r: String)
    ensures
        r@ == uppercase_text(text@),
{
    text.to_uppercase()
}

/// Prints a decimal with `precision` digits after the decimal point; a
/// decimal that is too long for that is printed with the digits that it has.
pub fn format_decimal(value: Decimal, precision: u32) -> (r: String)
    ensures
        r@ == value.fixed_text_spec(precision as nat),
{
    value.to_text_fixed(precision)
}

/// The change from `old_value` to `new_value` in percent of `old_value`:
/// `(new - old) / old * 100`, and zero for an old value of zero.
pub open spec fn percentage_change(old_value: Decimal, new_value: Decimal) -> Option<Decimal> {
    if old_value.is_zero_spec() {
        Some(Decimal::spec_zero())
    } else {
        match decimal_difference(new_value, old_value) {
            None => None,
            Some(d) => match decimal_quotient(d, old_value) {
                None => None,
                Some(part) => decimal_product(part, Decimal::spec_whole(100)),
            },
        }
    }
}

/// The change from `old_value` to `new_value` in percent; `None` when the
/// arithmetic overflows.
pub fn calculate_percentage_change(old_value: Decimal, new_value: Decimal) -> (r: Option<Decimal>)
    ensures
        r == percentage_change(old_value, new_value),
        old_value.is_zero_spec() ==> r == Some(Decimal::spec_zero()),
{
    if old_value.is_zero() {
        return Some(Decimal::zero());
    }
    let part = match new_value.checked_sub(&old_value) {
        Some(d) => d.checked_div(&old_value),
        None => None,
    };
    match part {
        Some(p) => p.checked_mul(&Decimal::from_u64(100)),
        None => None,
    }
}

/// The size of a position that risks `risk_percentage` percent of the
/// balance between the entry price and the stop: `balance * (risk / 100) /
/// |entry - stop|`, and zero when entry and stop are the same.
pub open spec fn position_size(
    account_balance: Decimal,
    risk_percentage: Decimal,
    entry_price: Decimal,
    stop_loss_price: Decimal,
) -> Option<Decimal> {
    match decimal_quotient(risk_percentage, Decimal::spec_whole(100)) {
        None => None,
        Some(share) => match (
            decimal_product(account_balance, share),
            decimal_difference(entry_price, stop_loss_price),
        ) {
            (Some(risk_amount), Some(d)) => if d.is_zero_spec() {
                Some(Decimal::spec_zero())
            } else {
                decimal_quotient(risk_amount, d.abs_spec())
            },
            _ => None,
        },
    }
}

/// The size of a position for a risked share of the balance; `None` when
/// the arithmetic overflows.
pub fn calculate_position_size(
    account_balance: Decimal,
    risk_percentage: Decimal,
    entry_price: Decimal,
    stop_loss_price: Decimal,
) -> (r: Option<Decimal>)
    ensures
        r == position_size(account_balance, risk_percentage, entry_price, stop_loss_price),
{
    let share = match risk_percentage.checked_div(&Decimal::from_u64(100)) {
        Some(s) => s,
        None => { return None; },
    };
    let risk_amount = account_balance.checked_mul(&share);
    let difference = entry_price.checked_sub(&stop_loss_price);
    match (risk_amount, difference) {
        (Some(amount), Some(d)) => {
            let distance = d.abs();
            if d.is_zero() {
                Some(Decimal::zero())
            } else {
                amount.checked_div(&distance)
            }
        },
        _ => None,
    }
}

/// The result of a position: `(current - entry) * quantity` for a long
/// one, `(entry - current) * quantity` for a short one.
pub open spec fn pnl(
    entry_price: Decimal,
    current_price: Decimal,
    quantity: Decimal,
    side: PositionSide,
) -> Option<Decimal> {
    let difference = if side == PositionSide::Long {
        decimal_difference(current_price, entry_price)
    } else {
        decimal_difference(entry_price, current_price)
    };
    match difference {
        Some(d) => decimal_product(d, quantity),
        None => None,
    }
}

/// The result of a position; `None` when the arithmetic overflows.
pub fn calculate_pnl(
    entry_price: Decimal,
    current_price: Decimal,
    quantity: Decimal,
    side: PositionSide,
) -> (r: Option<Decimal>)
    ensures
        r == pnl(entry_price, current_price, quantity, side),
{
    let difference = match side {
        PositionSide::Long => current_price.checked_sub(&entry_price),
        PositionSide::Short => entry_price.checked_sub(&current_price),
    };
    match difference {
        Some(d) => d.checked_mul(&quantity),
        None => None,
    }
}

/// Whether the market is open: always.
pub fn is_market_hours() -> (r: bool)
    ensures
        r,
{
    true
}

/// Every character is a letter, a digit or a dash.
pub open spec fn symbol_characters(symbol: Seq<char>) -> bool {
    forall|i: int| 0 <= i < symbol.len() ==> char_is_alphanumeric(symbol[i]) || symbol[i] == '-'
}

/// Whether a text can name a symbol: it is not empty, takes at most 20
/// bytes, and holds only letters, digits and dashes.
pub fn validate_symbol(symbol: &str) -> (r: bool)
    ensures
        r == (symbol@.len() > 0 && symbol.spec_bytes().len() <= 20 && symbol_characters(symbol@)),
{
    if symbol.is_empty() || symbol.as_bytes().len() > 20 {
        return false;
    }
    let count = symbol.unicode_len();
    let mut i: usize = 0;
    while i < count
        invariant
            0 <= i <= count,
            count == symbol@.len(),
            symbol@.len() > 0,
            symbol.spec_bytes().len() <= 20,
            forall|j: int| 0 <= j < i ==> char_is_alphanumeric(symbol@[j]) || symbol@[j] == '-',
        decreases count - i,
    {
        let c = symbol.get_char(i);
        if !(is_alphanumeric(c) || c == '-') {
            return false;
        }
        i = i + 1;
    }
    true
}

/// A text without its dashes.
pub open spec fn without_dashes(text: Seq<char>) -> Seq<char> {
    text.filter(|c: char| c != '-')
}

/// Takes the dashes out of a text.
pub fn remove_dashes(text: &str) -> (r: String)
    ensures
        r@ == without_dashes(text@),
        forall|i: int| 0 <= i < r@.len() ==> r@[i] != '-',
{
    let count = text.unicode_len();
    let mut out = String::new();
    let mut i: usize = 0;
    while i < count
        invariant
            0 <= i <= count,
            count == text@.len(),
            out@ == without_dashes(text@.subrange(0, i as int)),
            forall|k: int| 0 <= k < out@.len() ==> out@[k] != '-',
        decreases count - i,
    {
        let c = text.get_char(i);
        proof {
            let pred = |c: char| c != '-';
            let prev = text@.subrange(0, i as int);
            let next = text@.subrange(0, i + 1);
            assert(next == prev.push(c));
            assert(next.drop_last() == prev);
            reveal(Seq::filter);
            assert(next.filter(pred) == if pred(c) {
                prev.filter(pred).push(c)
            } else {
                prev.filter(pred)
            });
        }
        if c != '-' {
            let piece = text.substring_char(i, i + 1);
            assert(piece@ == seq![c]);
            out.append(piece);
            assert(out@ == without_dashes(text@.subrange(0, i as int)).push(c));
        }
        i = i + 1;
    }
    assert(text@.subrange(0, count as int) == text@);
    out
}

/// A symbol in upper case and without dashes.
pub fn normalize_symbol(symbol: &str) -> (r: String)
    ensures
        r@ == without_dashes(uppercase_text(symbol@)),
        forall|i: int| 0 <= i < r@.len() ==> r@[i] != '-',
{
    let upper = to_uppercase(symbol);
    remove_dashes(upper.as_str())
}

/// The distance of the actual price from the expected one in percent of the
/// expected one: `|(actual - expected) / expected * 100|`, and zero for an
/// expected price of zero.
pub open spec fn slippage(expected_price: Decimal, actual_price: Decimal) -> Option<Decimal> {
    match percentage_change(expected_price, actual_price) {
        Some(change) => Some(change.abs_spec()),
        None => None,
    }
}

/// The slippage in percent; `None` when the arithmetic overflows.
pub fn calculate_slippage(expected_price: Decimal, actual_price: Decimal) -> (r: Option<Decimal>)
    ensures
        r == slippage(expected_price, actual_price),
{
    if expected_price.is_zero() {
        let zero = Decimal::zero();
        proof {
            crate::decimal::lemma_parts(0, 0);
        }
        return Some(zero.abs());
    }
    match calculate_percentage_change(expected_price, actual_price) {
        Some(change) => Some(change.abs()),
        None => None,
    }
}

/// Whether a slippage is at most the largest one allowed.
pub fn is_slippage_acceptable(slippage: Decimal, max_slippage: Decimal) -> (r: bool)
    ensures
        r == slippage.le_spec(max_slippage),
{
    slippage.le(&max_slippage)
}

/// An amount as money: a dollar sign and two digits after the point.
pub fn format_currency(amount: Decimal) -> (r: String)
    ensures
        r@ == "$"@ + decimal_text_fixed(amount, 2),
{
    let number = amount.to_text_fixed(2);
    String::from_str("$").concat(number.as_str())
}

/// A percentage: two digits after the point and a percent sign.
pub fn format_percentage(percentage: Decimal) -> (r: String)
    ensures
        r@ == decimal_text_fixed(percentage, 2) + "%"@,
{
    percentage.to_text_fixed(2).concat("%")
}

/// The line that reports an execution: a mark for the outcome, the side,
/// the quantity with 6 digits, the symbol and the price with 2 digits.
pub open spec fn trade_execution_line(
    symbol: Seq<char>,
    side: OrderSide,
    quantity: Decimal,
    price: Decimal,
    success: bool,
) -> Seq<char> {
    (if success {
        "\u{2705}"@
    } else {
        "\u{274c}"@
    }) + " "@ + (if side == OrderSide::Buy {
        "BUY"@
    } else {
        "SELL"@
    }) + " "@ + quantity.fixed_text_spec(6) + " "@ + symbol + " @ "@ + decimal_text_fixed(
        price,
        2,
    )
}

/// The line that reports an execution.
pub fn trade_execution_message(
    symbol: &str,
    side: &OrderSide,
    quantity: Decimal,
    price: Decimal,
    success: bool,
) -> (r: String)
    ensures
        r@ == trade_execution_line(symbol@, *side, quantity, price, success),
{
    let status = if success {
        "\u{2705}"
    } else {
        "\u{274c}"
    };
    let action = match side {
        OrderSide::Buy => "BUY",
        OrderSide::Sell => "SELL",
    };
    let amount = quantity.to_text_fixed(6);
    let at = price.to_text_fixed(2);
    String::from_str(status).concat(" ").concat(action).concat(" ").concat(
        amount.as_str(),
    ).concat(" ").concat(symbol).concat(" @ ").concat(at.as_str())
}

/// The line that reports a position: a mark for the sign of the result,
/// the side, the size with 6 digits, the symbol and the result with 2
/// digits.
pub open spec fn position_update_line(
    symbol: Seq<char>,
    side: PositionSide,
    size: Decimal,
    result: Decimal,
) -> Seq<char> {
    (if Decimal::spec_zero().le_spec(result) {
        "\u{1f4c8}"@
    } else {
        "\u{1f4c9}"@
    }) + " "@ + (if side == PositionSide::Long {
        "LONG"@
    } else {
        "SHORT"@
    }) + " "@ + size.fixed_text_spec(6) + " "@ + symbol + " PnL: "@ + decimal_text_fixed(
        result,
        2,
    )
}

/// The line that reports a position.
pub fn position_update_message(symbol: &str, side: &PositionSide, size: Decimal, pnl: Decimal) -> (r:
    String)
    ensures
        r@ == position_update_line(symbol@, *side, size, pnl),
{
    let mark = if pnl.ge(&Decimal::zero()) {
        "\u{1f4c8}"
    } else {
        "\u{1f4c9}"
    };
    let kind = match side {
        PositionSide::Long => "LONG",
        PositionSide::Short => "SHORT",
    };
    let amount = size.to_text_fixed(6);
    let result = pnl.to_text_fixed(2);
    String::from_str(mark).concat(" ").concat(kind).concat(" ").concat(amount.as_str()).concat(
        " ",
    ).concat(symbol).concat(" PnL: ").concat(result.as_str())
}

} // verus!
