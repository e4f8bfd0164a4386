//! The lines shown to the user.
use vstd::prelude::*;
use vstd::string::StringExecFns;

verus! {

/// The character of a decimal digit.
pub open spec fn digit_char(d: nat) -> char {
    if d < 10 {
        ((d + '0' as nat) as u32) as char
    } else {
        '?'
    }
}

/// The decimal numeral of `n`, without leading zeros.
pub open spec fn decimal(n: nat) -> Seq<char>
    decreases n,
{
    if n < 10 {
        seq![digit_char(n)]
    } else {
        decimal(n / 10).push(digit_char(n % 10))
    }
}

/// The prompt for a ticker.
pub open spec fn prompt_text() -> Seq<char> {
    "Please input a ticker symbol to get the price of a stock."@
}

/// The line for a text that matched no ticker.
pub open spec fn no_match_text() -> Seq<char> {
    "The provided input did not match a ticker symbol."@
}

/// The line for a refused API key.
pub open spec fn new_token_text() -> Seq<char> {
    "Need to grab a new token"@
}

/// The line for a resolved price; the price is given as already written out.
pub open spec fn price_text(ticker: Seq<char>, price: Seq<char>) -> Seq<char> {
    "Price for "@ + ticker + " is "@ + price
}

/// The diagnostic for a reply with an unexpected status.
pub open spec fn unexpected_text(status: nat) -> Seq<char> {
    "Uh oh! Something unexpected happened: "@ + decimal(status)
}

/// Asks for a ticker.
pub fn prompt() -> (r: String)
    ensures
        r@ == prompt_text(),
{
    String::from_str("Please input a ticker symbol to get the price of a stock.")
}

/// Says that the typed text matched no ticker.
pub fn no_match_message() -> (r: String)
    ensures
        r@ == no_match_text(),
{
    String::from_str("The provided input did not match a ticker symbol.")
}

/// Says that the API key was refused.
pub fn new_token_message() -> (r: String)
    ensures
        r@ == new_token_text(),
{
    String::from_str("Need to grab a new token")
}

/// The line that shows a ticker's price, given as already written out.
pub fn price_line(ticker: &str, price: &str) -> (r: String)
    ensures
        r@ == price_text(ticker@, price@),
{
    let mut line = String::from_str("Price for ");
    line.append(ticker);
    line.append(" is ");
    line.append(price);
    line
}

/// The one-character text of a decimal digit.
fn digit_str(d: u16) -> (r: &'static str)
    requires
        d < 10,
    ensures
        r@ == seq![digit_char(d as nat)],
{
    proof {
        reveal_strlit("0");
        reveal_strlit("1");
        reveal_strlit("2");
        reveal_strlit("3");
        reveal_strlit("4");
        reveal_strlit("5");
        reveal_strlit("6");
        reveal_strlit("7");
        reveal_strlit("8");
        reveal_strlit("9");
    }
    let r = if d == 0 {
        "0"
    } else if d == 1 {
        "1"
    } else if d == 2 {
        "2"
    } else if d == 3 {
        "3"
    } else if d == 4 {
        "4"
    } else if d == 5 {
        "5"
    } else if d == 6 {
        "6"
    } else if d == 7 {
        "7"
    } else if d == 8 {
        "8"
    } else {
        "9"
    };
    assert(r@ =~= seq![digit_char(d as nat)]);
    r
}

/// Appends the decimal numeral of `n` to `s`.
fn append_decimal(s: &mut String, n: u16)
    ensures
        final(s)@ == old(s)@ + decimal(n as nat),
    decreases n,
{
    if n >= 10 {
        append_decimal(s, n / 10);
    }
    s.append(digit_str(n % 10));
    proof {
        if n >= 10 {
            assert(old(s)@ + decimal(n as nat) =~= old(s)@ + decimal((n / 10) as nat) + seq![
                digit_char((n % 10) as nat),
            ]);
        } else {
            assert(n % 10 == n);
        }
    }
}

/// The diagnostic for a reply with an unexpected status, which it names in
/// decimal.
pub fn unexpected_status_message(status: u16) -> (r: String)
    ensures
        r@ == unexpected_text(status as nat),
{
    let mut line = String::from_str("Uh oh! Something unexpected happened: ");
    append_decimal(&mut line, status);
    line
}

} // verus!
