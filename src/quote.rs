//! The decoded shape of a price reply, and the closing price it yields.
use vstd::prelude::*;

verus! {

/// One aggregate record of a reply: its closing price.
///
/// A price is carried as the IEEE 754 bit pattern of the double the service
/// reports (`f64::to_bits`), so the price zero is the pattern `0`.
#[derive(Clone, Copy, Debug, PartialEq, Eq)]
pub struct PriceInfo {
    pub c_bits: u64,
}

/// A reply body that matched the expected schema: the records in the order
/// the service sent them, and the ticker it echoed.
#[derive(Clone, Debug)]
pub struct TickerInfo {
    pub results: Vec<PriceInfo>,
    pub ticker: String,
}

/// The ticker and the closing price taken from a reply.
#[derive(Clone, Debug)]
pub struct StockInfo {
    pub ticker_price: u64,
    pub ticker: String,
}

/// The bit pattern of the price zero.
pub const ZERO_PRICE: u64 = 0;

/// The price a sequence of records yields: that of the last record, or zero
/// when there is none.
pub open spec fn last_price(results: Seq<PriceInfo>) -> u64 {
    if results.len() == 0 {
        ZERO_PRICE
    } else {
        results.last().c_bits
    }
}

/// Resolves a reply to its ticker and the closing price of its last record.
pub fn stock_info(ticker_info: TickerInfo) -> (r: StockInfo)
    ensures
        r.ticker_price == last_price(ticker_info.results@),
        r.ticker@ == ticker_info.ticker@,
{
    let mut ticker_price: u64 = ZERO_PRICE;
    let n: usize = ticker_info.results.len();
    let mut i: usize = 0;
    while i < n
        invariant
            i <= n,
            n == ticker_info.results@.len(),
            ticker_price == last_price(ticker_info.results@.subrange(0, i as int)),
        decreases n - i,
    {
        ticker_price = ticker_info.results[i].c_bits;
        i = i + 1;
        assert(ticker_info.results@.subrange(0, i as int).last() == ticker_info.results@[i - 1]);
    }
    assert(ticker_info.results@.subrange(0, n as int) =~= ticker_info.results@);
    StockInfo { ticker_price, ticker: ticker_info.ticker }
}

} // verus!
