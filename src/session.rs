//! How each reply moves a lookup on.
//!
//! A lookup sends one request per ticker the user types. A reply whose body
//! does not match the expected schema is taken to mean the text was no ticker:
//! the user is asked once more. Any other reply ends the lookup.
use vstd::prelude::*;
use crate::quote::{last_price, stock_info, StockInfo, TickerInfo};

verus! {

/// The status of a successful reply, whose body holds the price.
pub const STATUS_OK: u16 = 200;

/// The status of a reply that refused the API key.
pub const STATUS_UNAUTHORIZED: u16 = 401;

/// What the caller is to do after a reply.
#[derive(Clone, Debug)]
pub enum Step {
    /// Show the price; the lookup is over.
    Report(StockInfo),
    /// Tell the user the text matched no ticker, and ask for another.
    Retry,
    /// Tell the user the text matched no ticker; the lookup is over.
    GiveUp,
    /// Tell the user the API key needs renewing; the lookup is over.
    Reauthorize,
    /// Stop with a diagnostic naming this unexpected status.
    Abort(u16),
}

impl Step {
    /// Whether the caller is to send another request after this step.
    pub fn asks_again(&self) -> (r: bool)
        ensures
            r == (self is Retry),
    {
        match self {
            Step::Retry => true,
            _ => false,
        }
    }
}

/// The state of a lookup: whether it has already asked the user again.
#[derive(Clone, Copy, Debug)]
pub struct Session {
    pub retried: bool,
}

/// Whether a reply with this status is to have its body read.
pub open spec fn body_wanted(status: u16) -> bool {
    status == STATUS_OK
}

/// Whether a reply makes a lookup in state `retried` ask the user again;
/// `matched` says whether the body matched the schema.
pub open spec fn asks_again(retried: bool, status: u16, matched: bool) -> bool {
    status == STATUS_OK && !matched && !retried
}

/// The state after such a reply.
pub open spec fn next_retried(retried: bool, status: u16, matched: bool) -> bool {
    retried || (status == STATUS_OK && !matched)
}

/// The number of times a lookup in state `retried` asks again over a run of
/// replies, each given as its status and whether its body matched.
pub open spec fn retries(retried: bool, replies: Seq<(u16, bool)>) -> nat
    decreases replies.len(),
{
    if replies.len() == 0 {
        0
    } else {
        let (status, matched) = replies[0];
        (if asks_again(retried, status, matched) { 1nat } else { 0nat })
            + retries(next_retried(retried, status, matched), replies.drop_first())
    }
}

/// Whether the body of a reply with this status is to be read and decoded.
pub fn reads_body(status: u16) -> (r: bool)
    ensures
        r == body_wanted(status),
{
    status == STATUS_OK
}

impl Session {
    /// A lookup that has not yet asked again.
    pub fn new() -> (r: Session)
        ensures
            !r.retried,
    {
        Session { retried: false }
    }

    /// Takes a reply: its status, and for a successful reply the decoded body,
    /// `None` where the body did not match the schema. A body handed in with
    /// any other status is ignored.
    pub fn on_reply(&mut self, status: u16, body: Option<TickerInfo>) -> (r: Step)
        ensures
            status == STATUS_OK && body is Some ==> (r matches Step::Report(info)
                && info.ticker_price == last_price(body->0.results@)
                && info.ticker@ == body->0.ticker@),
            status == STATUS_OK && body is None ==> r == (if old(self).retried {
                Step::GiveUp
            } else {
                Step::Retry
            }),
            status == STATUS_UNAUTHORIZED ==> r == Step::Reauthorize,
            status != STATUS_OK && status != STATUS_UNAUTHORIZED ==> r == Step::Abort(status),
            (r is Retry) == asks_again(old(self).retried, status, body is Some),
            final(self).retried == next_retried(old(self).retried, status, body is Some),
    {
        if status == STATUS_OK {
            match body {
                Some(parsed) => Step::Report(stock_info(parsed)),
                None => {
                    if self.retried {
                        Step::GiveUp
                    } else {
                        self.retried = true;
                        Step::Retry
                    }
                },
            }
        } else if status == STATUS_UNAUTHORIZED {
            Step::Reauthorize
        } else {
            Step::Abort(status)
        }
    }
}

/// Once a lookup has asked again, no later reply makes it ask again.
pub proof fn lemma_no_retry_after_retried(replies: Seq<(u16, bool)>)
    ensures
        retries(true, replies) == 0,
    decreases replies.len(),
{
    if replies.len() > 0 {
        lemma_no_retry_after_retried(replies.drop_first());
    }
}

/// A fresh lookup whose first reply is a successful one with a body that
/// does not match asks again; and over any run of replies a fresh lookup asks
/// again at most once.
pub proof fn lemma_at_most_one_retry(replies: Seq<(u16, bool)>)
    ensures
        asks_again(false, STATUS_OK, false),
        retries(false, replies) <= 1,
    decreases replies.len(),
{
    if replies.len() > 0 {
        let (status, matched) = replies[0];
        if asks_again(false, status, matched) {
            lemma_no_retry_after_retried(replies.drop_first());
        } else {
            lemma_at_most_one_retry(replies.drop_first());
        }
    }
}

} // verus!
