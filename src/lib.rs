//! Looking up the previous session's closing price of a stock ticker.
//!
//! The library holds everything that decides: how the request URL is built,
//! which closing price a reply yields, how each reply moves the lookup on, and
//! the lines shown to the user. Network, console and configuration access are
//! left to the caller, which hands plain values in and acts on what comes back.
pub mod message;
pub mod quote;
pub mod session;
pub mod url;
