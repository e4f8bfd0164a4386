//! The request URL for a ticker's previous-session aggregate.
use vstd::prelude::*;
use vstd::string::StringExecFns;

verus! {

/// What the lookup needs from its configuration: the service's API key.
#[derive(Clone, Debug)]
pub struct Config {
    pub polygon_api_key: String,
}

impl Config {
    /// A configuration holding the given API key.
    pub fn new(polygon_api_key: String) -> (r: Config)
        ensures
            r.polygon_api_key@ == polygon_api_key@,
    {
        Config { polygon_api_key }
    }
}

/// The upper-case form of a text, as `str::to_uppercase` computes it.
pub uninterp spec fn upper_of(s: Seq<char>) -> Seq<char>;

/// The URL of the previous-session aggregate for `ticker`, authorised by `key`.
/// Both are put in as they stand.
pub open spec fn aggregate_url(ticker: Seq<char>, key: Seq<char>) -> Seq<char> {
    "https://api.polygon.io/v2/aggs/ticker/"@ + ticker + "/prev?adjusted=true&apiKey="@ + key
}

/// Relies on str::to_uppercase: the Unicode upper-case mapping of each
/// character, which depends on the characters alone.
#[verifier::external_body]
fn uppercase(s: &str) -> (r: String)
    ensures
        r@ == upper_of(s@),
{
    s.to_uppercase()
}

/// Builds the URL from a ticker that is already in the form to be sent.
pub fn url_for(ticker: &str, config: &Config) -> (r: String)
    ensures
        r@ == aggregate_url(ticker@, config.polygon_api_key@),
{
    let mut url = String::from_str("https://api.polygon.io/v2/aggs/ticker/");
    url.append(ticker);
    url.append("/prev?adjusted=true&apiKey=");
    url.append(config.polygon_api_key.as_str());
    url
}

/// Builds the URL from the text the user typed: the text is upper-cased and
/// otherwise sent as typed, line terminator included.
pub fn construct_url(ticker_input: &str, config: &Config) -> (r: String)
    ensures
        r@ == aggregate_url(upper_of(ticker_input@), config.polygon_api_key@),
{
    let ticker = uppercase(ticker_input);
    url_for(ticker.as_str(), config)
}

} // verus!
