//! The price fetcher's compute side: the outbound query URL, and the mapping
//! from an HTTP response (status plus parsed body) to a price or a classified
//! error. The I/O itself lives outside the library; callers hand in the
//! status code and the parsed body entries.

use vstd::prelude::*;

use crate::text::{dec_rep, lower_seq, upper_seq};
use crate::text::{ascii_lower, lemma_lower_char_case_insensitive, u64_to_dec};

verus! {

/// A USD price, held as a whole number of cents.
#[derive(Clone, Copy, Debug, PartialEq, Eq, Structural)]
pub struct Price {
    pub cents: u64,
}

/// One entry of the response body: a lower-case symbol key and its USD price.
pub struct Quote {
    pub key: String,
    pub usd: Price,
}

/// Why a fetch failed.
#[derive(Clone, Copy, Debug, PartialEq, Eq, Structural)]
pub enum FetchError {
    /// The remote API answered 429.
    RateLimited,
    /// The remote API answered 404, or answered success without the requested
    /// symbol in the body.
    NotFound,
    /// Any other non-success HTTP status, carrying that status.
    TransportError(u16),
    /// The body of a success response could not be parsed.
    ParseError,
}

/// The query URL for a symbol: the price endpoint with the symbol in ASCII
/// lower case and USD as the requested currency.
pub open spec fn price_url_spec(sym: Seq<char>) -> Seq<char> {
    "https://api.coingecko.com/api/v3/simple/price?ids="@ + lower_seq(sym)
        + "&vs_currencies=usd"@
}

/// Builds the query URL for `symbol`, lower-casing it for the `ids` parameter.
pub fn price_url(symbol: &str) -> (r: String)
    ensures
        r@ == price_url_spec(symbol@),
{
    let mut r = String::from_str("https://api.coingecko.com/api/v3/simple/price?ids=");
    let low = ascii_lower(symbol);
    r.append(low.as_str());
    r.append("&vs_currencies=usd");
    proof {
        assert(r@ =~= price_url_spec(symbol@));
    }
    r
}

/// Whether an HTTP status code counts as success (the 2xx range).
pub open spec fn is_success_status(status: u16) -> bool {
    200 <= status < 300
}

/// The price of the first entry whose key equals `key`, if any.
pub open spec fn lookup_usd(entries: Seq<Quote>, key: Seq<char>) -> Option<Price>
    decreases entries.len(),
{
    if entries.len() == 0 {
        None
    } else if entries[0].key@ == key {
        Some(entries[0].usd)
    } else {
        lookup_usd(entries.drop_first(), key)
    }
}

/// The view of an optional borrowed body.
pub open spec fn body_view(body: Option<&Vec<Quote>>) -> Option<Seq<Quote>> {
    match body {
        Some(entries) => Some(entries@),
        None => None,
    }
}

/// What a fetch yields once the response is in hand: on a success status the
/// body must have parsed and must hold the symbol's lower-case key, whose
/// price is returned unchanged; 429 is rate limiting, 404 is not-found, and
/// every other status is a transport error carrying that status.
pub open spec fn response_outcome(
    sym: Seq<char>,
    status: u16,
    body: Option<Seq<Quote>>,
) -> Result<Price, FetchError> {
    if is_success_status(status) {
        match body {
            None => Err(FetchError::ParseError),
            Some(entries) => match lookup_usd(entries, lower_seq(sym)) {
                Some(p) => Ok(p),
                None => Err(FetchError::NotFound),
            },
        }
    } else if status == 429 {
        Err(FetchError::RateLimited)
    } else if status == 404 {
        Err(FetchError::NotFound)
    } else {
        Err(FetchError::TransportError(status))
    }
}

fn find_usd(entries: &Vec<Quote>, key: &String) -> (r: Option<Price>)
    ensures
        r == lookup_usd(entries@, key@),
{
    let n = entries.len();
    let mut i: usize = 0;
    proof {
        assert(entries@.skip(0) =~= entries@);
    }
    while i < n
        invariant
            n == entries@.len(),
            i <= n,
            lookup_usd(entries@, key@) == lookup_usd(entries@.skip(i as int), key@),
        decreases n - i,
    {
        proof {
            assert(entries@.skip(i as int)[0] == entries@[i as int]);
            assert(entries@.skip(i as int).drop_first() =~= entries@.skip(i as int + 1));
        }
        if entries[i].key == *key {
            return Some(entries[i].usd);
        }
        i = i + 1;
    }
    proof {
        assert(entries@.skip(n as int) =~= Seq::<Quote>::empty());
    }
    None
}

/// Classifies one HTTP response for `symbol`. `status` is the response's
/// status code; `body` is the parsed body of a success response, or `None`
/// where it could not be parsed (it is ignored for non-success statuses).
/// The clauses below restate the outcome per case: a present key's price is
/// returned exactly as it appears in the body, an absent key is not-found,
/// 429 is rate-limited regardless of the body, 404 is not-found, and any
/// other non-success status is a transport error carrying that status.
pub fn interpret_response(symbol: &str, status: u16, body: Option<&Vec<Quote>>) -> (r: Result<
    Price,
    FetchError,
>)
    ensures
        r == response_outcome(symbol@, status, body_view(body)),
        is_success_status(status) && body is Some ==> r == (match lookup_usd(
            body_view(body).unwrap(),
            lower_seq(symbol@),
        ) {
            Some(p) => Ok::<Price, FetchError>(p),
            None => Err(FetchError::NotFound),
        }),
        status == 429 ==> r == Err::<Price, FetchError>(FetchError::RateLimited),
        status == 404 ==> r == Err::<Price, FetchError>(FetchError::NotFound),
        !is_success_status(status) && status != 429 && status != 404 ==> r == Err::<
            Price,
            FetchError,
        >(FetchError::TransportError(status)),
{
    if 200 <= status && status < 300 {
        match body {
            None => Err(FetchError::ParseError),
            Some(entries) => {
                let key = ascii_lower(symbol);
                match find_usd(entries, &key) {
                    Some(p) => Ok(p),
                    None => Err(FetchError::NotFound),
                }
            },
        }
    } else if status == 429 {
        Err(FetchError::RateLimited)
    } else if status == 404 {
        Err(FetchError::NotFound)
    } else {
        Err(FetchError::TransportError(status))
    }
}

/// The user-visible message for an error, with `sym` the display form of the
/// symbol the fetch was for.
pub open spec fn message_spec(e: FetchError, sym: Seq<char>) -> Seq<char> {
    match e {
        FetchError::RateLimited => "Rate limit exceeded. Please try again later."@,
        FetchError::NotFound => "Symbol "@ + sym + " not found"@,
        FetchError::TransportError(status) => "Failed to fetch data: HTTP "@ + dec_rep(
            status as nat,
        ),
        FetchError::ParseError => "Failed to parse price data"@,
    }
}

/// Renders the user-visible message for `e`, for the symbol `symbol`.
pub fn error_message(e: &FetchError, symbol: &str) -> (r: String)
    ensures
        r@ == message_spec(*e, symbol@),
{
    match *e {
        FetchError::RateLimited => String::from_str(
            "Rate limit exceeded. Please try again later.",
        ),
        FetchError::NotFound => {
            let mut r = String::from_str("Symbol ");
            r.append(symbol);
            r.append(" not found");
            proof {
                assert(r@ =~= message_spec(*e, symbol@));
            }
            r
        },
        FetchError::TransportError(status) => {
            let mut r = String::from_str("Failed to fetch data: HTTP ");
            let d = u64_to_dec(status as u64);
            r.append(d.as_str());
            r
        },
        FetchError::ParseError => String::from_str("Failed to parse price data"),
    }
}

/// Symbol handling is case-insensitive end to end: upper-casing a symbol for
/// display and then lower-casing it for the query gives the same query key,
/// and so the same URL, as the symbol itself; and any change of a symbol's
/// case leaves its display form, the upper-case normalization, unchanged.
pub proof fn lemma_query_case_insensitive(s: Seq<char>)
    ensures
        lower_seq(upper_seq(s)) == lower_seq(s),
        upper_seq(lower_seq(s)) == upper_seq(s),
        upper_seq(upper_seq(s)) == upper_seq(s),
        price_url_spec(upper_seq(s)) == price_url_spec(s),
{
    assert forall|i: int| 0 <= i < s.len() implies lower_seq(upper_seq(s))[i] == lower_seq(s)[i] by {
        lemma_lower_char_case_insensitive(s[i]);
    }
    assert(lower_seq(upper_seq(s)) =~= lower_seq(s));
    assert forall|i: int| 0 <= i < s.len() implies upper_seq(lower_seq(s))[i] == upper_seq(s)[i] by {
        lemma_lower_char_case_insensitive(s[i]);
    }
    assert(upper_seq(lower_seq(s)) =~= upper_seq(s));
    assert forall|i: int| 0 <= i < s.len() implies upper_seq(upper_seq(s))[i] == upper_seq(s)[i] by {
        lemma_lower_char_case_insensitive(s[i]);
    }
    assert(upper_seq(upper_seq(s)) =~= upper_seq(s));
}

} // verus!
