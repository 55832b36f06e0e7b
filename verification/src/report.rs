//! The dispatcher's compute side: one fetch task per input symbol, and the
//! output line for each symbol's outcome. The concurrency itself (one task
//! spawned per symbol, all awaited) lives outside the library.

use vstd::prelude::*;

use crate::api::{lemma_query_case_insensitive, message_spec, price_url, price_url_spec};
use crate::api::{error_message, FetchError, Price};
use crate::text::{ascii_upper, upper_seq, usd_dec, usd_rep};

verus! {

/// The success line for a symbol's price.
pub open spec fn price_line_spec(sym: Seq<char>, p: Price) -> Seq<char> {
    "The current price of "@ + sym + " is $"@ + usd_rep(p.cents as nat)
}

/// The error line for a symbol, with an arbitrary message.
pub open spec fn error_line_spec(sym: Seq<char>, message: Seq<char>) -> Seq<char> {
    "Error fetching price data for "@ + sym + ": "@ + message
}

/// One line of output: its text, and whether it belongs on the error stream.
pub struct ReportLine {
    pub is_error: bool,
    pub text: String,
}

/// One unit of work for the dispatcher: the display form of a symbol and the
/// URL its fetch must query.
pub struct FetchTask {
    pub display: String,
    pub url: String,
}

/// Builds the success line for `symbol_display` and price `p`.
pub fn price_line(symbol_display: &str, p: Price) -> (r: String)
    ensures
        r@ == price_line_spec(symbol_display@, p),
{
    let mut r = String::from_str("The current price of ");
    r.append(symbol_display);
    r.append(" is $");
    let d = usd_dec(p.cents);
    r.append(d.as_str());
    proof {
        assert(r@ =~= price_line_spec(symbol_display@, p));
    }
    r
}

/// Builds the error line for `symbol_display` carrying `message`.
pub fn error_line(symbol_display: &str, message: &str) -> (r: String)
    ensures
        r@ == error_line_spec(symbol_display@, message@),
{
    let mut r = String::from_str("Error fetching price data for ");
    r.append(symbol_display);
    r.append(": ");
    r.append(message);
    proof {
        assert(r@ =~= error_line_spec(symbol_display@, message@));
    }
    r
}

/// Turns one symbol's outcome into its output line: a success line for a
/// price, and an error line (for the error stream) carrying the error's
/// user-visible message for a failure. One outcome yields one line, from that
/// symbol and outcome alone.
pub fn report_line(symbol_display: &str, outcome: Result<Price, FetchError>) -> (r: ReportLine)
    ensures
        match outcome {
            Ok(p) => !r.is_error && r.text@ == price_line_spec(symbol_display@, p),
            Err(e) => r.is_error && r.text@ == error_line_spec(
                symbol_display@,
                message_spec(e, symbol_display@),
            ),
        },
{
    match outcome {
        Ok(p) => {
            let text = price_line(symbol_display, p);
            ReportLine { is_error: false, text }
        },
        Err(e) => {
            let msg = error_message(&e, symbol_display);
            let text = error_line(symbol_display, msg.as_str());
            ReportLine { is_error: true, text }
        },
    }
}

/// Plans one fetch task per input symbol, in input order, duplicates kept:
/// each task holds the symbol's upper-case display form and the query URL
/// built from the symbol, and depends on that symbol alone. Since the URL
/// lower-cases the symbol, building it from the display form changes nothing.
pub fn dispatch_plan(symbols: &Vec<String>) -> (r: Vec<FetchTask>)
    ensures
        r@.len() == symbols@.len(),
        forall|i: int|
            0 <= i < symbols@.len() ==> (#[trigger] r@[i]).display@ == upper_seq(symbols@[i]@)
                && r@[i].url@ == price_url_spec(symbols@[i]@),
{
    let n = symbols.len();
    let mut r: Vec<FetchTask> = Vec::new();
    let mut i: usize = 0;
    while i < n
        invariant
            n == symbols@.len(),
            i <= n,
            r@.len() == i,
            forall|j: int|
                0 <= j < i ==> (#[trigger] r@[j]).display@ == upper_seq(symbols@[j]@)
                    && r@[j].url@ == price_url_spec(symbols@[j]@),
        decreases n - i,
    {
        let display = ascii_upper(symbols[i].as_str());
        let url = price_url(display.as_str());
        proof {
            lemma_query_case_insensitive(symbols@[i as int]@);
        }
        r.push(FetchTask { display, url });
        i = i + 1;
    }
    r
}

} // verus!
