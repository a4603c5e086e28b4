//! The discovery protocol: which datagram asks for the server, and what the
//! server answers.

use vstd::prelude::*;
use crate::text::{decimal_digits, decimal_text, same_chars, chars_of, trim_bounds, trimmed};

verus! {

/// The UDP port on which discovery requests arrive.
pub const DISCOVERY_PORT: u16 = 32227;

/// The text of a discovery request.
pub const DISCOVERY_MESSAGE: &'static str = "alpacadiscovery1";

/// Whether a datagram is a discovery request: it is, where its text without
/// the whitespace around it is the discovery message.
pub fn is_discovery_request(message: &str) -> (r: bool)
    ensures
        r == (trimmed(message@) == DISCOVERY_MESSAGE@),
{
    let chars = chars_of(message);
    let (start, end) = trim_bounds(&chars);
    let core = chars_of(message.substring_char(start, end));
    let wanted = chars_of(DISCOVERY_MESSAGE);
    same_chars(&core, &wanted)
}

/// The answer to a discovery request: a JSON object that names the port of
/// the web interface.
pub open spec fn discovery_answer(alpaca_port: u16) -> Seq<char> {
    "{\"AlpacaPort\":"@ + decimal_digits(alpaca_port as nat) + "}"@
}

/// Writes the answer to a discovery request.
pub fn discovery_response(alpaca_port: u16) -> (r: String)
    ensures
        r@ == discovery_answer(alpaca_port),
{
    let digits = decimal_text(alpaca_port as u64);
    String::from_str("{\"AlpacaPort\":").concat(digits.as_str()).concat("}")
}

} // verus!
