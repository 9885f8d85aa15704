//! The settings of the MISP-backed server: where the MISP instance is, how to
//! authenticate, and how long a request may take.
use vstd::prelude::*;

verus! {

/// The settings of the server.
#[derive(Debug, Clone)]
pub struct Config {
    /// Base URL of the MISP instance.
    pub misp_url: String,
    /// API key for authentication.
    pub api_key: String,
    /// Whether TLS certificates are verified.
    pub verify_tls: bool,
    /// Request timeout in seconds.
    pub timeout_seconds: u64,
}

/// The value of a string of decimal digits.
pub open spec fn digits_value(s: Seq<char>) -> int
    decreases s.len(),
{
    if s.len() == 0 {
        0
    } else {
        digits_value(s.drop_last()) * 10 + (s.last() as int - '0' as int)
    }
}

/// An unsigned decimal number: an optional `+`, then at least one digit,
/// with a value that fits in 64 bits.
pub open spec fn decimal_u64(s: Seq<char>) -> Option<u64> {
    let d = if s.len() > 0 && s[0] == '+' { s.drop_first() } else { s };
    if d.len() > 0 && (forall|i: int| 0 <= i < d.len() ==> '0' <= #[trigger] d[i] <= '9')
        && digits_value(d) <= u64::MAX {
        Some(digits_value(d) as u64)
    } else {
        None
    }
}

/// Relies on `u64`'s `FromStr`: an optional `+` followed by digits only, and
/// no overflow.
#[verifier::external_body]
fn parse_u64(s: &str) -> (r: Option<u64>)
    ensures
        r == decimal_u64(s@),
{
    s.parse::<u64>().ok()
}

impl Config {
    /// Settings from their textual values; a timeout that is no unsigned
    /// decimal number is refused with a message that quotes it.
    pub fn from_values(misp_url: String, api_key: String, verify_tls: bool, timeout: &str) -> (r: Result<Config, String>)
        ensures
            r is Ok <==> decimal_u64(timeout@) is Some,
            r matches Ok(c) ==> c.misp_url == misp_url && c.api_key == api_key
                && c.verify_tls == verify_tls && Some(c.timeout_seconds) == decimal_u64(timeout@),
            r matches Err(m) ==> m@ == "Invalid timeout value: "@ + timeout@,
    {
        match parse_u64(timeout) {
            Some(timeout_seconds) => Ok(Config { misp_url, api_key, verify_tls, timeout_seconds }),
            None => {
                let mut message = String::from_str("Invalid timeout value: ");
                message.append(timeout);
                Err(message)
            },
        }
    }
}

} // verus!
