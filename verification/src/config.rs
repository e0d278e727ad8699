//! The process-wide settings: read once when the process starts, never
//! changed afterwards, and handed explicitly to the components that need them.

use vstd::prelude::*;
use vstd::string::*;
use vstd::utf8::encode_utf8;
use crate::decimal::{
    all_digits, digits_value, lemma_digits_extended, lemma_digits_value_grows, NINE, ZERO,
};
use crate::guard::TokenGuard;

verus! {

/// The port the server listens on.
pub const LISTEN_PORT: u16 = 8000;

/// The settings of one process.
#[derive(Debug, Clone)]
pub struct Config {
    /// Where the database is reached.
    pub database_url: String,
    /// The secret under which tokens are signed and verified.
    pub jwt_key: String,
    /// For how many seconds an issued token is valid.
    pub jwt_maxage: i64,
    /// The port the server listens on.
    pub port: u16,
}

/// The ASCII code of the sign `+`.
pub const PLUS: u8 = 43;

/// The ASCII code of the sign `-`.
pub const MINUS: u8 = 45;

/// The integer that a text denotes in decimal notation: an optional sign,
/// `+` or `-`, followed by one or more ASCII digits and nothing else.
pub open spec fn decimal_value(text: Seq<u8>) -> Option<int> {
    if text.len() == 0 {
        None
    } else {
        let signed = text[0] == PLUS || text[0] == MINUS;
        let digits = if signed {
            text.subrange(1, text.len() as int)
        } else {
            text
        };
        if digits.len() == 0 || !all_digits(digits) {
            None
        } else if text[0] == MINUS {
            Some(-digits_value(digits))
        } else {
            Some(digits_value(digits))
        }
    }
}

/// The number of seconds that a text denotes: its decimal value, where it
/// has one that fits 64 bits.
pub open spec fn parsed_seconds(text: Seq<u8>) -> Option<i64> {
    match decimal_value(text) {
        Some(value) => if i64::MIN <= value <= i64::MAX {
            Some(value as i64)
        } else {
            None
        },
        None => None,
    }
}

/// Reads a number of seconds in decimal notation, as `str::parse::<i64>`
/// does: an optional sign followed by ASCII digits, with a value that fits
/// 64 bits. Any other text has no value.
#[verifier::loop_isolation(false)]
pub fn parse_seconds(text: &str) -> (r: Option<i64>)
    ensures
        r == parsed_seconds(text.spec_bytes()),
{
    let bytes = text.as_bytes();
    let n: usize = bytes.len();
    if n == 0 {
        return None;
    }
    let negative: bool = bytes[0] == MINUS;
    let start: usize = if bytes[0] == MINUS || bytes[0] == PLUS {
        1
    } else {
        0
    };
    if start == n {
        return None;
    }
    let ghost digits = bytes@.subrange(start as int, n as int);
    assert(start == 0 ==> digits =~= bytes@);
    let mut magnitude: i128 = 0;
    let mut i: usize = start;
    while i < n
        invariant
            start <= i <= n,
            n == bytes@.len(),
            digits == bytes@.subrange(start as int, n as int),
            all_digits(digits.subrange(0, i - start)),
            magnitude == digits_value(digits.subrange(0, i - start)),
            0 <= magnitude <= 0x8000_0000_0000_0000,
        decreases n - i,
    {
        let b: u8 = bytes[i];
        if b < ZERO || b > NINE {
            assert(digits[i - start] == b);
            return None;
        }
        proof {
            lemma_digits_extended(digits, i - start);
        }
        magnitude = magnitude * 10 + (b - ZERO) as i128;
        if magnitude > 0x8000_0000_0000_0000 {
            proof {
                if all_digits(digits) {
                    lemma_digits_value_grows(digits, i + 1 - start);
                }
            }
            return None;
        }
        i += 1;
    }
    assert(digits.subrange(0, n - start) =~= digits);
    if negative {
        Some((-magnitude) as i64)
    } else if magnitude > 0x7fff_ffff_ffff_ffff {
        None
    } else {
        Some(magnitude as i64)
    }
}

impl Config {
    /// Assembles the settings from the values the process was started with:
    /// the maximum age of a token is read as a decimal number of seconds, and
    /// the server listens on `LISTEN_PORT`. There are no settings where the
    /// maximum age is not such a number.
    pub fn assemble(database_url: String, jwt_key: String, jwt_maxage: &str) -> (r: Option<Config>)
        ensures
            match parsed_seconds(jwt_maxage.spec_bytes()) {
                Some(seconds) => r matches Some(config) && config.database_url@ == database_url@
                    && config.jwt_key@ == jwt_key@ && config.jwt_maxage == seconds && config.port
                    == LISTEN_PORT,
                None => r is None,
            },
    {
        match parse_seconds(jwt_maxage) {
            Some(seconds) => Some(
                Config { database_url, jwt_key, jwt_maxage: seconds, port: LISTEN_PORT },
            ),
            None => None,
        }
    }

    /// The token guard of this process: it signs and verifies under the UTF-8
    /// bytes of the signing secret, and issues tokens of the configured maximum age.
    pub fn guard(&self) -> (guard: TokenGuard)
        ensures
            guard.secret() == encode_utf8(self.jwt_key@),
            guard.max_age() == self.jwt_maxage,
    {
        TokenGuard::new(self.jwt_key.as_str().as_bytes_vec(), self.jwt_maxage)
    }
}

} // verus!
