//! Searching for games by name: the request URL and the record of a hit.

use vstd::prelude::*;
use vstd::string::StringSliceAdditionalSpecFns;

verus! {

/// Tells whether a byte stands for itself in a percent-encoded text: an
/// ASCII letter, an ASCII digit, or one of `-`, `.`, `_`, `~`.
pub open spec fn is_unreserved(b: u8) -> bool {
    ||| 0x30 <= b <= 0x39
    ||| 0x41 <= b <= 0x5a
    ||| 0x61 <= b <= 0x7a
    ||| b == 0x2d
    ||| b == 0x2e
    ||| b == 0x5f
    ||| b == 0x7e
}

/// The upper-case hexadecimal digit of a value below sixteen.
pub open spec fn hex_digit(n: int) -> char
    recommends
        0 <= n < 16,
{
    if n < 10 {
        (0x30 + n) as u8 as char
    } else {
        (0x41 + n - 10) as u8 as char
    }
}

/// One byte, percent-encoded: itself where it is unreserved, else `%` and
/// its two hexadecimal digits.
pub open spec fn percent_encoded_byte(b: u8) -> Seq<char> {
    if is_unreserved(b) {
        seq![b as char]
    } else {
        seq!['%', hex_digit(b as int / 16), hex_digit(b as int % 16)]
    }
}

/// A sequence of bytes, percent-encoded byte by byte.
pub open spec fn percent_encoded(bytes: Seq<u8>) -> Seq<char>
    decreases bytes.len(),
{
    if bytes.len() == 0 {
        Seq::empty()
    } else {
        percent_encoded(bytes.drop_last()) + percent_encoded_byte(bytes.last())
    }
}

/// Percent-encodes a text with `urlencoding::encode`.
///
/// Assumed of `urlencoding::encode`, not proved: it walks the UTF-8 bytes
/// of the text, keeps each ASCII letter, ASCII digit and each of `-`, `.`,
/// `_`, `~`, and replaces every other byte by `%` and the byte's two
/// upper-case hexadecimal digits.
#[verifier::external_body]
fn url_encode(text: &str) -> (encoded: String)
    ensures
        encoded@ == percent_encoded(text.spec_bytes()),
{
    urlencoding::encode(text).into_owned()
}

/// Get the url to search for the given query
pub fn get_search_url(base_url: &str, qeury: &str) -> (url: String)
    ensures
        url@ == base_url@ + "/search/autocomplete/"@ + percent_encoded(qeury.spec_bytes()),
{
    let mut url = base_url.to_owned();
    url.append("/search/autocomplete/");
    url.append(url_encode(qeury).as_str());
    url
}

/// A search result from the search API
#[derive(Debug, Clone, PartialEq, Eq)]
pub struct SearchResult {
    /// The name of the game
    pub name: String,
    /// The release date of the game
    pub release_date: Option<usize>,
    /// Is this game verified?
    pub verified: bool,
    /// The id of the game
    pub id: usize,
    /// The platform types of this game
    pub types: Vec<String>,
}

} // verus!
