//! The address of a search: the results page with the query percent-encoded.

use vstd::prelude::*;
use vstd::string::StringExecFns;
use vstd::string::StringSliceAdditionalSpecFns;

verus! {

/// The address of the results page, up to the query.
pub const RESULTS_URL_PREFIX: &'static str = "https://developer.android.com/s/results?q=";

/// Bytes that stand for themselves in an encoded query: ASCII letters and
/// digits and the marks `-`, `.`, `_`, `~`.
pub open spec fn is_unreserved(b: u8) -> bool {
    ||| 0x30 <= b <= 0x39
    ||| 0x41 <= b <= 0x5a
    ||| 0x61 <= b <= 0x7a
    ||| b == 0x2d
    ||| b == 0x2e
    ||| b == 0x5f
    ||| b == 0x7e
}

/// The upper-case hexadecimal digit for `n`.
pub open spec fn hex_digit(n: u8) -> char
    recommends
        n < 16,
{
    if n < 10 {
        (0x30 + n) as char
    } else {
        (0x41 + n - 10) as char
    }
}

/// One byte as it stands in an encoded query: itself when unreserved, else
/// `%` and its two hexadecimal digits.
pub open spec fn escaped(b: u8) -> Seq<char> {
    if is_unreserved(b) {
        seq![b as char]
    } else {
        seq!['%', hex_digit(b / 16), hex_digit(b % 16)]
    }
}

/// A run of bytes, each as it stands in an encoded query.
pub open spec fn percent_encoded(bytes: Seq<u8>) -> Seq<char>
    decreases bytes.len(),
{
    if bytes.len() == 0 {
        Seq::empty()
    } else {
        percent_encoded(bytes.drop_last()) + escaped(bytes.last())
    }
}

/// Calls `urlencoding::encode`. The contract restates what that function
/// does: it walks the UTF-8 bytes of `text`, copies each unreserved byte and
/// writes every other byte as `%` and two upper-case hexadecimal digits.
#[verifier::external_body]
fn percent_encode(text: &str) -> (encoded: String)
    ensures
        encoded@ == percent_encoded(text.spec_bytes()),
{
    urlencoding::encode(text).into_owned()
}

/// The address of the results page for `query`.
pub fn search_url(query: &str) -> (url: String)
    ensures
        url@ == RESULTS_URL_PREFIX@ + percent_encoded(query.spec_bytes()),
{
    let mut url = String::from_str(RESULTS_URL_PREFIX);
    let encoded = percent_encode(query);
    url.append(encoded.as_str());
    url
}

} // verus!
