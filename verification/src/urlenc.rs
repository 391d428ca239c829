//! Percent-encoding of key names before they enter a URL path. The encoding
//! itself is done by the urlencoding crate behind a trusted wrapper, against
//! an exact byte-level description.

use vstd::prelude::*;
use vstd::string::StringSliceAdditionalSpecFns;

verus! {

/// Bytes that pass through unencoded: ASCII alphanumerics and `- . _ ~`.
pub open spec fn is_url_safe(b: u8) -> bool {
    (48 <= b <= 57) || (65 <= b <= 90) || (97 <= b <= 122) || b == 45 || b == 46 || b == 95 || b
        == 126
}

/// Uppercase hexadecimal digit for a nibble.
pub open spec fn hex_upper(d: u8) -> char
    recommends
        d < 16,
{
    if d < 10 {
        ((48 + d) as u8) as char
    } else {
        ((55 + d) as u8) as char
    }
}

/// Percent-encoding of a byte string: safe bytes stay, every other byte
/// becomes `%` plus two uppercase hex digits.
pub open spec fn percent_encoding(bs: Seq<u8>) -> Seq<char>
    decreases bs.len(),
{
    if bs.len() == 0 {
        Seq::<char>::empty()
    } else {
        (if is_url_safe(bs[0]) {
            seq![bs[0] as char]
        } else {
            seq!['%', hex_upper(bs[0] / 16), hex_upper(bs[0] % 16)]
        }) + percent_encoding(bs.skip(1))
    }
}

/// Relies on urlencoding::encode: percent-encodes every byte except ASCII
/// alphanumerics and `- . _ ~`, with uppercase hex digits.
#[verifier::external_body]
pub(crate) fn percent_encode(s: &str) -> (r: String)
    ensures
        r@ == percent_encoding(s.spec_bytes()),
{
    urlencoding::encode(s).into_owned()
}

} // verus!
