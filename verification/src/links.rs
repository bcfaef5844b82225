//! The confirmation link, and the percent-encoding of the request key
//! inside it.

use crate::text::digit_char;
use vstd::prelude::*;
use vstd::string::*;
use vstd::utf8::*;

verus! {

/// `b` is an ASCII letter or digit, or one of `-`, `.`, `_`, `~`.
pub open spec fn is_unreserved(b: u8) -> bool {
    (0x30 <= b && b <= 0x39) || (0x41 <= b && b <= 0x5a) || (0x61 <= b && b <= 0x7a) || b == 0x2d
        || b == 0x2e || b == 0x5f || b == 0x7e
}

/// The upper-case hexadecimal digit of `n` (`0 <= n <= 15`).
pub open spec fn upper_hex_digit(n: nat) -> char {
    if n < 10 {
        digit_char(n)
    } else if n == 10 {
        'A'
    } else if n == 11 {
        'B'
    } else if n == 12 {
        'C'
    } else if n == 13 {
        'D'
    } else if n == 14 {
        'E'
    } else {
        'F'
    }
}

/// One byte in percent-encoding: itself where it is unreserved, else `%`
/// and its two hexadecimal digits.
pub open spec fn percent_encoded_byte(b: u8) -> Seq<char> {
    if is_unreserved(b) {
        seq![b as char]
    } else {
        seq!['%', upper_hex_digit((b / 16) as nat), upper_hex_digit((b % 16) as nat)]
    }
}

/// A byte string in percent-encoding.
pub open spec fn percent_encoded_bytes(bytes: Seq<u8>) -> Seq<char>
    decreases bytes.len(),
{
    if bytes.len() == 0 {
        Seq::empty()
    } else {
        percent_encoded_bytes(bytes.drop_last()) + percent_encoded_byte(bytes.last())
    }
}

/// A text in percent-encoding: that of its bytes in UTF-8.
pub open spec fn percent_encoded(text: Seq<char>) -> Seq<char> {
    percent_encoded_bytes(encode_utf8(text))
}

/// The link that confirms the request `pk` for the holder of `signature`.
pub open spec fn confirmation_link(base: Seq<char>, pk: Seq<char>, signature: Seq<char>) -> Seq<
    char,
> {
    base + "/confirm?principal="@ + percent_encoded(pk) + "&signature="@ + signature
}

/// Percent-encodes `text` with `urlencoding::encode`: every byte of its
/// UTF-8 form but ASCII letters, digits and `-`, `.`, `_`, `~` becomes `%`
/// and two upper-case hexadecimal digits.
#[verifier::external_body]
pub(crate) fn percent_encode(text: &str) -> (encoded: String)
    ensures
        encoded@ == percent_encoded(text@),
{
    urlencoding::encode(text).into_owned()
}

/// The link that confirms the request `pk` for the holder of `signature`.
pub fn confirmation_link_for(link_base: &str, pk: &str, signature: &str) -> (link: String)
    ensures
        link@ == confirmation_link(link_base@, pk@, signature@),
{
    let encoded = percent_encode(pk);
    let mut link = String::from_str(link_base);
    link.append("/confirm?principal=");
    link.append(encoded.as_str());
    link.append("&signature=");
    link.append(signature);
    link
}

} // verus!
