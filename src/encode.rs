use vstd::prelude::*;

verus! {

#[verifier::external_type_specification]
#[verifier::external_body]
pub struct ExJsonError(serde_json::Error);

/// The unpadded URL-safe base64 text of `bytes`.
pub uninterp spec fn base64url_of(bytes: Seq<u8>) -> Seq<char>;

/// The lower-case hexadecimal digit of `n`, for `n < 16`.
pub open spec fn hex_digit(n: int) -> char {
    seq!['0', '1', '2', '3', '4', '5', '6', '7', '8', '9', 'a', 'b', 'c', 'd', 'e', 'f'][n]
}

/// How one character stands inside a JSON string literal: quote, backslash
/// and the control characters are escaped, the short forms where JSON has
/// them and `\u00XX` otherwise; every other character stands for itself.
pub open spec fn json_escaped(c: char) -> Seq<char> {
    let n = c as u32;
    if c == '"' {
        seq!['\\', '"']
    } else if c == '\\' {
        seq!['\\', '\\']
    } else if n == 0x08 {
        seq!['\\', 'b']
    } else if n == 0x09 {
        seq!['\\', 't']
    } else if n == 0x0a {
        seq!['\\', 'n']
    } else if n == 0x0c {
        seq!['\\', 'f']
    } else if n == 0x0d {
        seq!['\\', 'r']
    } else if n < 0x20 {
        seq!['\\', 'u', '0', '0', hex_digit(n as int / 16), hex_digit(n as int % 16)]
    } else {
        seq![c]
    }
}

/// The JSON string literal, quotes and escapes included, that holds `s`.
pub open spec fn json_quoted(s: Seq<char>) -> Seq<char> {
    seq!['"'] + s.map_values(|c: char| json_escaped(c)).flatten() + seq!['"']
}

/// A character of the URL-safe base64 alphabet: letters, digits, `-`, `_`.
pub open spec fn url_safe_char(c: char) -> bool {
    let n = c as u32;
    (0x41 <= n <= 0x5a) || (0x61 <= n <= 0x7a) || (0x30 <= n <= 0x39) || c == '-' || c == '_'
}

/// Text made of URL-safe base64 characters only.
pub open spec fn url_safe_text(s: Seq<char>) -> bool {
    forall|i: int| 0 <= i < s.len() ==> url_safe_char(#[trigger] s[i])
}

/// Relies on base64::encode_config with URL_SAFE_NO_PAD: the encoding
/// depends on the bytes alone. It panics only when the encoded length
/// overflows `usize`, which no slice that fits in memory reaches. Without
/// padding, each 3 bytes give 4 characters and a remainder of 1 or 2 bytes
/// gives 2 or 3 (`encoded_size`), all from the URL-safe alphabet.
#[verifier::external_body]
pub(crate) fn base64url(bytes: &[u8]) -> (r: String)
    ensures
        r@ == base64url_of(bytes@),
        r@.len() == (4 * bytes@.len() + 2) / 3,
        url_safe_text(r@),
{
    base64::encode_config(bytes, base64::URL_SAFE_NO_PAD)
}

/// Relies on serde_json::to_string on a `str`: the JSON string literal that
/// holds the text, escaped as its `format_escaped_str` does. It writes into a
/// `Vec`, which never fails, so the result is always `Ok`.
#[verifier::external_body]
pub(crate) fn json_quote(s: &str) -> (r: Result<String, serde_json::Error>)
    ensures
        r is Ok,
        r->Ok_0@ == json_quoted(s@),
{
    serde_json::to_string(s)
}

} // verus!
