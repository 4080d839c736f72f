//! Calls into `std`, `base64`, `reqwest` and `serde_json` whose results the
//! library relies on. Each contract here is trusted, not proved.

use vstd::prelude::*;
use base64::Engine;

verus! {

/// The Unicode lowercase mapping of a string (`str::to_lowercase`).
pub uninterp spec fn lowercase_of(s: Seq<char>) -> Seq<char>;

/// The Unicode uppercase mapping of a string (`str::to_uppercase`).
pub uninterp spec fn uppercase_of(s: Seq<char>) -> Seq<char>;

/// The character of a 6-bit value in the standard Base64 alphabet
/// (`A`–`Z`, `a`–`z`, `0`–`9`, `+`, `/`).
pub open spec fn base64_char(v: nat) -> char {
    if v < 26 {
        (65 + v) as char
    } else if v < 52 {
        (97 + (v - 26)) as char
    } else if v < 62 {
        (48 + (v - 52)) as char
    } else if v == 62 {
        '+'
    } else {
        '/'
    }
}

/// Standard Base64 of some bytes: each group of three bytes becomes four
/// characters; a last group of one or two bytes is padded with `=`.
pub open spec fn base64_of_bytes(b: Seq<u8>) -> Seq<char>
    decreases b.len(),
{
    if b.len() == 0 {
        Seq::empty()
    } else if b.len() == 1 {
        let x = b[0] as nat;
        seq![base64_char(x / 4), base64_char((x % 4) * 16), '=', '=']
    } else if b.len() == 2 {
        let x = b[0] as nat;
        let y = b[1] as nat;
        seq![base64_char(x / 4), base64_char((x % 4) * 16 + y / 16), base64_char((y % 16) * 4), '=']
    } else {
        let x = b[0] as nat;
        let y = b[1] as nat;
        let z = b[2] as nat;
        seq![base64_char(x / 4), base64_char((x % 4) * 16 + y / 16), base64_char((y % 16) * 4 + z / 64), base64_char(z % 64)]
            + base64_of_bytes(b.skip(3))
    }
}

/// The padded standard-alphabet Base64 text of the UTF-8 bytes of a string.
pub open spec fn base64_standard_of(s: Seq<char>) -> Seq<char> {
    base64_of_bytes(vstd::utf8::encode_utf8(s))
}

/// A lowercase hexadecimal digit.
pub open spec fn hex_digit(d: nat) -> char {
    if d < 10 {
        (48 + d) as char
    } else {
        (87 + d) as char
    }
}

/// How `serde_json` writes one character inside a string: `"` and `\` and
/// the control characters below U+0020 escaped (`\b`, `\t`, `\n`, `\f`,
/// `\r`, else `\u00` and two lowercase hex digits), any other as it is.
pub open spec fn json_char_escape(c: char) -> Seq<char> {
    if c == '"' {
        seq!['\\', '"']
    } else if c == '\\' {
        seq!['\\', '\\']
    } else if c == '\u{8}' {
        seq!['\\', 'b']
    } else if c == '\t' {
        seq!['\\', 't']
    } else if c == '\n' {
        seq!['\\', 'n']
    } else if c == '\u{c}' {
        seq!['\\', 'f']
    } else if c == '\r' {
        seq!['\\', 'r']
    } else if (c as nat) < 32 {
        seq!['\\', 'u', '0', '0', hex_digit((c as nat) / 16), hex_digit((c as nat) % 16)]
    } else {
        seq![c]
    }
}

/// The characters of `s`, each written as `json_char_escape` writes it.
pub open spec fn json_escaped(s: Seq<char>) -> Seq<char>
    decreases s.len(),
{
    if s.len() == 0 {
        Seq::empty()
    } else {
        json_escaped(s.drop_last()) + json_char_escape(s.last())
    }
}

/// The JSON string literal that `serde_json` writes for a string: a quote,
/// the escaped characters, a quote.
pub open spec fn json_string_literal_of(s: Seq<char>) -> Seq<char> {
    seq!['"'] + json_escaped(s) + seq!['"']
}

/// The reason phrase that the HTTP registry gives a status code, if any.
pub uninterp spec fn canonical_reason_of(code: u16) -> Option<Seq<char>>;

/// `std`'s `str::to_lowercase`: the result is the Unicode lowercase mapping
/// of `s`, a function of `s` alone (named, not spelled out).
#[verifier::external_body]
pub(crate) fn to_lowercase(s: &str) -> (r: String)
    ensures
        r@ == lowercase_of(s@),
{
    s.to_lowercase()
}

/// `std`'s `str::to_uppercase`: the result is the Unicode uppercase mapping
/// of `s`, a function of `s` alone (named, not spelled out).
#[verifier::external_body]
pub(crate) fn to_uppercase(s: &str) -> (r: String)
    ensures
        r@ == uppercase_of(s@),
{
    s.to_uppercase()
}

/// The padded Base64 length of the UTF-8 bytes of `s` fits in a `usize`.
pub open spec fn base64_fits(s: Seq<char>) -> bool {
    vstd::utf8::encode_utf8(s).len() / 3 * 4 + 4 <= usize::MAX
}

/// `base64`'s `Engine::encode` with the `STANDARD` engine on the UTF-8
/// bytes of `s`: the result is their padded standard Base64 text. The crate
/// panics when the output length overflows `usize`; the bound on the input
/// rules that out.
#[verifier::external_body]
pub(crate) fn base64_standard(s: &str) -> (r: String)
    requires
        base64_fits(s@),
    ensures
        r@ == base64_standard_of(s@),
{
    base64::engine::general_purpose::STANDARD.encode(s)
}

/// `serde_json::to_string` on a string: the quoted, escaped JSON literal of
/// `s` (see `json_string_literal_of`). Serialising a string cannot fail.
#[verifier::external_body]
pub(crate) fn json_string_literal(s: &str) -> (r: String)
    ensures
        r@ == json_string_literal_of(s@),
{
    match serde_json::to_string(s) {
        Ok(t) => t,
        Err(_) => String::new(),
    }
}

/// A byte that HTTP allows in a method name (an RFC 9110 `tchar`).
pub open spec fn is_token_char(c: char) -> bool {
    ||| ('a' <= c && c <= 'z')
    ||| ('A' <= c && c <= 'Z')
    ||| ('0' <= c && c <= '9')
    ||| c == '!' || c == '#' || c == '$' || c == '%' || c == '&' || c == '\''
    ||| c == '*' || c == '+' || c == '-' || c == '.' || c == '^' || c == '_'
    ||| c == '`' || c == '|' || c == '~'
}

/// A method name that `reqwest::Method::from_bytes` accepts.
pub open spec fn valid_method(s: Seq<char>) -> bool {
    s.len() > 0 && forall|i: int| 0 <= i < s.len() ==> is_token_char(#[trigger] s[i])
}

/// `reqwest::Method::from_bytes` on the bytes of `s`: it succeeds exactly
/// when `s` is non-empty and made of token characters (the crate's table
/// `METHOD_CHARS`; every other byte, non-ASCII ones included, is refused).
#[verifier::external_body]
pub(crate) fn method_accepted(s: &str) -> (r: bool)
    ensures
        r == valid_method(s@),
{
    reqwest::Method::from_bytes(s.as_bytes()).is_ok()
}

/// `reqwest::StatusCode::canonical_reason` of `code` (`None` also when
/// `StatusCode::from_u16` refuses the code).
#[verifier::external_body]
pub(crate) fn canonical_reason(code: u16) -> (r: Option<String>)
    ensures
        r is Some <==> canonical_reason_of(code) is Some,
        r matches Some(t) ==> Some(t@) == canonical_reason_of(code),
{
    match reqwest::StatusCode::from_u16(code) {
        Ok(st) => st.canonical_reason().map(String::from),
        Err(_) => None,
    }
}

} // verus!
