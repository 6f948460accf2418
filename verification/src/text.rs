//! Text that goes into failure reasons: bytes read as UTF-8 and bytes
//! written as hexadecimal digits.

use crate::{DecodeError, DecodeErrorKind, ErrorView};
use vstd::prelude::*;
use vstd::string::*;
use vstd::utf8::*;

verus! {

/// `std::str::Utf8Error`, carried through as an opaque value.
#[verifier::external_type_specification]
#[verifier::external_body]
pub struct ExUtf8Error(std::str::Utf8Error);

/// The error that `std::str::from_utf8` reports for bytes that are not
/// UTF-8.
pub uninterp spec fn utf8_error(bytes: Seq<u8>) -> std::str::Utf8Error;

/// The text that a `std::str::Utf8Error` renders through `Display`.
pub uninterp spec fn utf8_error_text(err: std::str::Utf8Error) -> Seq<char>;

/// `std::str::from_utf8` accepts exactly the byte strings that are valid
/// UTF-8 and hands them back unchanged as text; for any other byte string
/// it reports an error that the bytes alone determine.
pub assume_specification[ core::str::from_utf8 ](v: &[u8]) -> (r: Result<
    &str,
    std::str::Utf8Error,
>)
    ensures
        r is Ok <==> valid_utf8(v@),
        r matches Ok(s) ==> s.spec_bytes() == v@,
        r matches Err(e) ==> e == utf8_error(v@),
;

/// `Utf8Error::to_string`: the text of the error, which its value alone
/// determines.
#[verifier::external_body]
pub(crate) fn utf8_error_message(err: &std::str::Utf8Error) -> (message: String)
    ensures
        message@ == utf8_error_text(*err),
{
    err.to_string()
}

/// The failure that bytes which are not UTF-8 give when read as text.
pub open spec fn malformed_text(bytes: Seq<u8>) -> ErrorView {
    ErrorView { kind: DecodeErrorKind::BadData, reason: utf8_error_text(utf8_error(bytes)) }
}

/// Reads bytes as UTF-8 text.
pub fn decode_text(bytes: &[u8]) -> (r: Result<String, DecodeError>)
    ensures
        r is Ok <==> valid_utf8(bytes@),
        r matches Ok(s) ==> s@ == decode_utf8(bytes@),
        r matches Err(e) ==> e@ == malformed_text(bytes@),
{
    match core::str::from_utf8(bytes) {
        Ok(s) => {
            proof {
                encode_utf8_decode_utf8(s@);
            }
            Ok(String::from_str(s))
        },
        Err(err) => Err(DecodeError::from(err)),
    }
}

/// The sixteen hexadecimal digits in their order, letters in upper case.
pub const HEX_DIGITS: &'static str = "0123456789ABCDEF";

/// A byte as two upper-case hexadecimal digits, the high one first.
pub open spec fn hex_byte_text(b: u8) -> Seq<char> {
    seq![HEX_DIGITS@[b as int / 16], HEX_DIGITS@[b as int % 16]]
}

fn hex_digit(n: u8) -> (s: &'static str)
    requires
        n < 16,
    ensures
        s@ == seq![HEX_DIGITS@[n as int]],
{
    proof {
        reveal_strlit("0123456789ABCDEF");
    }
    let s = HEX_DIGITS.substring_ascii(n as usize, n as usize + 1);
    s
}

/// Writes a byte as two upper-case hexadecimal digits.
pub fn hex_byte(b: u8) -> (s: String)
    ensures
        s@ == hex_byte_text(b),
{
    let mut s = String::from_str(hex_digit(b / 16));
    s.append(hex_digit(b % 16));
    s
}

} // verus!
