//! Text that arrives encoded: percent-encoded paths and raw path bytes.

use vstd::prelude::*;
use vstd::string::StringSliceAdditionalSpecFns;
use vstd::utf8::{
    decode_utf8, encode_utf8, is_ascii_chars, is_ascii_chars_encode_utf8, valid_utf8,
};

verus! {

/// The value of a hexadecimal digit, for the ASCII digits and the letters
/// `a` to `f` in either case.
pub open spec fn hex_value(b: u8) -> Option<u8> {
    if 0x30 <= b <= 0x39 {
        Some((b - 0x30) as u8)
    } else if 0x41 <= b <= 0x46 {
        Some((b - 0x41 + 10) as u8)
    } else if 0x61 <= b <= 0x66 {
        Some((b - 0x61 + 10) as u8)
    } else {
        None
    }
}

/// Percent-decoding of a byte string: each `%` that two hexadecimal digits
/// follow stands for the byte they spell; every other byte stands for itself.
pub open spec fn percent_decoded(bytes: Seq<u8>) -> Seq<u8>
    decreases bytes.len(),
{
    if bytes.len() == 0 {
        bytes
    } else if bytes[0] == 0x25 && bytes.len() >= 3 && hex_value(bytes[1]) is Some && hex_value(
        bytes[2],
    ) is Some {
        seq![(hex_value(bytes[1])->0 * 16 + hex_value(bytes[2])->0) as u8] + percent_decoded(
            bytes.skip(3),
        )
    } else {
        seq![bytes[0]] + percent_decoded(bytes.skip(1))
    }
}

/// Calls `percent_encoding::percent_decode_str` and `decode_utf8` on its
/// result: the percent-decoded bytes of `input` read as UTF-8, or `None` where
/// they are not well-formed UTF-8.
#[verifier::external_body]
pub(crate) fn percent_decode_text(input: &str) -> (text: Option<String>)
    ensures
        text is Some <==> valid_utf8(percent_decoded(input.spec_bytes())),
        text matches Some(t) ==> t@ == decode_utf8(percent_decoded(input.spec_bytes())),
{
    match percent_encoding::percent_decode_str(input).decode_utf8() {
        Ok(t) => Some(t.into_owned()),
        Err(_) => None,
    }
}

/// Calls `std::str::from_utf8`: the text that `bytes` encode, or `None` where
/// they are not well-formed UTF-8.
#[verifier::external_body]
pub(crate) fn text_of_bytes(bytes: &Vec<u8>) -> (text: Option<String>)
    ensures
        text is Some <==> valid_utf8(bytes@),
        text matches Some(t) ==> t@ == decode_utf8(bytes@),
{
    match std::str::from_utf8(bytes) {
        Ok(t) => Some(t.to_owned()),
        Err(_) => None,
    }
}

/// Calls `str::eq`: whether two strings are the same text.
#[verifier::external_body]
pub(crate) fn same_text(a: &str, b: &str) -> (same: bool)
    ensures
        same == (a@ == b@),
{
    a == b
}

/// The character of a decimal digit.
pub open spec fn digit_char(digit: nat) -> char {
    ((0x30 + digit) as u8) as char
}

/// The decimal numeral of `n`, without leading zeros.
pub open spec fn decimal_digits(n: nat) -> Seq<char>
    decreases n,
{
    if n < 10 {
        seq![digit_char(n)]
    } else {
        decimal_digits(n / 10).push(digit_char(n % 10))
    }
}

/// Calls `to_string` on a `usize`: its decimal numeral.
#[verifier::external_body]
pub(crate) fn decimal_text(n: usize) -> (text: String)
    ensures
        text@ == decimal_digits(n as nat),
{
    n.to_string()
}

/// A path with the slash before a drive letter taken off: where the second
/// byte after a leading `/` is `:`, the path without its first byte, else the
/// path as it is.
pub open spec fn without_drive_slash(path: Seq<char>) -> Seq<char> {
    let bytes = encode_utf8(path);
    if bytes.len() > 2 && bytes[0] == 0x2f && bytes[2] == 0x3a {
        decode_utf8(bytes.skip(1))
    } else {
        path
    }
}

/// Takes the slash before a drive letter off a path.
pub fn strip_drive_slash(path: String) -> (stripped: String)
    ensures
        stripped@ == without_drive_slash(path@),
{
    broadcast use vstd::utf8::encode_utf8_decode_utf8;

    let bytes = path.as_str().as_bytes();
    if bytes.len() > 2 && bytes[0] == 0x2f && bytes[2] == 0x3a {
        proof {
            vstd::utf8::encode_utf8_valid_utf8(path@);
            reveal_with_fuel(valid_utf8, 2);
            reveal_with_fuel(vstd::utf8::is_char_boundary, 2);
            assert(vstd::utf8::is_char_boundary(bytes@, 1));
        }
        let (_, rest) = path.as_str().split_at(1);
        assert(rest.spec_bytes() =~= bytes@.skip(1));
        rest.to_owned()
    } else {
        path
    }
}

/// Bytes without a `%` among them stand for themselves.
pub proof fn percent_free_bytes_decode_to_themselves(bytes: Seq<u8>)
    requires
        forall|i: int| 0 <= i < bytes.len() ==> bytes[i] != 0x25,
    ensures
        percent_decoded(bytes) == bytes,
    decreases bytes.len(),
{
    if bytes.len() > 0 {
        let rest = bytes.skip(1);
        assert forall|i: int| 0 <= i < rest.len() implies rest[i] != 0x25 by {
            assert(rest[i] == bytes[i + 1]);
        }
        percent_free_bytes_decode_to_themselves(rest);
        assert(seq![bytes[0]] + rest =~= bytes);
    }
}

/// An ASCII path without a `%` percent-decodes to itself.
pub proof fn plain_path_decodes_to_itself(path: Seq<char>)
    requires
        is_ascii_chars(path),
        forall|i: int| 0 <= i < path.len() ==> path[i] != '%',
    ensures
        percent_decoded(encode_utf8(path)) == encode_utf8(path),
        valid_utf8(percent_decoded(encode_utf8(path))),
        decode_utf8(percent_decoded(encode_utf8(path))) == path,
{
    is_ascii_chars_encode_utf8(path);
    let bytes = encode_utf8(path);
    assert forall|i: int| 0 <= i < bytes.len() implies bytes[i] != 0x25 by {
        assert(bytes[i] == path[i] as u8);
        assert(path[i] != '%');
        assert('\0' <= path[i] <= '\u{7f}');
    }
    percent_free_bytes_decode_to_themselves(bytes);
    vstd::utf8::encode_utf8_valid_utf8(path);
    vstd::utf8::encode_utf8_decode_utf8(path);
}

/// On an ASCII path the slash before a drive letter is the first character
/// of a path whose third character is `:`; taking it off leaves the rest.
pub proof fn drive_slash_on_ascii_path(path: Seq<char>)
    requires
        is_ascii_chars(path),
    ensures
        without_drive_slash(path) == if path.len() > 2 && path[0] == '/' && path[2] == ':' {
            path.skip(1)
        } else {
            path
        },
{
    is_ascii_chars_encode_utf8(path);
    let bytes = encode_utf8(path);
    if path.len() > 2 {
        assert(bytes[0] == path[0] as u8);
        assert(bytes[2] == path[2] as u8);
        assert('\0' <= path[0] <= '\u{7f}');
        assert('\0' <= path[2] <= '\u{7f}');
    }
    if path.len() > 2 && path[0] == '/' && path[2] == ':' {
        let rest = path.skip(1);
        assert(is_ascii_chars(rest)) by {
            assert forall|i: int| 0 <= i < rest.len() implies '\0' <= #[trigger] rest[i]
                <= '\u{7f}' by {
                assert(rest[i] == path[i + 1]);
            }
        }
        is_ascii_chars_encode_utf8(rest);
        assert(bytes.skip(1) =~= encode_utf8(rest)) by {
            assert forall|i: int| 0 <= i < rest.len() implies bytes.skip(1)[i] == encode_utf8(
                rest,
            )[i] by {
                assert(bytes[i + 1] == path[i + 1] as u8);
                assert(encode_utf8(rest)[i] == rest[i] as u8);
            }
        }
        vstd::utf8::encode_utf8_decode_utf8(rest);
    }
}

} // verus!
