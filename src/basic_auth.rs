//! Extraction of credentials from an `Authorization: Basic <base64>` header
//! value.
use vstd::prelude::*;
use vstd::slice::slice_to_vec;
use vstd::utf8::{decode_utf8, valid_utf8};
use crate::authentication::Credentials;

verus! {

/// The error type of base64's decoding engines.
#[verifier::external_type_specification]
#[verifier::external_body]
pub struct ExDecodeError(base64::DecodeError);

/// The error `String::from_utf8` reports for bytes that are not UTF-8.
#[verifier::external_type_specification]
#[verifier::external_body]
pub struct ExFromUtf8Error(std::string::FromUtf8Error);

/// The bytes that the standard base64 alphabet, with canonical padding,
/// decodes `text` to; `None` where it rejects `text`.
pub uninterp spec fn base64_standard_decoding(text: Seq<char>) -> Option<Seq<u8>>;

/// Relies on base64's `Engine::decode` of `general_purpose::STANDARD`, a
/// function of the input text alone.
#[verifier::external_body]
fn decode_base64(text: &str) -> (r: Result<Vec<u8>, base64::DecodeError>)
    ensures
        match r {
            Ok(bytes) => base64_standard_decoding(text@) == Some(bytes@),
            Err(_) => base64_standard_decoding(text@) is None,
        },
{
    base64::Engine::decode(&base64::engine::general_purpose::STANDARD, text)
}

/// Relies on std's `String::from_utf8`: it accepts exactly the valid UTF-8
/// byte strings and yields the characters they encode.
#[verifier::external_body]
fn string_from_utf8(bytes: Vec<u8>) -> (r: Result<String, std::string::FromUtf8Error>)
    ensures
        r is Ok <==> valid_utf8(bytes@),
        r matches Ok(s) ==> s@ == decode_utf8(bytes@),
{
    String::from_utf8(bytes)
}

/// Why an `Authorization` header yields no credentials.
#[derive(Debug, Clone, Copy, PartialEq, Eq, Structural)]
pub enum BasicAuthError {
    MissingHeader,
    /// The header value is not UTF-8 text.
    HeaderNotText,
    NotBasicScheme,
    InvalidBase64,
    InvalidUtf8,
    MissingPassword,
}

pub open spec fn basic_scheme() -> Seq<char> {
    seq!['B', 'a', 's', 'i', 'c', ' ']
}

/// `i` is the position of the first `:` of `text`.
pub open spec fn is_first_colon(text: Seq<char>, i: int) -> bool {
    &&& 0 <= i < text.len()
    &&& text[i] == ':'
    &&& forall|k: int| 0 <= k < i ==> text[k] != ':'
}

/// `text` split at its first `:` into the part before and the part after;
/// `None` when there is no `:`.
pub open spec fn split_at_first_colon(text: Seq<char>) -> Option<(Seq<char>, Seq<char>)> {
    if exists|i: int| is_first_colon(text, i) {
        let i = choose|i: int| is_first_colon(text, i);
        Some((text.take(i), text.skip(i + 1)))
    } else {
        None
    }
}

/// The (username, password) that the header value `header` carries.
pub open spec fn basic_credentials(header: Option<Seq<u8>>) -> Result<
    (Seq<char>, Seq<char>),
    BasicAuthError,
> {
    match header {
        None => Err(BasicAuthError::MissingHeader),
        Some(raw) => if !valid_utf8(raw) {
            Err(BasicAuthError::HeaderNotText)
        } else {
            basic_credentials_in(decode_utf8(raw))
        },
    }
}

/// The (username, password) that the decoded payload `bytes` carries:
/// UTF-8 text split at its first colon.
pub open spec fn decoded_credentials(bytes: Seq<u8>) -> Result<(Seq<char>, Seq<char>), BasicAuthError> {
    if !valid_utf8(bytes) {
        Err(BasicAuthError::InvalidUtf8)
    } else {
        match split_at_first_colon(decode_utf8(bytes)) {
            None => Err(BasicAuthError::MissingPassword),
            Some(pair) => Ok(pair),
        }
    }
}

/// The (username, password) that the header text `h` carries.
pub open spec fn basic_credentials_in(h: Seq<char>) -> Result<(Seq<char>, Seq<char>), BasicAuthError> {
    if !(h.len() >= 6 && h.take(6) == basic_scheme()) {
        Err(BasicAuthError::NotBasicScheme)
    } else {
        match base64_standard_decoding(h.skip(6)) {
            None => Err(BasicAuthError::InvalidBase64),
            Some(bytes) => decoded_credentials(bytes),
        }
    }
}

pub open spec fn header_view(header: Option<&[u8]>) -> Option<Seq<u8>> {
    match header {
        Some(h) => Some(h@),
        None => None,
    }
}

/// Position of the first `:` of `text`, if any.
fn first_colon(text: &str) -> (r: Option<usize>)
    ensures
        match r {
            Some(i) => is_first_colon(text@, i as int),
            None => forall|k: int| 0 <= k < text@.len() ==> text@[k] != ':',
        },
{
    let n = text.unicode_len();
    let mut i: usize = 0;
    while i < n
        invariant
            n == text@.len(),
            i <= n,
            forall|k: int| 0 <= k < i ==> text@[k] != ':',
        decreases n - i,
    {
        if text.get_char(i) == ':' {
            return Some(i);
        }
        i = i + 1;
    }
    None
}

/// Reads the credentials of an `Authorization` header value of the form
/// `Basic <base64>`, whose decoded text is `username:password`, split at
/// its first colon. `header` is the raw header value, `None` when the
/// request has no such header.
pub fn basic_authentication(header: Option<&[u8]>) -> (r: Result<Credentials, BasicAuthError>)
    ensures
        match r {
            Ok(c) => basic_credentials(header_view(header)) == Ok::<
                (Seq<char>, Seq<char>),
                BasicAuthError,
            >((c.username@, c.password@)),
            Err(e) => basic_credentials(header_view(header)) == Err::<
                (Seq<char>, Seq<char>),
                BasicAuthError,
            >(e),
        },
{
    let raw = match header {
        None => {
            return Err(BasicAuthError::MissingHeader);
        },
        Some(raw) => raw,
    };
    let value = match string_from_utf8(slice_to_vec(raw)) {
        Err(_) => {
            return Err(BasicAuthError::HeaderNotText);
        },
        Ok(value) => value,
    };
    let value = value.as_str();
    let n = value.unicode_len();
    if n < 6 {
        return Err(BasicAuthError::NotBasicScheme);
    }
    let scheme = String::from_str(value.substring_char(0, 6));
    let expected = String::from_str("Basic ");
    proof {
        reveal_strlit("Basic ");
        assert("Basic "@ =~= basic_scheme());
    }
    if scheme != expected {
        return Err(BasicAuthError::NotBasicScheme);
    }
    let encoded = value.substring_char(6, n);
    assert(encoded@ =~= value@.skip(6));
    let bytes = match decode_base64(encoded) {
        Err(_) => {
            return Err(BasicAuthError::InvalidBase64);
        },
        Ok(bytes) => bytes,
    };
    credentials_from_payload(bytes)
}

/// Reads `username:password` from the base64-decoded payload of a `Basic`
/// header: the bytes must be UTF-8 text, split at its first colon.
pub fn credentials_from_payload(bytes: Vec<u8>) -> (r: Result<Credentials, BasicAuthError>)
    ensures
        match r {
            Ok(c) => decoded_credentials(bytes@) == Ok::<(Seq<char>, Seq<char>), BasicAuthError>(
                (c.username@, c.password@),
            ),
            Err(e) => decoded_credentials(bytes@) == Err::<(Seq<char>, Seq<char>), BasicAuthError>(e),
        },
{
    let text = match string_from_utf8(bytes) {
        Err(_) => {
            return Err(BasicAuthError::InvalidUtf8);
        },
        Ok(text) => text,
    };
    let text = text.as_str();
    let i = match first_colon(text) {
        None => {
            return Err(BasicAuthError::MissingPassword);
        },
        Some(i) => i,
    };
    let len = text.unicode_len();
    let username = String::from_str(text.substring_char(0, i));
    let password = String::from_str(text.substring_char(i + 1, len));
    proof {
        let j = choose|j: int| is_first_colon(text@, j);
        assert(j == i as int) by {
            if j < i {
                assert(text@[j] != ':');
            }
            if i < j {
                assert(text@[i as int] != ':');
            }
        }
        assert(username@ =~= text@.take(i as int));
        assert(password@ =~= text@.skip(i + 1));
    }
    Ok(Credentials { username, password })
}

} // verus!
