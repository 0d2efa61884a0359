//! Request authentication: a credential header is held against the stored token.

use vstd::prelude::*;
use vstd::utf8::{encode_utf8, is_ascii_chars, is_ascii_chars_encode_utf8};
use crate::token::{is_alphanumeric, is_token};

verus! {

/// What the authenticator answers.
#[derive(Clone, Copy, Debug, PartialEq, Eq, Structural)]
pub enum AuthDecision {
    /// The request carries the stored token.
    Authorized,
    /// The request does not carry the stored token.
    Denied,
}

/// A byte of a header value that reads as plain text: visible ASCII, a space
/// or a tab.
pub open spec fn is_text_byte(b: u8) -> bool {
    32 <= b < 127 || b == 9
}

/// A header value reads as plain text when each of its bytes does.
pub open spec fn is_header_text(raw: Seq<u8>) -> bool {
    forall|i: int| 0 <= i < raw.len() ==> is_text_byte(#[trigger] raw[i])
}

/// Why a request is denied.
#[derive(Clone, Copy, Debug, PartialEq, Eq, Structural)]
pub enum AuthError {
    /// The credential header is absent, or does not read as plain text.
    MissingCredential,
    /// The credential header reads as plain text, but is not the stored token.
    InvalidCredential,
}

/// What is found of a credential header held against the stored token. The
/// header passes when it is there, reads as plain text and is, byte for
/// byte, the token.
pub open spec fn credential_check(
    token: Seq<char>,
    header: Option<Seq<u8>>,
) -> Result<(), AuthError> {
    match header {
        None => Err(AuthError::MissingCredential),
        Some(raw) => if !is_header_text(raw) {
            Err(AuthError::MissingCredential)
        } else if raw != encode_utf8(token) {
            Err(AuthError::InvalidCredential)
        } else {
            Ok(())
        },
    }
}

/// The decision that is owed for a stored token and the credential header of a
/// request, where there is one.
pub open spec fn decision_for(token: Seq<char>, header: Option<Seq<u8>>) -> AuthDecision {
    if credential_check(token, header) is Ok {
        AuthDecision::Authorized
    } else {
        AuthDecision::Denied
    }
}

/// The bytes of an optional header value.
pub open spec fn header_bytes(header: Option<&[u8]>) -> Option<Seq<u8>> {
    match header {
        Some(raw) => Some(raw@),
        None => None,
    }
}

/// The bytes of a token read as plain text.
pub proof fn lemma_token_bytes_are_text(token: Seq<char>)
    requires
        is_token(token),
    ensures
        is_header_text(encode_utf8(token)),
{
    assert(is_ascii_chars(token)) by {
        assert forall|i: int| 0 <= i < token.len() implies '\0' <= #[trigger] token[i]
            <= '\u{7f}' by {}
    }
    is_ascii_chars_encode_utf8(token);
    let raw = encode_utf8(token);
    assert forall|i: int| 0 <= i < raw.len() implies is_text_byte(#[trigger] raw[i]) by {}
}

/// With a stored token of the proper shape, a request is authorized exactly
/// when its credential header holds the bytes of that token. Any other header
/// value is denied, and so is a request without the header.
pub proof fn lemma_token_alone_authorizes(token: Seq<char>, header: Option<Seq<u8>>)
    requires
        is_token(token),
    ensures
        header == Some(encode_utf8(token)) ==> decision_for(token, header)
            == AuthDecision::Authorized,
        header != Some(encode_utf8(token)) ==> decision_for(token, header) == AuthDecision::Denied,
{
    lemma_token_bytes_are_text(token);
}

/// Reads a header value as text, with `HeaderValue::from_bytes` and
/// `HeaderValue::to_str` of the HTTP types that `actix_web` hands on.
///
/// Trusted: `from_bytes` takes every value whose bytes are 32 or more and not
/// 127, or a tab; `to_str` then succeeds exactly when each byte is below 127
/// too, and its text is made of the very bytes of the value.
#[verifier::external_body]
fn header_text(raw: &[u8]) -> (text: Option<String>)
    ensures
        text is Some <==> is_header_text(raw@),
        text matches Some(t) ==> encode_utf8(t@) == raw@,
{
    match actix_web::http::header::HeaderValue::from_bytes(raw) {
        Ok(value) => match value.to_str() {
            Ok(text) => Some(text.to_owned()),
            Err(_) => None,
        },
        Err(_) => None,
    }
}

/// Compares two byte strings without stopping at the first difference: once
/// the lengths agree, every position is looked at, whatever was found before.
pub fn constant_time_eq(a: &[u8], b: &[u8]) -> (same: bool)
    ensures
        same == (a@ == b@),
{
    if a.len() != b.len() {
        return false;
    }
    let mut diff: u8 = 0;
    let mut i: usize = 0;
    proof {
        assert(a@.take(0) =~= b@.take(0));
    }
    while i < a.len()
        invariant
            i <= a.len(),
            a.len() == b.len(),
            (diff == 0) == (a@.take(i as int) == b@.take(i as int)),
        decreases a.len() - i,
    {
        let x: u8 = a[i];
        let y: u8 = b[i];
        proof {
            assert(((diff | (x ^ y)) == 0) == (diff == 0 && x == y)) by (bit_vector);
            assert(a@.take(i + 1) =~= a@.take(i as int).push(x));
            assert(b@.take(i + 1) =~= b@.take(i as int).push(y));
            if a@.take(i + 1) == b@.take(i + 1) {
                assert(a@.take(i + 1)[i as int] == b@.take(i + 1)[i as int]);
                assert(a@.take(i as int) =~= a@.take(i + 1).take(i as int));
                assert(b@.take(i as int) =~= b@.take(i + 1).take(i as int));
            }
        }
        diff = diff | (x ^ y);
        i = i + 1;
    }
    proof {
        assert(a@.take(i as int) =~= a@);
        assert(b@.take(i as int) =~= b@);
    }
    diff == 0
}

/// Holds the credential header of a request against the stored token, and
/// says what is wrong with it if it does not pass.
pub fn check_credential(token: &str, header: Option<&[u8]>) -> (checked: Result<(), AuthError>)
    ensures
        checked == credential_check(token@, header_bytes(header)),
{
    match header {
        None => Err(AuthError::MissingCredential),
        Some(raw) => match header_text(raw) {
            None => Err(AuthError::MissingCredential),
            Some(text) => {
                if constant_time_eq(token.as_bytes(), text.as_str().as_bytes()) {
                    Ok(())
                } else {
                    Err(AuthError::InvalidCredential)
                }
            },
        },
    }
}

/// Decides whether a request may go on: only one whose credential header is
/// there, reads as plain text and is the stored token byte for byte.
pub fn authenticate(token: &str, header: Option<&[u8]>) -> (decision: AuthDecision)
    ensures
        decision == decision_for(token@, header_bytes(header)),
{
    match check_credential(token, header) {
        Ok(_) => AuthDecision::Authorized,
        Err(_) => AuthDecision::Denied,
    }
}

} // verus!
