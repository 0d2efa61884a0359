//! Access tokens: what a token looks like, and how a fresh one is drawn.

use vstd::prelude::*;
use vstd::std_specs::iter::IteratorSpec;

verus! {

/// Number of characters in a token.
pub const TOKEN_LENGTH: usize = 32;

/// The token alphabet: ASCII letters and digits.
pub open spec fn is_alphanumeric(c: char) -> bool {
    ||| 'A' <= c <= 'Z'
    ||| 'a' <= c <= 'z'
    ||| '0' <= c <= '9'
}

/// A token is a text of `TOKEN_LENGTH` characters of the token alphabet.
pub open spec fn is_token(s: Seq<char>) -> bool {
    &&& s.len() == TOKEN_LENGTH
    &&& forall|i: int| 0 <= i < s.len() ==> is_alphanumeric(#[trigger] s[i])
}

/// Tells whether `c` belongs to the token alphabet.
pub fn is_alphanumeric_char(c: char) -> (r: bool)
    ensures
        r == is_alphanumeric(c),
{
    ('A' <= c && c <= 'Z') || ('a' <= c && c <= 'z') || ('0' <= c && c <= '9')
}

/// Tells whether `text` has the shape of a token.
pub fn is_valid_token(text: &str) -> (valid: bool)
    ensures
        valid == is_token(text@),
{
    let mut chars = text.chars();
    let mut count: usize = 0;
    loop
        invariant
            count <= TOKEN_LENGTH,
            count <= text@.len(),
            chars.remaining() == text@.skip(count as int),
            forall|i: int| 0 <= i < count ==> is_alphanumeric(#[trigger] text@[i]),
        ensures
            count == text@.len(),
        decreases text@.len() - count,
    {
        match chars.next() {
            None => {
                break ;
            },
            Some(c) => {
                if count == TOKEN_LENGTH || !is_alphanumeric_char(c) {
                    return false;
                }
                count = count + 1;
            },
        }
    }
    count == TOKEN_LENGTH
}

/// Draws one character code from the thread-local generator of `rand`,
/// through `rand::Rng::sample` with the distribution
/// `rand::distributions::Alphanumeric`.
///
/// Trusted: the distribution picks its result from a fixed table that holds
/// the ASCII letters and digits, so every outcome is the code of a character
/// of the token alphabet. Which one comes out is left open.
#[verifier::external_body]
fn sample_alphanumeric() -> (code: u8)
    ensures
        is_alphanumeric(code as char),
{
    rand::Rng::sample(&mut rand::thread_rng(), rand::distributions::Alphanumeric)
}

/// The text whose characters have the given codes, one character for each.
pub open spec fn text_of_codes(codes: Seq<u8>) -> Seq<char> {
    Seq::new(codes.len(), |i: int| codes[i] as char)
}

/// Writes character codes out as text, one character for each code.
pub fn token_from_codes(codes: &[u8]) -> (token: String)
    ensures
        token@ == text_of_codes(codes@),
{
    let mut token: String = String::new();
    let mut i: usize = 0;
    while i < codes.len()
        invariant
            i <= codes.len(),
            token@ == text_of_codes(codes@.take(i as int)),
        decreases codes.len() - i,
    {
        token.push(codes[i] as char);
        i = i + 1;
        proof {
            assert(token@ =~= text_of_codes(codes@.take(i as int)));
        }
    }
    proof {
        assert(codes@.take(i as int) =~= codes@);
    }
    token
}

/// Draws a fresh token: `TOKEN_LENGTH` characters of the token alphabet,
/// each drawn on its own.
pub fn generate_token() -> (token: String)
    ensures
        is_token(token@),
{
    let mut codes: Vec<u8> = Vec::new();
    while codes.len() < TOKEN_LENGTH
        invariant
            codes.len() <= TOKEN_LENGTH,
            forall|i: int| 0 <= i < codes.len() ==> is_alphanumeric(#[trigger] codes[i] as char),
        decreases TOKEN_LENGTH - codes.len(),
    {
        codes.push(sample_alphanumeric());
    }
    token_from_codes(codes.as_slice())
}

} // verus!
