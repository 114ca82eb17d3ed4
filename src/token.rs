//! Interaction tokens: 128-bit, time-ordered identifiers embedded in the
//! action identifier of a button and echoed back by the chat service.

use uuid::Uuid;
use vstd::prelude::*;

verus! {

/// Opaque identifier correlating a button with the conversation that made it.
#[derive(Clone, Copy, Debug, PartialEq, Eq, Hash, Structural)]
pub struct SlackInteractionId(pub u128);

/// Why a callback's action identifier could not be read back as a token.
#[derive(Clone, Copy, Debug, PartialEq, Eq, Structural)]
pub enum TokenError {
    MalformedToken,
}

/// The lower-case hexadecimal digit for `d` (below 16).
pub open spec fn hex_digit(d: nat) -> char {
    seq!['0', '1', '2', '3', '4', '5', '6', '7', '8', '9', 'a', 'b', 'c', 'd', 'e', 'f'][d as int]
}

/// The `n` lowest hexadecimal digits of `v`, most significant first.
pub open spec fn hex_digits(v: nat, n: nat) -> Seq<char>
    decreases n,
{
    if n == 0 {
        Seq::empty()
    } else {
        hex_digits(v / 16, (n - 1) as nat).push(hex_digit(v % 16))
    }
}

/// The hyphenated text form of a 128-bit identifier: 32 lower-case hex
/// digits grouped 8-4-4-4-12.
pub open spec fn hyphenated(v: u128) -> Seq<char> {
    let d = hex_digits(v as nat, 32);
    d.subrange(0, 8) + seq!['-'] + d.subrange(8, 12) + seq!['-'] + d.subrange(12, 16) + seq!['-']
        + d.subrange(16, 20) + seq!['-'] + d.subrange(20, 32)
}

/// The value that uuid's parser reads from a text, if it accepts it.
pub uninterp spec fn uuid_text_value(s: Seq<char>) -> Option<u128>;

/// What reading `text` back as a token gives.
pub open spec fn parsed_token(text: Seq<char>) -> Result<SlackInteractionId, TokenError> {
    match uuid_text_value(text) {
        Some(v) => Ok(SlackInteractionId(v)),
        None => Err(TokenError::MalformedToken),
    }
}

/// Relies on uuid's `Uuid::now_v7`: a version 7 identifier from the clock
/// and random bits. Nothing is promised of its value here.
#[verifier::external_body]
fn uuid_now_v7() -> (r: u128) {
    Uuid::now_v7().as_u128()
}

/// Relies on uuid's `Display` for `Uuid::from_u128(v)`, which writes the
/// hyphenated lower-case form of the big-endian bytes of `v`.
#[verifier::external_body]
fn uuid_to_text(v: u128) -> (r: String)
    ensures
        r@ == hyphenated(v),
{
    Uuid::from_u128(v).to_string()
}

/// Relies on uuid's `Uuid::parse_str`, which accepts among others the
/// hyphenated form that `Display` writes and reads back its value.
#[verifier::external_body]
fn uuid_parse(s: &str) -> (r: Option<u128>)
    ensures
        r == uuid_text_value(s@),
        forall|v: u128| #[trigger] hyphenated(v) == s@ ==> r == Some(v),
{
    Uuid::parse_str(s).ok().map(|u| u.as_u128())
}

impl SlackInteractionId {
    /// A fresh candidate token from the clock.
    pub fn random() -> (r: SlackInteractionId) {
        SlackInteractionId(uuid_now_v7())
    }

    /// The text form carried in a button's action identifier.
    pub fn to_action_id(&self) -> (r: String)
        ensures
            r@ == hyphenated(self.0),
    {
        uuid_to_text(self.0)
    }

    /// Reads a token back from a button's action identifier.
    pub fn parse(text: &str) -> (r: Result<SlackInteractionId, TokenError>)
        ensures
            r == parsed_token(text@),
            forall|v: u128| #[trigger] hyphenated(v) == text@ ==> r == Ok::<
                SlackInteractionId,
                TokenError,
            >(SlackInteractionId(v)),
    {
        match uuid_parse(text) {
            Some(v) => Ok(SlackInteractionId(v)),
            None => Err(TokenError::MalformedToken),
        }
    }
}

} // verus!
