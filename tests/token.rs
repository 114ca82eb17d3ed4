use skjera::token::{SlackInteractionId, TokenError};

#[test]
fn action_id_is_hyphenated_lower_hex() {
    let id = SlackInteractionId(0x0123456789abcdef0123456789ABCDEF);
    assert_eq!(id.to_action_id(), "01234567-89ab-cdef-0123-456789abcdef");
}

#[test]
fn action_id_of_zero() {
    let id = SlackInteractionId(0);
    assert_eq!(id.to_action_id(), "00000000-0000-0000-0000-000000000000");
}

#[test]
fn token_round_trips_through_action_id() {
    let id = SlackInteractionId(0x018f3b2a_9c4d_7e11_8a2b_0c3d4e5f6a7b);
    let text = id.to_action_id();
    assert_eq!(SlackInteractionId::parse(&text), Ok(id));
}

#[test]
fn parse_accepts_simple_form() {
    let parsed = SlackInteractionId::parse("0123456789abcdef0123456789abcdef");
    assert_eq!(parsed, Ok(SlackInteractionId(0x0123456789abcdef0123456789abcdef)));
}

#[test]
fn parse_rejects_non_token_text() {
    assert_eq!(SlackInteractionId::parse("generate-message"), Err(TokenError::MalformedToken));
    assert_eq!(SlackInteractionId::parse(""), Err(TokenError::MalformedToken));
    assert_eq!(
        SlackInteractionId::parse("01234567-89ab-cdef-0123-456789abcdeg"),
        Err(TokenError::MalformedToken)
    );
}

#[test]
fn random_tokens_are_time_ordered_version_seven() {
    let a = SlackInteractionId::random();
    let b = SlackInteractionId::random();
    assert!(a.0 < b.0);
    assert_eq!((a.0 >> 76) & 0xf, 7);
}
