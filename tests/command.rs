use skjera::command::{classify, hey_reply, join_from, parse_command, Command};

fn some(s: &str) -> Option<String> {
    Some(s.to_string())
}

#[test]
fn fake_birthday_names_the_rest() {
    match parse_command("  fake birthday  Ola   Nordmann ", &some("U1"), &some("C1")) {
        Command::Birthday { channel, who } => {
            assert_eq!(channel, "C1");
            assert_eq!(who, "Ola Nordmann");
        }
        other => panic!("unexpected {:?}", other),
    }
}

#[test]
fn fake_birthday_without_name() {
    match parse_command("fake birthday", &some("U1"), &some("C1")) {
        Command::Birthday { who, .. } => assert_eq!(who, ""),
        other => panic!("unexpected {:?}", other),
    }
}

#[test]
fn hey_needs_a_second_word() {
    match parse_command("hey there", &some("U1"), &some("C1")) {
        Command::Hey { user, channel } => {
            assert_eq!(user, "U1");
            assert_eq!(channel, "C1");
        }
        other => panic!("unexpected {:?}", other),
    }
    assert!(matches!(parse_command("hey", &some("U1"), &some("C1")), Command::Ignore));
}

#[test]
fn other_text_is_ignored() {
    assert!(matches!(parse_command("hello world", &some("U1"), &some("C1")), Command::Ignore));
    assert!(matches!(parse_command("", &some("U1"), &some("C1")), Command::Ignore));
    assert!(matches!(parse_command("fake news", &some("U1"), &some("C1")), Command::Ignore));
}

#[test]
fn sender_and_channel_are_required() {
    assert!(matches!(parse_command("fake birthday Ola", &None, &some("C1")), Command::Ignore));
    assert!(matches!(parse_command("hey you", &some("U1"), &None), Command::Ignore));
}

#[test]
fn classify_and_join_words() {
    let words: Vec<String> = vec!["fake".into(), "birthday".into(), "A".into(), "B".into()];
    assert_eq!(join_from(&words, 2), "A B");
    assert_eq!(join_from(&words, 4), "");
    assert!(matches!(classify(&words, &some("U"), &some("C")), Command::Birthday { who, .. } if who == "A B"));
}

#[test]
fn hey_reply_mentions_sender() {
    assert_eq!(hey_reply(&"U42".to_string()), "Hey <@U42>");
}
