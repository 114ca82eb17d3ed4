use skjera::api;
use skjera::model::{BirthDate, Employee, SomeNetwork};
use skjera::profile::{ProfileError, SlackResponse, SlackUserProfile};

#[test]
fn api_account_keeps_its_fields() {
    let a = api::SomeAccount::new(3, "Slack".to_string(), "https://x".to_string(), "kari".to_string());
    assert_eq!(a.id, 3);
    assert_eq!(a.network, "Slack");
    assert_eq!(a.url, "https://x");
    assert_eq!(a.nick, "kari");
}

#[test]
fn chat_network_name() {
    assert_eq!(SomeNetwork::slack().name(), "slack");
    assert_eq!(SomeNetwork::from_name("x".to_string()).0, "x");
}

#[test]
fn employee_copy_is_identical() {
    let e = Employee {
        id: 9,
        email: "a@b".to_string(),
        name: "A".to_string(),
        dob: Some(BirthDate { year: 1999, ordinal: 365 }),
    };
    let c = e.copy();
    assert_eq!(c.id, 9);
    assert_eq!(c.email, "a@b");
    assert_eq!(c.name, "A");
    assert_eq!(c.dob, e.dob);
}

#[test]
fn profile_of_successful_answer() {
    let r = SlackResponse { ok: true, profile: Some(SlackUserProfile { display_name: "Kari".to_string() }) };
    assert_eq!(r.into_profile().unwrap().display_name, "Kari");
}

#[test]
fn profile_errors() {
    let not_ok = SlackResponse { ok: false, profile: Some(SlackUserProfile { display_name: "K".to_string() }) };
    assert_eq!(not_ok.into_profile().unwrap_err(), ProfileError::NotOk);
    let missing = SlackResponse { ok: true, profile: None };
    assert_eq!(missing.into_profile().unwrap_err(), ProfileError::MissingProfile);
}
