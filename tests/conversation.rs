use skjera::conversation::{
    BirthdayAction, BirthdayActor, BirthdayActorMsg, BirthdayActorState, DEFAULT_TIMEOUT_MS,
};
use skjera::message::BirthdayMessage;
use skjera::model::{BirthDate, Employee, SomeAccount, SomeNetwork};
use skjera::registry::{Dispatch, InteractionAction, SlackInteractionServer};
use skjera::token::SlackInteractionId;

fn alice() -> Employee {
    Employee {
        id: 17,
        email: "alice@example.com".to_string(),
        name: "Alice".to_string(),
        dob: Some(BirthDate { year: 1990, ordinal: 100 }),
    }
}

fn new_alice() -> BirthdayActorState {
    BirthdayActor::start("T1".to_string(), "C1".to_string(), "Alice".to_string())
}

fn step(
    actor: &BirthdayActor,
    state: BirthdayActorState,
    msg: BirthdayActorMsg,
) -> (BirthdayActorState, Vec<BirthdayAction>) {
    actor.handle(state, msg)
}

/// Drives a conversation for Alice up to its first posted message, with
/// callbacks registered in `registry` under instance 0.
fn posted(
    actor: &BirthdayActor,
    registry: &mut SlackInteractionServer<u64>,
    account: Option<SomeAccount>,
) -> (BirthdayActorState, SlackInteractionId, BirthdayMessage) {
    let (s, acts) = step(actor, new_alice(), BirthdayActorMsg::Init);
    assert!(matches!(&acts[..], [BirthdayAction::FindEmployee { name }] if name == "Alice"));
    let (s, acts) = step(actor, s, BirthdayActorMsg::EmployeeFound(Ok(Some(alice()))));
    assert!(matches!(
        &acts[..],
        [BirthdayAction::FindChatAccount { employee_id: 17, team }] if team == "T1"
    ));
    let (s, acts) = step(actor, s, BirthdayActorMsg::AccountFound(Ok(account)));
    assert!(matches!(&acts[..], [BirthdayAction::RegisterCallback]));
    let token = registry.register(0).unwrap();
    let (s, mut acts) = step(actor, s, BirthdayActorMsg::Registered(Some(token)));
    assert_eq!(acts.len(), 1);
    let message = match acts.remove(0) {
        BirthdayAction::Post { channel, message } => {
            assert_eq!(channel, "C1");
            message
        }
        other => panic!("expected a post, got {:?}", other),
    };
    let (s, acts) = step(actor, s, BirthdayActorMsg::Posted(Ok("1700000000.000100".to_string())));
    assert!(matches!(&acts[..], [BirthdayAction::ArmTimeout { after_ms }] if *after_ms == actor.timeout_ms));
    assert!(matches!(s, BirthdayActorState::AwaitingInteraction(_)));
    (s, token, message)
}

fn click(registry: &mut SlackInteractionServer<u64>, token: SlackInteractionId, value: &str) -> Dispatch<u64> {
    let actions = vec![InteractionAction {
        action_id: token.to_action_id(),
        value: Some(value.to_string()),
    }];
    registry.dispatch(&actions).remove(0)
}

fn apply_revokes(registry: &mut SlackInteractionServer<u64>, acts: &[BirthdayAction]) {
    for a in acts {
        if let BirthdayAction::Revoke { token } = a {
            let _ = registry.resolve_and_consume(*token);
        }
    }
}

#[test]
fn scenario_generate_message() {
    let actor = BirthdayActor::new();
    assert_eq!(actor.timeout_ms, DEFAULT_TIMEOUT_MS);
    let mut registry = SlackInteractionServer::new();
    let (s, token, message) = posted(&actor, &mut registry, None);
    assert_eq!(message.who, "Alice");
    assert_eq!(message.user_id, None);
    assert_eq!(message.generate_message_id, Some(token));
    assert_eq!(message.send_id, None);
    assert!(!message.deleted);

    let value = match click(&mut registry, token, "generate-message") {
        Dispatch::Deliver(0, value) => value,
        other => panic!("expected delivery, got {:?}", other),
    };
    let (s, acts) = step(&actor, s, BirthdayActorMsg::OnInteraction(value));
    let generates = acts.iter().filter(|a| matches!(a, BirthdayAction::Generate { .. })).count();
    assert_eq!(generates, 1);
    assert!(matches!(acts[0], BirthdayAction::CancelTimeout));
    match acts.last().unwrap() {
        BirthdayAction::Generate { employee } => assert_eq!(employee.id, 17),
        other => panic!("expected generation, got {:?}", other),
    }
    assert!(matches!(s, BirthdayActorState::Generating(_)));

    let (s, acts) = step(&actor, s, BirthdayActorMsg::Generated(Ok("Gratulerer!".to_string())));
    assert!(matches!(&acts[..], [BirthdayAction::RegisterCallback]));
    let again = registry.register(0).unwrap();
    let (s, acts) = step(&actor, s, BirthdayActorMsg::Registered(Some(again)));
    assert!(matches!(&acts[..], [BirthdayAction::RegisterCallback]));
    let send = registry.register(0).unwrap();
    let (s, acts) = step(&actor, s, BirthdayActorMsg::Registered(Some(send)));
    assert_eq!(acts.len(), 2);
    match &acts[0] {
        BirthdayAction::Edit { channel, ts, message } => {
            assert_eq!(channel, "C1");
            assert_eq!(ts, "1700000000.000100");
            assert_eq!(message.birthday_message.as_deref(), Some("Gratulerer!"));
            assert_eq!(message.generate_message_id, Some(again));
            assert_eq!(message.send_id, Some(send));
            assert_ne!(send, token);
            assert!(!message.deleted);
        }
        other => panic!("expected an edit, got {:?}", other),
    }
    assert!(matches!(acts[1], BirthdayAction::ArmTimeout { after_ms: DEFAULT_TIMEOUT_MS }));
    match s {
        BirthdayActorState::AwaitingInteraction(a) => {
            assert_eq!(a.birthday_message.as_deref(), Some("Gratulerer!"));
            assert_eq!(a.send_id, Some(send));
        }
        other => panic!("expected to wait again, got {:?}", other),
    }
}

#[test]
fn scenario_timeout_then_late_callback() {
    let actor = BirthdayActor::with_timeout(3000);
    let mut registry = SlackInteractionServer::new();
    let (s, token, _) = posted(&actor, &mut registry, None);
    let (s, acts) = step(&actor, s, BirthdayActorMsg::Timeout);
    assert!(matches!(s, BirthdayActorState::Completed));
    assert_eq!(acts.len(), 2);
    assert!(matches!(acts[0], BirthdayAction::Revoke { token: t } if t == token));
    apply_revokes(&mut registry, &acts);
    match &acts[1] {
        BirthdayAction::Edit { message, .. } => {
            assert!(message.deleted);
            assert_eq!(message.generate_message_id, None);
            assert_eq!(message.send_id, None);
        }
        other => panic!("expected an edit, got {:?}", other),
    }
    // the late click is dropped as an unknown token
    assert!(matches!(click(&mut registry, token, "generate-message"), Dispatch::Unknown));
    let (s, acts) = step(&actor, s, BirthdayActorMsg::OnInteraction(Some("generate-message".to_string())));
    assert!(matches!(s, BirthdayActorState::Completed));
    assert!(acts.is_empty());
}

#[test]
fn scenario_unknown_person_fails_before_posting() {
    let actor = BirthdayActor::new();
    let (s, _) = step(&actor, new_alice(), BirthdayActorMsg::Init);
    let (s, acts) = step(&actor, s, BirthdayActorMsg::EmployeeFound(Ok(None)));
    assert!(matches!(s, BirthdayActorState::Fail));
    assert!(acts.is_empty());
}

#[test]
fn lookup_error_fails_before_posting() {
    let actor = BirthdayActor::new();
    let (s, _) = step(&actor, new_alice(), BirthdayActorMsg::Init);
    let (s, acts) = step(&actor, s, BirthdayActorMsg::EmployeeFound(Err(())));
    assert!(matches!(s, BirthdayActorState::Fail));
    assert!(acts.is_empty());
}

#[test]
fn scenario_assistant_failure() {
    let actor = BirthdayActor::new();
    let mut registry = SlackInteractionServer::new();
    let (s, token, _) = posted(&actor, &mut registry, None);
    let value = match click(&mut registry, token, "generate-message") {
        Dispatch::Deliver(0, value) => value,
        other => panic!("expected delivery, got {:?}", other),
    };
    let (s, acts) = step(&actor, s, BirthdayActorMsg::OnInteraction(value));
    apply_revokes(&mut registry, &acts);
    let (s, acts) = step(&actor, s, BirthdayActorMsg::Generated(Err(())));
    assert!(matches!(s, BirthdayActorState::Fail));
    match &acts[..] {
        [BirthdayAction::Edit { channel, ts, message }] => {
            assert_eq!(channel, "C1");
            assert_eq!(ts, "1700000000.000100");
            assert!(message.deleted);
            assert_eq!(message.generate_message_id, None);
            assert_eq!(message.birthday_message, None);
        }
        other => panic!("expected a final edit, got {:?}", other),
    }
    // the button's token no longer resolves
    assert!(matches!(click(&mut registry, token, "generate-message"), Dispatch::Unknown));
    let (s, acts) = step(&actor, s, BirthdayActorMsg::Stop);
    assert!(matches!(s, BirthdayActorState::Fail));
    assert!(acts.is_empty());
}

#[test]
fn linked_account_is_mentioned() {
    let actor = BirthdayActor::new();
    let mut registry = SlackInteractionServer::new();
    let account = SomeAccount {
        id: 1,
        employee: 17,
        network: SomeNetwork::slack(),
        network_instance: Some("T1".to_string()),
        subject: Some("U123".to_string()),
        name: None,
        nick: None,
        url: None,
        avatar: None,
    };
    let (_, _, message) = posted(&actor, &mut registry, Some(account));
    assert_eq!(message.user_id.as_deref(), Some("U123"));
}

#[test]
fn account_lookup_failure_is_best_effort() {
    let actor = BirthdayActor::new();
    let (s, _) = step(&actor, new_alice(), BirthdayActorMsg::Init);
    let (s, _) = step(&actor, s, BirthdayActorMsg::EmployeeFound(Ok(Some(alice()))));
    let (s, acts) = step(&actor, s, BirthdayActorMsg::AccountFound(Err(())));
    assert!(matches!(&acts[..], [BirthdayAction::RegisterCallback]));
    assert!(matches!(s, BirthdayActorState::Registering(_)));
}

#[test]
fn unexpected_action_value_fails() {
    let actor = BirthdayActor::new();
    let mut registry = SlackInteractionServer::new();
    let (s, _, _) = posted(&actor, &mut registry, None);
    let (s, acts) = step(&actor, s, BirthdayActorMsg::OnInteraction(Some("send-message".to_string())));
    assert!(matches!(s, BirthdayActorState::Fail));
    assert!(matches!(acts[0], BirthdayAction::CancelTimeout));
    assert!(matches!(acts.last(), Some(BirthdayAction::Edit { message, .. }) if message.deleted));
}

#[test]
fn post_failure_fails_and_revokes() {
    let actor = BirthdayActor::new();
    let (s, _) = step(&actor, new_alice(), BirthdayActorMsg::Init);
    let (s, _) = step(&actor, s, BirthdayActorMsg::EmployeeFound(Ok(Some(alice()))));
    let (s, _) = step(&actor, s, BirthdayActorMsg::AccountFound(Ok(None)));
    let token = SlackInteractionId(5);
    let (s, _) = step(&actor, s, BirthdayActorMsg::Registered(Some(token)));
    let (s, acts) = step(&actor, s, BirthdayActorMsg::Posted(Err(())));
    assert!(matches!(s, BirthdayActorState::Fail));
    assert!(matches!(&acts[..], [BirthdayAction::Revoke { token: t }] if *t == token));
}

#[test]
fn terminal_states_ignore_every_event() {
    let actor = BirthdayActor::new();
    let events = || {
        vec![
            BirthdayActorMsg::Init,
            BirthdayActorMsg::EmployeeFound(Ok(Some(alice()))),
            BirthdayActorMsg::Registered(Some(SlackInteractionId(1))),
            BirthdayActorMsg::Posted(Ok("1.0".to_string())),
            BirthdayActorMsg::OnInteraction(Some("generate-message".to_string())),
            BirthdayActorMsg::Generated(Ok("x".to_string())),
            BirthdayActorMsg::Timeout,
            BirthdayActorMsg::Stop,
        ]
    };
    for msg in events() {
        let (s, acts) = step(&actor, BirthdayActorState::Completed, msg);
        assert!(matches!(s, BirthdayActorState::Completed));
        assert!(acts.is_empty());
    }
    for msg in events() {
        let (s, acts) = step(&actor, BirthdayActorState::Fail, msg);
        assert!(matches!(s, BirthdayActorState::Fail));
        assert!(acts.is_empty());
    }
}

#[test]
fn stop_while_waiting_cleans_up() {
    let actor = BirthdayActor::new();
    let mut registry = SlackInteractionServer::new();
    let (s, token, _) = posted(&actor, &mut registry, None);
    let (s, acts) = step(&actor, s, BirthdayActorMsg::Stop);
    assert!(matches!(s, BirthdayActorState::Completed));
    assert!(matches!(acts[0], BirthdayAction::CancelTimeout));
    assert!(matches!(acts[1], BirthdayAction::Revoke { token: t } if t == token));
    assert!(matches!(acts.last(), Some(BirthdayAction::Edit { message, .. }) if message.deleted));
}

#[test]
fn stop_before_posting_completes_quietly() {
    let actor = BirthdayActor::new();
    let (s, acts) = step(&actor, new_alice(), BirthdayActorMsg::Stop);
    assert!(matches!(s, BirthdayActorState::Completed));
    assert!(acts.is_empty());
}

#[test]
fn stale_timeout_while_generating_is_ignored() {
    let actor = BirthdayActor::new();
    let mut registry = SlackInteractionServer::new();
    let (s, _, _) = posted(&actor, &mut registry, None);
    let (s, _) = step(&actor, s, BirthdayActorMsg::OnInteraction(Some("generate-message".to_string())));
    let (s, acts) = step(&actor, s, BirthdayActorMsg::Timeout);
    assert!(matches!(s, BirthdayActorState::Generating(_)));
    assert!(acts.is_empty());
}
