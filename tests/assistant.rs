use skjera::assistant::{newest_message, next_poll_step, reply_text, ContentPart, PollStep, RunError, RunState};

#[test]
fn running_states_are_polled_again() {
    assert_eq!(next_poll_step(RunState::Queued), PollStep::Wait);
    assert_eq!(next_poll_step(RunState::InProgress), PollStep::Wait);
    assert_eq!(next_poll_step(RunState::Cancelling), PollStep::Wait);
}

#[test]
fn completed_run_is_fetched() {
    assert_eq!(next_poll_step(RunState::Completed), PollStep::Fetch);
}

#[test]
fn ended_runs_stop_with_their_reason() {
    assert_eq!(next_poll_step(RunState::Failed), PollStep::Stop(RunError::Failed));
    assert_eq!(next_poll_step(RunState::Cancelled), PollStep::Stop(RunError::Cancelled));
    assert_eq!(next_poll_step(RunState::Expired), PollStep::Stop(RunError::Expired));
    assert_eq!(next_poll_step(RunState::RequiresAction), PollStep::Stop(RunError::RequiresAction));
    assert_eq!(next_poll_step(RunState::Incomplete), PollStep::Stop(RunError::Incomplete));
}

#[test]
fn reply_text_takes_first_part() {
    let parts = vec![ContentPart::Text("Hurra!".to_string()), ContentPart::Image];
    assert_eq!(reply_text(&parts), Ok("Hurra!".to_string()));
    let refused = vec![ContentPart::Refusal("Nei".to_string())];
    assert_eq!(reply_text(&refused), Ok("Nei".to_string()));
    assert_eq!(reply_text(&vec![ContentPart::Image]), Err(RunError::NotText));
    assert_eq!(reply_text(&Vec::new()), Err(RunError::NoContent));
}

#[test]
fn newest_message_is_first_listed() {
    assert_eq!(newest_message(&vec!["m2".to_string(), "m1".to_string()]), Ok("m2".to_string()));
    assert_eq!(newest_message(&Vec::new()), Err(RunError::NoMessage));
}
