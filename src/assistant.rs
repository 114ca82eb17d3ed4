//! Decisions of the conversation with the text-generation assistant: how a
//! run's status is answered while polling it, and which text its reply
//! carries.

use vstd::prelude::*;

verus! {

/// The status of an assistant run.
#[derive(Clone, Copy, Debug, PartialEq, Eq, Structural)]
pub enum RunState {
    Queued,
    InProgress,
    RequiresAction,
    Cancelling,
    Cancelled,
    Failed,
    Completed,
    Incomplete,
    Expired,
}

/// Why the assistant gave no text.
#[derive(Clone, Copy, Debug, PartialEq, Eq, Structural)]
pub enum RunError {
    Failed,
    Cancelled,
    Expired,
    RequiresAction,
    Incomplete,
    /// The finished run left no message.
    NoMessage,
    /// The reply has no content.
    NoContent,
    /// The reply's first part is an image.
    NotText,
}

/// What to do after reading a run's status.
#[derive(Clone, Copy, Debug, PartialEq, Eq, Structural)]
pub enum PollStep {
    /// Wait a moment and read the status again.
    Wait,
    /// The run is done: fetch its reply.
    Fetch,
    /// Give up.
    Stop(RunError),
}

/// One part of the assistant's reply.
#[derive(Debug)]
pub enum ContentPart {
    Text(String),
    Image,
    Refusal(String),
}

/// How a run's status is answered.
pub open spec fn poll_step(s: RunState) -> PollStep {
    match s {
        RunState::Queued | RunState::InProgress | RunState::Cancelling => PollStep::Wait,
        RunState::Completed => PollStep::Fetch,
        RunState::Failed => PollStep::Stop(RunError::Failed),
        RunState::Cancelled => PollStep::Stop(RunError::Cancelled),
        RunState::Expired => PollStep::Stop(RunError::Expired),
        RunState::RequiresAction => PollStep::Stop(RunError::RequiresAction),
        RunState::Incomplete => PollStep::Stop(RunError::Incomplete),
    }
}

/// What to do after reading a run's status: runs that are still going are
/// polled again, a completed one is fetched, any other ends the attempt.
pub fn next_poll_step(status: RunState) -> (r: PollStep)
    ensures
        r == poll_step(status),
{
    match status {
        RunState::Queued | RunState::InProgress | RunState::Cancelling => PollStep::Wait,
        RunState::Completed => PollStep::Fetch,
        RunState::Failed => PollStep::Stop(RunError::Failed),
        RunState::Cancelled => PollStep::Stop(RunError::Cancelled),
        RunState::Expired => PollStep::Stop(RunError::Expired),
        RunState::RequiresAction => PollStep::Stop(RunError::RequiresAction),
        RunState::Incomplete => PollStep::Stop(RunError::Incomplete),
    }
}

/// The newest message of a finished run, from the listed message ids.
pub fn newest_message(ids: &Vec<String>) -> (r: Result<String, RunError>)
    ensures
        ids@.len() == 0 ==> r == Err::<String, RunError>(RunError::NoMessage),
        ids@.len() > 0 ==> r == Ok::<String, RunError>(ids@[0]),
{
    if ids.len() == 0 {
        Err(RunError::NoMessage)
    } else {
        Ok(ids[0].clone())
    }
}

/// The text of a reply: its first part, whether an answer or a refusal.
pub fn reply_text(content: &Vec<ContentPart>) -> (r: Result<String, RunError>)
    ensures
        content@.len() == 0 ==> r == Err::<String, RunError>(RunError::NoContent),
        content@.len() > 0 ==> r == match content@[0] {
            ContentPart::Text(t) => Ok::<String, RunError>(t),
            ContentPart::Refusal(t) => Ok::<String, RunError>(t),
            ContentPart::Image => Err::<String, RunError>(RunError::NotText),
        },
{
    if content.len() == 0 {
        return Err(RunError::NoContent);
    }
    match &content[0] {
        ContentPart::Text(t) => Ok(t.clone()),
        ContentPart::Refusal(t) => Ok(t.clone()),
        ContentPart::Image => Err(RunError::NotText),
    }
}

} // verus!
