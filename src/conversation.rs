//! The birthday conversation: the per-channel workflow that greets a
//! person, offers to generate a congratulation, shows it, and always
//! leaves the channel message in a final, non-actionable form.
//!
//! The workflow decides; its host performs. Each event goes to
//! [`BirthdayActor::handle`], which returns the next state and the actions
//! to perform in order. An action that asks a question (a lookup, a
//! registration, a post, a generation) is answered by the host with the
//! matching event.

use crate::message::{generate_value, BirthdayMessage};
use crate::model::{Employee, SomeAccount};
use crate::token::SlackInteractionId;
use vstd::prelude::*;

verus! {

/// How long a conversation waits for a click, unless configured otherwise.
pub const DEFAULT_TIMEOUT_MS: u64 = 10000;

/// A conversation asked for: who has a birthday, where.
#[derive(Debug)]
pub struct New {
    pub team: String,
    pub channel: String,
    pub who: String,
}

/// What the initial message is made from, before it is posted.
#[derive(Debug)]
pub struct Draft {
    pub channel: String,
    pub who: String,
    pub employee: Option<Employee>,
    pub user_id: Option<String>,
}

/// A posted message waiting for a click.
#[derive(Debug)]
pub struct AwaitingInteraction {
    pub channel: String,
    /// The posted message's timestamp, which identifies it in its channel.
    pub ts: String,
    pub who: String,
    pub employee: Option<Employee>,
    pub user_id: Option<String>,
    pub birthday_message: Option<String>,
    /// The token of the message's "Generate message" button.
    pub generate_id: SlackInteractionId,
    /// The token of the message's "Send" button, if it has one.
    pub send_id: Option<SlackInteractionId>,
}

/// The state of one conversation.
#[derive(Debug)]
pub enum BirthdayActorState {
    /// Created, not started.
    New(New),
    /// Waiting for the directory to find the person by name.
    LookingUp(New),
    /// Waiting for the directory to find the person's chat account.
    Linking(New, Employee),
    /// Waiting for a token for the "Generate message" button.
    Registering(Draft),
    /// Waiting for the chat service to post the initial message.
    Posting(Draft, SlackInteractionId),
    /// Waiting for a click, under a timeout.
    AwaitingInteraction(AwaitingInteraction),
    /// Waiting for the assistant's congratulation.
    Generating(AwaitingInteraction),
    /// Waiting for the tokens of the two buttons next to a congratulation:
    /// the generated text, and the first token once it came.
    Suggesting(AwaitingInteraction, String, Option<SlackInteractionId>),
    /// Over, successfully or by timeout.
    Completed,
    /// Over, after a failure.
    Fail,
}

/// An event for one conversation.
#[derive(Debug)]
pub enum BirthdayActorMsg {
    /// Start the conversation.
    Init,
    /// The directory's answer to a lookup by name; `Err` when it failed.
    EmployeeFound(Result<Option<Employee>, ()>),
    /// The directory's answer to a lookup of the chat account.
    AccountFound(Result<Option<SomeAccount>, ()>),
    /// The registry's answer to a registration: the token, or none.
    Registered(Option<SlackInteractionId>),
    /// The chat service's answer to a post: the message's timestamp.
    Posted(Result<String, ()>),
    /// A click on one of the message's buttons, with the button's value.
    OnInteraction(Option<String>),
    /// The assistant's answer: the congratulation.
    Generated(Result<String, ()>),
    /// The timeout armed for the conversation fired.
    Timeout,
    /// The host shuts the conversation down.
    Stop,
}

/// What the host must do for a conversation.
#[derive(Debug)]
pub enum BirthdayAction {
    /// Look the person up by name; answer with `EmployeeFound`.
    FindEmployee { name: String },
    /// Look up the person's account on the chat network (`SomeNetwork::slack`)
    /// in the given team; answer with `AccountFound`.
    FindChatAccount { employee_id: i64, team: String },
    /// Register a callback for this conversation; answer with `Registered`.
    RegisterCallback,
    /// Post a message; answer with `Posted`.
    Post { channel: String, message: BirthdayMessage },
    /// Replace the posted message; failures are only logged.
    Edit { channel: String, ts: String, message: BirthdayMessage },
    /// Ask the assistant for a congratulation; answer with `Generated`.
    Generate { employee: Employee },
    /// Arm the conversation's timeout; when it fires, send `Timeout`.
    ArmTimeout { after_ms: u64 },
    /// Cancel the conversation's timeout.
    CancelTimeout,
    /// Withdraw the callback registered under this token, if still live.
    Revoke { token: SlackInteractionId },
}

/// Whether the conversation is over.
pub open spec fn is_terminal(s: BirthdayActorState) -> bool {
    s is Completed || s is Fail
}

/// The account identifier to mention, from the directory's best-effort
/// answer.
pub open spec fn linked_user(a: Result<Option<SomeAccount>, ()>) -> Option<String> {
    match a {
        Ok(Some(acc)) => acc.subject,
        _ => None,
    }
}

/// The edit that leaves a posted message in its final form.
pub open spec fn final_edit(a: AwaitingInteraction) -> BirthdayAction {
    BirthdayAction::Edit {
        channel: a.channel,
        ts: a.ts,
        message: BirthdayMessage {
            who: a.who,
            user_id: a.user_id,
            generate_message_id: None,
            send_id: None,
            birthday_message: a.birthday_message,
            deleted: true,
        },
    }
}

/// Withdrawing the callbacks of a posted message's buttons.
pub open spec fn revoke_buttons(a: AwaitingInteraction) -> Seq<BirthdayAction> {
    let g = seq![BirthdayAction::Revoke { token: a.generate_id }];
    match a.send_id {
        Some(t) => g.push(BirthdayAction::Revoke { token: t }),
        None => g,
    }
}

/// Withdrawing a callback registered for a message that is not shown yet.
pub open spec fn revoke_pending(t: Option<SlackInteractionId>) -> Seq<BirthdayAction> {
    match t {
        Some(token) => seq![BirthdayAction::Revoke { token }],
        None => Seq::empty(),
    }
}

/// Whether a click's value asks for a generated message.
pub open spec fn asks_generation(value: Option<String>) -> bool {
    match value {
        Some(v) => v@ == generate_value(),
        None => false,
    }
}

/// The conversation's response to one event: its next state and the
/// actions to perform, in order. Events that do not fit the state change
/// nothing.
pub open spec fn birthday_step(timeout_ms: u64, s: BirthdayActorState, msg: BirthdayActorMsg) -> (
    BirthdayActorState,
    Seq<BirthdayAction>,
) {
    match (s, msg) {
        (BirthdayActorState::Completed, _) => (s, Seq::empty()),
        (BirthdayActorState::Fail, _) => (s, Seq::empty()),
        (BirthdayActorState::New(n), BirthdayActorMsg::Init) => (
            BirthdayActorState::LookingUp(n),
            seq![BirthdayAction::FindEmployee { name: n.who }],
        ),
        (BirthdayActorState::LookingUp(n), BirthdayActorMsg::EmployeeFound(found)) => match found {
            Ok(Some(e)) => (
                BirthdayActorState::Linking(n, e),
                seq![
                    BirthdayAction::FindChatAccount { employee_id: e.id, team: n.team },
                ],
            ),
            _ => (BirthdayActorState::Fail, Seq::empty()),
        },
        (BirthdayActorState::Linking(n, e), BirthdayActorMsg::AccountFound(a)) => (
            BirthdayActorState::Registering(
                Draft { channel: n.channel, who: n.who, employee: Some(e), user_id: linked_user(a) },
            ),
            seq![BirthdayAction::RegisterCallback],
        ),
        (BirthdayActorState::Registering(d), BirthdayActorMsg::Registered(t)) => match t {
            Some(token) => (
                BirthdayActorState::Posting(d, token),
                seq![
                    BirthdayAction::Post {
                        channel: d.channel,
                        message: BirthdayMessage {
                            who: d.who,
                            user_id: d.user_id,
                            generate_message_id: Some(token),
                            send_id: None,
                            birthday_message: None,
                            deleted: false,
                        },
                    },
                ],
            ),
            None => (BirthdayActorState::Fail, Seq::empty()),
        },
        (BirthdayActorState::Posting(d, token), BirthdayActorMsg::Posted(p)) => match p {
            Ok(ts) => (
                BirthdayActorState::AwaitingInteraction(
                    AwaitingInteraction {
                        channel: d.channel,
                        ts,
                        who: d.who,
                        employee: d.employee,
                        user_id: d.user_id,
                        birthday_message: None,
                        generate_id: token,
                        send_id: None,
                    },
                ),
                seq![BirthdayAction::ArmTimeout { after_ms: timeout_ms }],
            ),
            Err(_) => (BirthdayActorState::Fail, seq![BirthdayAction::Revoke { token }]),
        },
        (BirthdayActorState::Posting(_, token), BirthdayActorMsg::Stop) => (
            BirthdayActorState::Completed,
            seq![BirthdayAction::Revoke { token }],
        ),
        (BirthdayActorState::AwaitingInteraction(a), BirthdayActorMsg::OnInteraction(value)) => {
            let leave = seq![BirthdayAction::CancelTimeout] + revoke_buttons(a);
            match a.employee {
                Some(e) => if asks_generation(value) {
                    (
                        BirthdayActorState::Generating(a),
                        leave.push(BirthdayAction::Generate { employee: e }),
                    )
                } else {
                    (BirthdayActorState::Fail, leave.push(final_edit(a)))
                },
                None => (BirthdayActorState::Fail, leave.push(final_edit(a))),
            }
        },
        (BirthdayActorState::AwaitingInteraction(a), BirthdayActorMsg::Timeout) => (
            BirthdayActorState::Completed,
            revoke_buttons(a).push(final_edit(a)),
        ),
        (BirthdayActorState::AwaitingInteraction(a), BirthdayActorMsg::Stop) => (
            BirthdayActorState::Completed,
            (seq![BirthdayAction::CancelTimeout] + revoke_buttons(a)).push(final_edit(a)),
        ),
        (BirthdayActorState::Generating(a), BirthdayActorMsg::Generated(g)) => match g {
            Ok(text) => (
                BirthdayActorState::Suggesting(a, text, None),
                seq![BirthdayAction::RegisterCallback],
            ),
            Err(_) => (BirthdayActorState::Fail, seq![final_edit(a)]),
        },
        (BirthdayActorState::Generating(a), BirthdayActorMsg::Stop) => (
            BirthdayActorState::Completed,
            seq![final_edit(a)],
        ),
        (BirthdayActorState::Suggesting(a, text, first), BirthdayActorMsg::Registered(t)) => {
            match (first, t) {
                (None, Some(g)) => (
                    BirthdayActorState::Suggesting(a, text, Some(g)),
                    seq![BirthdayAction::RegisterCallback],
                ),
                (Some(g), Some(send)) => (
                    BirthdayActorState::AwaitingInteraction(
                        AwaitingInteraction {
                            channel: a.channel,
                            ts: a.ts,
                            who: a.who,
                            employee: a.employee,
                            user_id: a.user_id,
                            birthday_message: Some(text),
                            generate_id: g,
                            send_id: Some(send),
                        },
                    ),
                    seq![
                        BirthdayAction::Edit {
                            channel: a.channel,
                            ts: a.ts,
                            message: BirthdayMessage {
                                who: a.who,
                                user_id: a.user_id,
                                generate_message_id: Some(g),
                                send_id: Some(send),
                                birthday_message: Some(text),
                                deleted: false,
                            },
                        },
                        BirthdayAction::ArmTimeout { after_ms: timeout_ms },
                    ],
                ),
                (_, None) => (BirthdayActorState::Fail, revoke_pending(first).push(final_edit(a))),
            }
        },
        (BirthdayActorState::Suggesting(a, _, first), BirthdayActorMsg::Stop) => (
            BirthdayActorState::Completed,
            revoke_pending(first).push(final_edit(a)),
        ),
        (_, BirthdayActorMsg::Stop) => (BirthdayActorState::Completed, Seq::empty()),
        (s0, _) => (s0, Seq::empty()),
    }
}

fn final_edit_of(a: &AwaitingInteraction) -> (r: BirthdayAction)
    ensures
        r == final_edit(*a),
{
    BirthdayAction::Edit {
        channel: a.channel.clone(),
        ts: a.ts.clone(),
        message: BirthdayMessage::deleted(&a.who, &a.user_id, &a.birthday_message),
    }
}

fn revoke_buttons_of(a: &AwaitingInteraction, out: &mut Vec<BirthdayAction>)
    ensures
        final(out)@ == old(out)@ + revoke_buttons(*a),
{
    let ghost start = out@;
    out.push(BirthdayAction::Revoke { token: a.generate_id });
    match a.send_id {
        Some(t) => out.push(BirthdayAction::Revoke { token: t }),
        None => {},
    }
    assert(out@ =~= start + revoke_buttons(*a));
}

fn revoke_pending_of(t: Option<SlackInteractionId>) -> (r: Vec<BirthdayAction>)
    ensures
        r@ == revoke_pending(t),
{
    let mut out: Vec<BirthdayAction> = Vec::new();
    match t {
        Some(token) => out.push(BirthdayAction::Revoke { token }),
        None => {},
    }
    assert(out@ =~= revoke_pending(t));
    out
}

fn is_generate_request(value: &Option<String>) -> (r: bool)
    ensures
        r == asks_generation(*value),
{
    match value {
        Some(v) => *v == String::from_str("generate-message"),
        None => false,
    }
}

fn one(a: BirthdayAction) -> (r: Vec<BirthdayAction>)
    ensures
        r@ == seq![a],
{
    let mut v: Vec<BirthdayAction> = Vec::new();
    v.push(a);
    v
}

fn two(a: BirthdayAction, b: BirthdayAction) -> (r: Vec<BirthdayAction>)
    ensures
        r@ == seq![a, b],
{
    let mut v: Vec<BirthdayAction> = Vec::new();
    v.push(a);
    v.push(b);
    v
}

/// The workflow of a birthday conversation, with its configuration.
#[derive(Clone, Copy, Debug)]
pub struct BirthdayActor {
    /// How long the conversation waits for a click, in milliseconds.
    pub timeout_ms: u64,
}

impl BirthdayActor {
    /// The workflow with the default timeout.
    pub fn new() -> (r: BirthdayActor)
        ensures
            r.timeout_ms == DEFAULT_TIMEOUT_MS,
    {
        BirthdayActor { timeout_ms: DEFAULT_TIMEOUT_MS }
    }

    /// The workflow with the given timeout.
    pub fn with_timeout(timeout_ms: u64) -> (r: BirthdayActor)
        ensures
            r.timeout_ms == timeout_ms,
    {
        BirthdayActor { timeout_ms }
    }

    /// The state of a conversation that has been asked for and not started.
    pub fn start(team: String, channel: String, who: String) -> (r: BirthdayActorState)
        ensures
            r == BirthdayActorState::New(New { team, channel, who }),
    {
        BirthdayActorState::New(New { team, channel, who })
    }

    /// Handles one event: returns the conversation's next state and the
    /// actions to perform, in order.
    pub fn handle(&self, state: BirthdayActorState, msg: BirthdayActorMsg) -> (r: (
        BirthdayActorState,
        Vec<BirthdayAction>,
    ))
        ensures
            (r.0, r.1@) == birthday_step(self.timeout_ms, state, msg),
    {
        let none: Vec<BirthdayAction> = Vec::new();
        match (state, msg) {
            (BirthdayActorState::Completed, _) => (BirthdayActorState::Completed, none),
            (BirthdayActorState::Fail, _) => (BirthdayActorState::Fail, none),
            (BirthdayActorState::New(n), BirthdayActorMsg::Init) => {
                let act = BirthdayAction::FindEmployee { name: n.who.clone() };
                (BirthdayActorState::LookingUp(n), one(act))
            },
            (BirthdayActorState::LookingUp(n), BirthdayActorMsg::EmployeeFound(found)) => {
                match found {
                    Ok(Some(e)) => {
                        let act = BirthdayAction::FindChatAccount {
                            employee_id: e.id,
                            team: n.team.clone(),
                        };
                        (BirthdayActorState::Linking(n, e), one(act))
                    },
                    _ => (BirthdayActorState::Fail, none),
                }
            },
            (BirthdayActorState::Linking(n, e), BirthdayActorMsg::AccountFound(a)) => {
                let user_id = match a {
                    Ok(Some(acc)) => acc.subject,
                    _ => None,
                };
                let d = Draft { channel: n.channel, who: n.who, employee: Some(e), user_id };
                (BirthdayActorState::Registering(d), one(BirthdayAction::RegisterCallback))
            },
            (BirthdayActorState::Registering(d), BirthdayActorMsg::Registered(t)) => match t {
                Some(token) => {
                    let act = BirthdayAction::Post {
                        channel: d.channel.clone(),
                        message: BirthdayMessage::initial(&d.who, &d.user_id, token),
                    };
                    (BirthdayActorState::Posting(d, token), one(act))
                },
                None => (BirthdayActorState::Fail, none),
            },
            (BirthdayActorState::Posting(d, token), BirthdayActorMsg::Posted(p)) => match p {
                Ok(ts) => {
                    let a = AwaitingInteraction {
                        channel: d.channel,
                        ts,
                        who: d.who,
                        employee: d.employee,
                        user_id: d.user_id,
                        birthday_message: None,
                        generate_id: token,
                        send_id: None,
                    };
                    (
                        BirthdayActorState::AwaitingInteraction(a),
                        one(BirthdayAction::ArmTimeout { after_ms: self.timeout_ms }),
                    )
                },
                Err(_) => (BirthdayActorState::Fail, one(BirthdayAction::Revoke { token })),
            },
            (BirthdayActorState::Posting(_, token), BirthdayActorMsg::Stop) => {
                (BirthdayActorState::Completed, one(BirthdayAction::Revoke { token }))
            },
            (
                BirthdayActorState::AwaitingInteraction(a),
                BirthdayActorMsg::OnInteraction(value),
            ) => {
                let generate = is_generate_request(&value);
                let mut out = one(BirthdayAction::CancelTimeout);
                revoke_buttons_of(&a, &mut out);
                match &a.employee {
                    Some(e) => {
                        if generate {
                            out.push(BirthdayAction::Generate { employee: e.copy() });
                            (BirthdayActorState::Generating(a), out)
                        } else {
                            out.push(final_edit_of(&a));
                            (BirthdayActorState::Fail, out)
                        }
                    },
                    None => {
                        out.push(final_edit_of(&a));
                        (BirthdayActorState::Fail, out)
                    },
                }
            },
            (BirthdayActorState::AwaitingInteraction(a), BirthdayActorMsg::Timeout) => {
                let mut out: Vec<BirthdayAction> = Vec::new();
                revoke_buttons_of(&a, &mut out);
                assert(out@ =~= revoke_buttons(a));
                out.push(final_edit_of(&a));
                (BirthdayActorState::Completed, out)
            },
            (BirthdayActorState::AwaitingInteraction(a), BirthdayActorMsg::Stop) => {
                let mut out = one(BirthdayAction::CancelTimeout);
                revoke_buttons_of(&a, &mut out);
                out.push(final_edit_of(&a));
                (BirthdayActorState::Completed, out)
            },
            (BirthdayActorState::Generating(a), BirthdayActorMsg::Generated(g)) => match g {
                Ok(text) => (
                    BirthdayActorState::Suggesting(a, text, None),
                    one(BirthdayAction::RegisterCallback),
                ),
                Err(_) => (BirthdayActorState::Fail, one(final_edit_of(&a))),
            },
            (BirthdayActorState::Generating(a), BirthdayActorMsg::Stop) => {
                (BirthdayActorState::Completed, one(final_edit_of(&a)))
            },
            (BirthdayActorState::Suggesting(a, text, first), BirthdayActorMsg::Registered(t)) => {
                match (first, t) {
                    (None, Some(g)) => (
                        BirthdayActorState::Suggesting(a, text, Some(g)),
                        one(BirthdayAction::RegisterCallback),
                    ),
                    (Some(g), Some(send)) => {
                        let edit = BirthdayAction::Edit {
                            channel: a.channel.clone(),
                            ts: a.ts.clone(),
                            message: BirthdayMessage::suggestion(
                                &a.who,
                                &a.user_id,
                                g,
                                &text,
                                Some(send),
                            ),
                        };
                        let next = AwaitingInteraction {
                            channel: a.channel,
                            ts: a.ts,
                            who: a.who,
                            employee: a.employee,
                            user_id: a.user_id,
                            birthday_message: Some(text),
                            generate_id: g,
                            send_id: Some(send),
                        };
                        (
                            BirthdayActorState::AwaitingInteraction(next),
                            two(edit, BirthdayAction::ArmTimeout { after_ms: self.timeout_ms }),
                        )
                    },
                    (_, None) => {
                        let mut out = revoke_pending_of(first);
                        out.push(final_edit_of(&a));
                        (BirthdayActorState::Fail, out)
                    },
                }
            },
            (BirthdayActorState::Suggesting(a, _, first), BirthdayActorMsg::Stop) => {
                let mut out = revoke_pending_of(first);
                out.push(final_edit_of(&a));
                (BirthdayActorState::Completed, out)
            },
            (_, BirthdayActorMsg::Stop) => (BirthdayActorState::Completed, none),
            (s0, _) => (s0, none),
        }
    }
}

/// Terminal idempotence: once a conversation is over, every further event
/// leaves its state as it is and asks for nothing.
pub proof fn lemma_terminal_is_final(timeout_ms: u64, s: BirthdayActorState, msg: BirthdayActorMsg)
    requires
        is_terminal(s),
    ensures
        birthday_step(timeout_ms, s, msg).0 == s,
        birthday_step(timeout_ms, s, msg).1.len() == 0,
{
}

/// Whether the conversation has a message on the channel.
pub open spec fn has_posted(s: BirthdayActorState) -> bool {
    s is AwaitingInteraction || s is Generating || s is Suggesting
}

/// Whether `act` edits a message into a final form without buttons.
pub open spec fn clears_buttons(act: BirthdayAction) -> bool {
    match act {
        BirthdayAction::Edit { message, .. } => message.deleted && message.generate_message_id is None
            && message.send_id is None,
        _ => false,
    }
}

/// No stale buttons: whenever a conversation with a message on the
/// channel ends, for whatever reason, its last action edits that message
/// into a final form without buttons.
pub proof fn lemma_ending_clears_buttons(
    timeout_ms: u64,
    s: BirthdayActorState,
    msg: BirthdayActorMsg,
)
    requires
        has_posted(s),
        is_terminal(birthday_step(timeout_ms, s, msg).0),
    ensures
        ({
            let acts = birthday_step(timeout_ms, s, msg).1;
            acts.len() > 0 && clears_buttons(acts.last())
        }),
{
}

/// Whether `acts` withdraw the callback registered under `token`.
pub open spec fn revokes(acts: Seq<BirthdayAction>, token: SlackInteractionId) -> bool {
    exists|i: int| 0 <= i < acts.len() && #[trigger] acts[i] == BirthdayAction::Revoke { token }
}

/// No orphaned subscriptions: whenever a conversation waiting for a click
/// ends, for whatever reason, it withdraws the callbacks of its buttons.
pub proof fn lemma_ending_revokes_buttons(
    timeout_ms: u64,
    a: AwaitingInteraction,
    msg: BirthdayActorMsg,
)
    requires
        is_terminal(
            birthday_step(timeout_ms, BirthdayActorState::AwaitingInteraction(a), msg).0,
        ),
    ensures
        ({
            let acts = birthday_step(timeout_ms, BirthdayActorState::AwaitingInteraction(a), msg).1;
            &&& revokes(acts, a.generate_id)
            &&& (a.send_id matches Some(t) ==> revokes(acts, t))
        }),
{
    let acts = birthday_step(timeout_ms, BirthdayActorState::AwaitingInteraction(a), msg).1;
    let r = revoke_buttons(a);
    let lead: Seq<BirthdayAction> = match msg {
        BirthdayActorMsg::Timeout => Seq::empty(),
        _ => seq![BirthdayAction::CancelTimeout],
    };
    assert(acts == (lead + r).push(final_edit(a)));
    assert(acts[lead.len() as int] == BirthdayAction::Revoke { token: a.generate_id });
    if let Some(t) = a.send_id {
        assert(acts[lead.len() as int + 1] == BirthdayAction::Revoke { token: t });
    }
}

} // verus!
