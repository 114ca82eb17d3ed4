//! The channel message of a birthday conversation, and the blocks it is
//! drawn with.

use crate::model::copy_text;
use crate::token::{hyphenated, SlackInteractionId};
use slack_morphism::SlackTextFormat;
use slack_morphism::SlackUserId;
use vstd::prelude::*;

verus! {

/// The value carried by the button that asks for a generated message.
pub open spec fn generate_value() -> Seq<char> {
    "generate-message"@
}

/// The value carried by the button that sends the generated message.
pub open spec fn send_value() -> Seq<char> {
    "send-message"@
}

/// One block of a message, as the chat service draws it.
#[derive(Debug)]
pub enum Block {
    /// A markdown text section.
    Section(String),
    /// A row holding one button: its action identifier, label and value.
    Actions { action_id: String, label: String, value: String },
    /// A horizontal rule.
    Divider,
}

/// The abstract value of a block.
pub enum BlockModel {
    Section(Seq<char>),
    Actions { action_id: Seq<char>, label: Seq<char>, value: Seq<char> },
    Divider,
}

pub open spec fn block_model(b: Block) -> BlockModel {
    match b {
        Block::Section(t) => BlockModel::Section(t@),
        Block::Actions { action_id, label, value } => BlockModel::Actions {
            action_id: action_id@,
            label: label@,
            value: value@,
        },
        Block::Divider => BlockModel::Divider,
    }
}

/// What the bot shows on the channel for one birthday.
#[derive(Debug)]
pub struct BirthdayMessage {
    /// The name the birthday was announced with.
    pub who: String,
    /// The person's account on the chat service, to mention them by.
    pub user_id: Option<String>,
    /// The token of the "Generate message" button, if it is shown.
    pub generate_message_id: Option<SlackInteractionId>,
    /// The token of the "Send" button, if it is shown.
    pub send_id: Option<SlackInteractionId>,
    /// The generated congratulation, once there is one.
    pub birthday_message: Option<String>,
    /// Whether the conversation is over and the message final.
    pub deleted: bool,
}

/// How a user is mentioned in chat text.
pub open spec fn mention(user: Seq<char>) -> Seq<char> {
    "<@"@ + user + ">"@
}

/// The name the message greets: a mention of the account, else the name.
pub open spec fn addressee(who: Seq<char>, user_id: Option<String>) -> Seq<char> {
    match user_id {
        Some(u) => mention(u@),
        None => who,
    }
}

/// Relies on slack_morphism's `SlackTextFormat` for `SlackUserId`, which
/// writes `<@`, the identifier and `>`.
#[verifier::external_body]
pub(crate) fn user_mention(user: &String) -> (r: String)
    ensures
        r@ == mention(user@),
{
    SlackUserId(user.clone()).to_slack_format()
}

/// A button row as the chat service draws it.
pub open spec fn button_row(token: SlackInteractionId, label: Seq<char>, value: Seq<char>) -> Seq<
    BlockModel,
> {
    seq![BlockModel::Actions { action_id: hyphenated(token.0), label, value }]
}

/// The blocks that draw a message, top to bottom.
pub open spec fn rendered(m: BirthdayMessage) -> Seq<BlockModel> {
    let head = seq![
        BlockModel::Section(
            "Happy birthday to "@ + addressee(m.who@, m.user_id) + " :partying_face: :tada:"@,
        ),
    ];
    let generate = match m.generate_message_id {
        Some(t) => button_row(t, "Generate message"@, generate_value()),
        None => Seq::empty(),
    };
    let text = match m.birthday_message {
        Some(b) => seq![BlockModel::Divider, BlockModel::Section("> "@ + b@)],
        None => Seq::empty(),
    };
    let send = match m.send_id {
        Some(t) => button_row(t, "Send"@, send_value()),
        None => Seq::empty(),
    };
    let last = if m.deleted {
        seq![BlockModel::Section("You snooze, you loose! :alarm_clock:"@)]
    } else {
        Seq::empty()
    };
    head + generate + text + send + last
}

fn button(token: SlackInteractionId, label: &str, value: &str) -> (r: Block)
    ensures
        seq![block_model(r)] == button_row(token, label@, value@),
{
    Block::Actions {
        action_id: token.to_action_id(),
        label: String::from_str(label),
        value: String::from_str(value),
    }
}

impl BirthdayMessage {
    /// The first message: a greeting and a "Generate message" button.
    pub fn initial(who: &String, user_id: &Option<String>, generate_message_id: SlackInteractionId) -> (r:
        BirthdayMessage)
        ensures
            r == (BirthdayMessage {
                who: *who,
                user_id: *user_id,
                generate_message_id: Some(generate_message_id),
                send_id: None,
                birthday_message: None,
                deleted: false,
            }),
    {
        BirthdayMessage {
            who: who.clone(),
            user_id: copy_text(user_id),
            generate_message_id: Some(generate_message_id),
            send_id: None,
            birthday_message: None,
            deleted: false,
        }
    }

    /// A message showing a generated congratulation, with buttons to
    /// generate another and to send it.
    pub fn suggestion(
        who: &String,
        user_id: &Option<String>,
        generate_message_id: SlackInteractionId,
        birthday_message: &String,
        send_id: Option<SlackInteractionId>,
    ) -> (r: BirthdayMessage)
        ensures
            r == (BirthdayMessage {
                who: *who,
                user_id: *user_id,
                generate_message_id: Some(generate_message_id),
                send_id,
                birthday_message: Some(*birthday_message),
                deleted: false,
            }),
    {
        BirthdayMessage {
            who: who.clone(),
            user_id: copy_text(user_id),
            generate_message_id: Some(generate_message_id),
            send_id,
            birthday_message: Some(birthday_message.clone()),
            deleted: false,
        }
    }

    /// The final form of a message whose conversation is over: no buttons,
    /// the generated text if there was one, and a note that time ran out.
    pub fn deleted(who: &String, user_id: &Option<String>, birthday_message: &Option<String>) -> (r:
        BirthdayMessage)
        ensures
            r == (BirthdayMessage {
                who: *who,
                user_id: *user_id,
                generate_message_id: None,
                send_id: None,
                birthday_message: *birthday_message,
                deleted: true,
            }),
    {
        BirthdayMessage {
            who: who.clone(),
            user_id: copy_text(user_id),
            generate_message_id: None,
            send_id: None,
            birthday_message: copy_text(birthday_message),
            deleted: true,
        }
    }

    /// The blocks that draw this message, top to bottom.
    pub fn render_template(&self) -> (r: Vec<Block>)
        ensures
            r@.map_values(|b: Block| block_model(b)) == rendered(*self),
    {
        let name = match &self.user_id {
            Some(u) => user_mention(u),
            None => self.who.clone(),
        };
        let mut greeting = String::from_str("Happy birthday to ");
        greeting.append(name.as_str());
        greeting.append(" :partying_face: :tada:");
        let mut out: Vec<Block> = Vec::new();
        out.push(Block::Section(greeting));
        let ghost head = out@.map_values(|b: Block| block_model(b));
        match self.generate_message_id {
            Some(t) => out.push(button(t, "Generate message", "generate-message")),
            None => {},
        }
        let ghost upto_generate = out@.map_values(|b: Block| block_model(b));
        match &self.birthday_message {
            Some(b) => {
                out.push(Block::Divider);
                let mut quoted = String::from_str("> ");
                quoted.append(b.as_str());
                out.push(Block::Section(quoted));
            },
            None => {},
        }
        let ghost upto_text = out@.map_values(|b: Block| block_model(b));
        match self.send_id {
            Some(t) => out.push(button(t, "Send", "send-message")),
            None => {},
        }
        let ghost upto_send = out@.map_values(|b: Block| block_model(b));
        if self.deleted {
            out.push(Block::Section(String::from_str("You snooze, you loose! :alarm_clock:")));
        }
        proof {
            let m = *self;
            let all = out@.map_values(|b: Block| block_model(b));
            let generate = match m.generate_message_id {
                Some(t) => button_row(t, "Generate message"@, generate_value()),
                None => Seq::<BlockModel>::empty(),
            };
            let text = match m.birthday_message {
                Some(b) => seq![BlockModel::Divider, BlockModel::Section("> "@ + b@)],
                None => Seq::<BlockModel>::empty(),
            };
            let send = match m.send_id {
                Some(t) => button_row(t, "Send"@, send_value()),
                None => Seq::<BlockModel>::empty(),
            };
            assert(upto_generate =~= head + generate);
            assert(upto_text =~= head + generate + text);
            assert(upto_send =~= head + generate + text + send);
            assert(all =~= rendered(m));
        }
        out
    }
}

} // verus!
