//! What a chat message asks of the bot: `hey <anything>` is answered with a
//! greeting, and `fake birthday <name>` starts a birthday conversation.

use crate::message::{mention, user_mention};
use vstd::prelude::*;

verus! {

/// What a chat message asks for.
#[derive(Debug)]
pub enum Command {
    /// Greet `user` in `channel`.
    Hey { user: String, channel: String },
    /// Start a birthday conversation for `who` in `channel`.
    Birthday { channel: String, who: String },
    /// Nothing for the bot.
    Ignore,
}

/// The whitespace-separated words of a text, as std splits them.
pub uninterp spec fn words_of(s: Seq<char>) -> Seq<Seq<char>>;

/// Relies on std's `str::split_whitespace`: the words between runs of
/// Unicode white space, in order.
#[verifier::external_body]
fn split_words(s: &str) -> (r: Vec<String>)
    ensures
        r@.map_values(|w: String| w@) == words_of(s@),
{
    s.split_whitespace().map(|w| w.to_string()).collect()
}

/// Words joined with single spaces.
pub open spec fn joined(ws: Seq<Seq<char>>) -> Seq<char>
    decreases ws.len(),
{
    if ws.len() == 0 {
        Seq::empty()
    } else if ws.len() == 1 {
        ws[0]
    } else {
        joined(ws.drop_last()) + seq![' '] + ws.last()
    }
}

/// What a message made of `words` asks for, given its sender and channel.
pub open spec fn command_of(
    words: Seq<Seq<char>>,
    sender: Option<Seq<char>>,
    channel: Option<Seq<char>>,
) -> CommandModel {
    match (sender, channel) {
        (Some(u), Some(c)) => if words.len() >= 2 && words[0] == "hey"@ {
            CommandModel::Hey { user: u, channel: c }
        } else if words.len() >= 2 && words[0] == "fake"@ && words[1] == "birthday"@ {
            CommandModel::Birthday { channel: c, who: joined(words.subrange(2, words.len() as int)) }
        } else {
            CommandModel::Ignore
        },
        _ => CommandModel::Ignore,
    }
}

/// The abstract value of a command.
pub enum CommandModel {
    Hey { user: Seq<char>, channel: Seq<char> },
    Birthday { channel: Seq<char>, who: Seq<char> },
    Ignore,
}

pub open spec fn command_model(c: Command) -> CommandModel {
    match c {
        Command::Hey { user, channel } => CommandModel::Hey { user: user@, channel: channel@ },
        Command::Birthday { channel, who } => CommandModel::Birthday {
            channel: channel@,
            who: who@,
        },
        Command::Ignore => CommandModel::Ignore,
    }
}

pub open spec fn text_model(t: Option<String>) -> Option<Seq<char>> {
    match t {
        Some(s) => Some(s@),
        None => None,
    }
}

/// `words[from..]` joined with single spaces.
pub fn join_from(words: &Vec<String>, from: usize) -> (r: String)
    requires
        from <= words@.len(),
    ensures
        r@ == joined(words@.map_values(|w: String| w@).subrange(from as int, words@.len() as int)),
{
    let ghost ws = words@.map_values(|w: String| w@);
    let mut out = String::new();
    let mut i: usize = from;
    while i < words.len()
        invariant
            from <= i <= words@.len(),
            ws == words@.map_values(|w: String| w@),
            out@ == joined(ws.subrange(from as int, i as int)),
        decreases words@.len() - i,
    {
        let ghost before = ws.subrange(from as int, i as int);
        let ghost after = ws.subrange(from as int, i + 1);
        assert(after.drop_last() == before);
        assert(after.last() == ws[i as int]);
        let ghost prev = out@;
        assert(ws[i as int] == words@[i as int]@);
        if i > from {
            out.append(" ");
        }
        out.append(words[i].as_str());
        proof {
            if i == from {
                assert(after.len() == 1);
                assert(out@ =~= joined(after));
            } else {
                assert(joined(after) == joined(before) + seq![' '] + ws[i as int]);
                assert(prev == joined(before));
                reveal_strlit(" ");
                assert(out@ =~= prev + seq![' '] + ws[i as int]);
            }
        }
        i = i + 1;
    }
    out
}

/// What the words of a message ask for, given its sender and channel.
pub fn classify(words: &Vec<String>, sender: &Option<String>, channel: &Option<String>) -> (r:
    Command)
    ensures
        command_model(r) == command_of(
            words@.map_values(|w: String| w@),
            text_model(*sender),
            text_model(*channel),
        ),
{
    let ghost ws = words@.map_values(|w: String| w@);
    match (sender, channel) {
        (Some(u), Some(c)) => {
            if words.len() >= 2 {
                assert(ws[0] == words@[0]@ && ws[1] == words@[1]@);
                if words[0] == String::from_str("hey") {
                    return Command::Hey { user: u.clone(), channel: c.clone() };
                }
                if words[0] == String::from_str("fake") && words[1] == String::from_str(
                    "birthday",
                ) {
                    return Command::Birthday { channel: c.clone(), who: join_from(words, 2) };
                }
            }
            Command::Ignore
        },
        _ => Command::Ignore,
    }
}

/// What a chat message asks for, given its sender and channel.
pub fn parse_command(text: &str, sender: &Option<String>, channel: &Option<String>) -> (r:
    Command)
    ensures
        command_model(r) == command_of(words_of(text@), text_model(*sender), text_model(*channel)),
{
    let words = split_words(text);
    classify(&words, sender, channel)
}

/// The greeting that answers `hey`.
pub open spec fn hey_text(user: Seq<char>) -> Seq<char> {
    "Hey "@ + mention(user)
}

/// The greeting that answers `hey` from `user`.
pub fn hey_reply(user: &String) -> (r: String)
    ensures
        r@ == hey_text(user@),
{
    let mut out = String::from_str("Hey ");
    let m = user_mention(user);
    out.append(m.as_str());
    out
}

} // verus!
