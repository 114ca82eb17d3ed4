//! Orchestration core of a chat bot that congratulates employees on their
//! birthday.
//!
//! - `token`: interaction tokens and their text form.
//! - `registry`: correlates button callbacks with waiting conversations.
//! - `watchdog`: the timeout supervisor.
//! - `router`: one conversation instance per (team, channel).
//! - `conversation`: the birthday conversation's state machine.
//! - `message`: the channel message and the blocks that draw it.
//! - `command`: what a chat message asks of the bot.
//! - `prompt` and `assistant`: the request to the text-generation
//!   assistant and the decisions taken while waiting for its reply.
//! - `model`, `profile`, `api`: records handed in by collaborators.

pub mod api;
pub mod assistant;
pub mod command;
pub mod conversation;
pub mod message;
pub mod model;
pub mod profile;
pub mod prompt;
pub mod registry;
pub mod router;
pub mod token;
pub mod watchdog;
