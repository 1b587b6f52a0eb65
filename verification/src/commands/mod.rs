//! The bot's slash commands: what each one answers and what it stores.
use vstd::prelude::*;
use crate::structs::feed::{ServerData, ServerDataView, stored_view};

pub mod builder;
pub mod export;
pub mod latency;
pub mod set;
pub mod subscriptions;
pub mod subscribe;
pub mod unsubscribe;
pub mod unset;

verus! {

/// The kind of a channel mentioned in a command.
#[derive(Debug, Clone, Copy, PartialEq, Eq)]
pub enum ChannelKind {
    Text,
    Other,
}

/// A channel mentioned in a command.
#[derive(Debug, Clone, Copy, PartialEq, Eq)]
pub struct ChannelInfo {
    pub id: u64,
    pub kind: ChannelKind,
}

/// The value a user gave to a command option.
#[derive(Debug, PartialEq, Eq)]
pub enum OptionValue {
    SubCommand(Vec<CommandOption>),
    String(String),
    Integer(i64),
    Channel(ChannelInfo),
    Other,
}

/// A command option as the user filled it in.
#[derive(Debug, PartialEq, Eq)]
pub struct CommandOption {
    pub name: String,
    pub value: OptionValue,
}

/// The answer to a command: the message to send, and the record to store
/// for the server first, if any.
#[derive(Debug, Clone, PartialEq, Eq)]
pub struct Reply {
    pub message: String,
    pub update: Option<ServerData>,
}

/// A reply as the pair of its message text and the stored record.
pub open spec fn reply_view(r: Reply) -> (Seq<char>, Option<ServerDataView>) {
    (r.message@, stored_view(r.update))
}

/// A reply that stores nothing.
pub fn message_only(text: &str) -> (r: Reply)
    ensures
        reply_view(r) == (text@, None::<ServerDataView>),
{
    Reply { message: String::from_str(text), update: None }
}

} // verus!
