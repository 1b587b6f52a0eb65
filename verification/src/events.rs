//! Dispatching the events of the chat service: which command an
//! interaction runs, and which commands are registered when the bot starts.
use vstd::prelude::*;
use crate::commands::builder::CommandSpec;
use crate::commands::export::is_export_command;
use crate::commands::latency::is_latency_command;
use crate::commands::set::is_set_command;
use crate::commands::subscribe::is_subscribe_command;
use crate::commands::subscriptions::is_subscriptions_command;
use crate::commands::unset::channel::is_unset_command;
use crate::commands::unsubscribe::is_unsubscribe_command;

verus! {

/// The command that an interaction runs.
#[derive(Debug, Clone, Copy, PartialEq, Eq)]
pub enum CommandRoute {
    Latency,
    SetOption,
    UnsetOption,
    Subscribe,
    Unsubscribe,
    Subscriptions,
    Export,
    /// No command has this name.
    Unknown,
}

/// The command with a given name.
pub open spec fn command_route(name: Seq<char>) -> CommandRoute {
    if name == "latency"@ {
        CommandRoute::Latency
    } else if name == "set"@ {
        CommandRoute::SetOption
    } else if name == "unset"@ {
        CommandRoute::UnsetOption
    } else if name == "subscribe"@ {
        CommandRoute::Subscribe
    } else if name == "unsubscribe"@ {
        CommandRoute::Unsubscribe
    } else if name == "subscriptions"@ {
        CommandRoute::Subscriptions
    } else if name == "export"@ {
        CommandRoute::Export
    } else {
        CommandRoute::Unknown
    }
}

/// How many commands are registered.
pub open spec fn command_count() -> nat {
    7
}

/// Whether a list of command descriptions is the registered commands, in
/// order: latency, set, unset, subscribe, unsubscribe, subscriptions,
/// export.
pub open spec fn is_command_list(v: Seq<CommandSpec>) -> bool {
    &&& v.len() == command_count()
    &&& is_latency_command(v[0])
    &&& is_set_command(v[1])
    &&& is_unset_command(v[2])
    &&& is_subscribe_command(v[3])
    &&& is_unsubscribe_command(v[4])
    &&& is_subscriptions_command(v[5])
    &&& is_export_command(v[6])
}

/// The handler of the chat service's events.
pub struct Events;

impl Events {
    /// The command that an interaction with this command name runs.
    pub fn route(name: &str) -> (r: CommandRoute)
        ensures
            r == command_route(name@),
    {
        let n = String::from_str(name);
        if n == String::from_str("latency") {
            CommandRoute::Latency
        } else if n == String::from_str("set") {
            CommandRoute::SetOption
        } else if n == String::from_str("unset") {
            CommandRoute::UnsetOption
        } else if n == String::from_str("subscribe") {
            CommandRoute::Subscribe
        } else if n == String::from_str("unsubscribe") {
            CommandRoute::Unsubscribe
        } else if n == String::from_str("subscriptions") {
            CommandRoute::Subscriptions
        } else if n == String::from_str("export") {
            CommandRoute::Export
        } else {
            CommandRoute::Unknown
        }
    }

    /// The reply to a command that does not exist.
    pub fn unknown_command(name: &str) -> (s: String)
        ensures
            s@ == "No such command found: "@ + name@,
    {
        let mut s = String::from_str("No such command found: ");
        s.append(name);
        s
    }

    /// Whether the command with this name offers suggestions while typing.
    pub fn autocompletes(name: &str) -> (b: bool)
        ensures
            b == (name@ == "unsubscribe"@),
    {
        String::from_str(name) == String::from_str("unsubscribe")
    }

    /// The descriptions of all commands, in the order they are registered.
    pub fn commands_to_register() -> (v: Vec<CommandSpec>)
        ensures
            is_command_list(v@),
    {
        let mut v = Vec::new();
        v.push(crate::commands::latency::register());
        v.push(crate::commands::set::register());
        v.push(crate::commands::unset::channel::register());
        v.push(crate::commands::subscribe::register());
        v.push(crate::commands::unsubscribe::register());
        v.push(crate::commands::subscriptions::register());
        v.push(crate::commands::export::register());
        v
    }

    /// The commands to register when the bot is ready, given how many are
    /// registered already: all of them, unless more are registered than
    /// there are.
    pub fn registration(registered: usize) -> (r: Option<Vec<CommandSpec>>)
        ensures
            r is Some <==> command_count() >= registered,
            r matches Some(v) ==> is_command_list(v@),
    {
        let commands = Events::commands_to_register();
        if commands.len() >= registered {
            Some(commands)
        } else {
            None
        }
    }
}

} // verus!
