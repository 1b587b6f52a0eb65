//! `/unset channel`: stops posting feed updates, deleting the server's
//! webhook.
use vstd::prelude::*;
use crate::commands::{CommandOption, OptionValue, Reply, reply_view, message_only};
use crate::structs::feed::{FeedWebhook, ServerData, ServerDataView, WebhookView, stored_view};

use crate::commands::builder::{CommandSpec, OptionKind, OptionSpec, command_shape, option_shape};
verus! {

/// What the command does next.
#[derive(Debug, Clone, PartialEq, Eq)]
pub enum UnsetStep {
    Done(Reply),
    /// Fetch this webhook from the chat service and delete it.
    DeleteWebhook(FeedWebhook),
}

/// How deleting the webhook went.
#[derive(Debug, Clone, Copy, PartialEq, Eq)]
pub enum WebhookRemoval {
    /// The webhook could not be fetched.
    NotFound,
    /// The webhook was fetched but not deleted.
    DeleteFailed,
    Deleted,
}

/// The first step of the command: `Ok` with the webhook to delete, or `Err`
/// with the reply.
pub open spec fn unset_start(options: Seq<CommandOption>, stored: Option<ServerDataView>) -> Result<WebhookView, Seq<char>> {
    if !(options[0].value is SubCommand) {
        Err("Select a subcommand."@)
    } else {
        match stored {
            None => Err("No channel set already."@),
            Some(d) => if d.feed_channel_id is None && d.feed_webhook is None {
                Err("No channel set already."@)
            } else {
                Ok(d.feed_webhook->0)
            },
        }
    }
}

/// A step as an `unset_start` result.
pub open spec fn step_view(s: UnsetStep) -> Result<WebhookView, Seq<char>> {
    match s {
        UnsetStep::Done(r) => Err(r.message@),
        UnsetStep::DeleteWebhook(w) => Ok(w@),
    }
}

/// Whether a channel is stored without its webhook, the one state in which
/// the command has no answer.
pub open spec fn unset_lacks_webhook(options: Seq<CommandOption>, stored: Option<ServerDataView>) -> bool {
    &&& options[0].value is SubCommand
    &&& stored matches Some(d)
    &&& d.feed_channel_id is Some
    &&& d.feed_webhook is None
}

/// The record without its feed channel and webhook.
pub open spec fn channel_unset(d: ServerDataView) -> ServerDataView {
    ServerDataView { feed_channel_id: None, feed_webhook: None, ..d }
}

/// The answer once the webhook was dealt with.
pub open spec fn unset_outcome(d: ServerDataView, removal: WebhookRemoval) -> (Seq<char>, Option<ServerDataView>) {
    match removal {
        WebhookRemoval::NotFound => ("Could not get webhook."@, None),
        WebhookRemoval::DeleteFailed => ("Could not delete webhook."@, None),
        WebhookRemoval::Deleted => ("Unset channel."@, Some(channel_unset(d))),
    }
}

/// Starts the command.
pub fn run(options: &Vec<CommandOption>, stored: &Option<ServerData>) -> (step: UnsetStep)
    requires
        options.len() > 0,
        !unset_lacks_webhook(options@, stored_view(*stored)),
    ensures
        step_view(step) == unset_start(options@, stored_view(*stored)),
        step matches UnsetStep::Done(r) ==> r.update is None,
{
    match &options[0].value {
        OptionValue::SubCommand(_) => {},
        _ => return UnsetStep::Done(message_only("Select a subcommand.")),
    }
    match stored {
        None => UnsetStep::Done(message_only("No channel set already.")),
        Some(data) => match &data.feed_webhook {
            Some(w) => UnsetStep::DeleteWebhook(FeedWebhook { id: w.id, token: w.token.clone() }),
            None => UnsetStep::Done(message_only("No channel set already.")),
        },
    }
}

/// Finishes the command for the server's record once its webhook was dealt
/// with.
pub fn complete(data: ServerData, removal: WebhookRemoval) -> (r: Reply)
    ensures
        reply_view(r) == unset_outcome(data@, removal),
{
    match removal {
        WebhookRemoval::NotFound => message_only("Could not get webhook."),
        WebhookRemoval::DeleteFailed => message_only("Could not delete webhook."),
        WebhookRemoval::Deleted => {
            let mut d = data;
            d.feed_channel_id = None;
            d.feed_webhook = None;
            Reply { message: String::from_str("Unset channel."), update: Some(d) }
        },
    }
}

/// Whether a command description is that of `/unset`.
pub open spec fn is_unset_command(c: CommandSpec) -> bool {
    &&& command_shape(c, "unset"@, "Unset an option."@, 1)
    &&& option_shape(c.options@[0], OptionKind::SubCommand, "channel"@, "Unset feed updates channel."@, false, false, None, None, 0)
}

/// The description of the `/unset` command.
pub fn register() -> (c: CommandSpec)
    ensures
        is_unset_command(c),
{
    CommandSpec::new("unset")
        .description("Unset an option.")
        .add_option(OptionSpec::new(OptionKind::SubCommand, "channel", "Unset feed updates channel."))
}

} // verus!
