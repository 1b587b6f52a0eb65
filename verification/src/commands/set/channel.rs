//! `/set channel channel`: makes a text channel the one where feed updates
//! are posted, through a webhook that is created or moved there.
use vstd::prelude::*;
use crate::commands::{ChannelInfo, ChannelKind, Reply, reply_view, message_only};
use crate::structs::feed::{FeedWebhook, ServerData, ServerDataView, WebhookView, base_record, stored_view};
use crate::text::{decimal, decimal_string};

verus! {

/// The call to the chat service that the command needs.
#[derive(Debug, Clone, PartialEq, Eq)]
pub enum WebhookRequest {
    /// Move the server's webhook to the channel.
    Edit { webhook_id: u64, token: String, channel_id: u64 },
    /// Create a webhook named `feed_webhook_name()` in the channel.
    Create { channel_id: u64 },
}

/// What the command does next.
#[derive(Debug, Clone, PartialEq, Eq)]
pub enum ChannelStep {
    Done(Reply),
    Request(WebhookRequest),
}

/// A webhook as the chat service returned it.
#[derive(Debug, Clone, PartialEq, Eq)]
pub struct ServiceWebhook {
    pub id: u64,
    pub token: Option<String>,
}

/// The name given to the webhook that posts feed updates.
pub open spec fn feed_webhook_name() -> Seq<char> {
    "DiscoRSS Feed"@
}

/// The name given to the webhook that posts feed updates.
pub fn webhook_name() -> (name: String)
    ensures
        name@ == feed_webhook_name(),
{
    String::from_str("DiscoRSS Feed")
}

/// The first step of the command.
pub enum ChannelStart {
    Reply(Seq<char>),
    Edit(u64, Seq<char>, u64),
    Create(u64),
}

/// The first step, from the mentioned channel and the server's record.
pub open spec fn channel_start(channel: ChannelInfo, stored: Option<ServerDataView>) -> ChannelStart {
    if channel.kind != ChannelKind::Text {
        ChannelStart::Reply("Mentioned channel must be a text channel."@)
    } else {
        match stored {
            Some(d) => if d.feed_channel_id == Some(channel.id) {
                ChannelStart::Reply("Feed updates channel is already set to <#"@ + decimal(channel.id as nat) + ">."@)
            } else {
                match d.feed_webhook {
                    Some(w) => ChannelStart::Edit(w.id, w.token, channel.id),
                    None => ChannelStart::Create(channel.id),
                }
            },
            None => ChannelStart::Create(channel.id),
        }
    }
}

/// A step as a `ChannelStart`.
pub open spec fn step_view(s: ChannelStep) -> ChannelStart {
    match s {
        ChannelStep::Done(r) => ChannelStart::Reply(r.message@),
        ChannelStep::Request(WebhookRequest::Edit { webhook_id, token, channel_id }) =>
            ChannelStart::Edit(webhook_id, token@, channel_id),
        ChannelStep::Request(WebhookRequest::Create { channel_id }) => ChannelStart::Create(channel_id),
    }
}

/// The channel that a request is about.
pub open spec fn request_channel(req: WebhookRequest) -> u64 {
    match req {
        WebhookRequest::Edit { channel_id, .. } => channel_id,
        WebhookRequest::Create { channel_id } => channel_id,
    }
}

/// The record after the feed channel was set to `channel_id` with a webhook.
pub open spec fn channel_set(channel_id: u64, hook: WebhookView, stored: Option<ServerDataView>) -> ServerDataView {
    ServerDataView { feed_channel_id: Some(channel_id), feed_webhook: Some(hook), ..base_record(stored) }
}

/// The answer once the chat service answered the request: `webhook` is the
/// webhook it returned, `None` where the call failed.
pub open spec fn channel_outcome(
    req: WebhookRequest,
    stored: Option<ServerDataView>,
    webhook: Option<WebhookView>,
) -> (Seq<char>, Option<ServerDataView>) {
    match webhook {
        None => match req {
            WebhookRequest::Edit { .. } => ("Could not edit existing webhook."@, None),
            WebhookRequest::Create { .. } => ("Could not create new webhook."@, None),
        },
        Some(hook) => (
            "Feed updates channel is set to <#"@ + decimal(request_channel(req) as nat) + ">."@,
            Some(channel_set(request_channel(req), hook, stored)),
        ),
    }
}

/// Starts the command for the mentioned channel.
pub fn run(channel: ChannelInfo, stored: &Option<ServerData>) -> (step: ChannelStep)
    ensures
        step_view(step) == channel_start(channel, stored_view(*stored)),
        step matches ChannelStep::Done(r) ==> r.update is None,
{
    match channel.kind {
        ChannelKind::Text => {},
        ChannelKind::Other => return ChannelStep::Done(message_only("Mentioned channel must be a text channel.")),
    }
    match stored {
        Some(data) => {
            match data.feed_channel_id {
                Some(id) => {
                    if id == channel.id {
                        let mut m = String::from_str("Feed updates channel is already set to <#");
                        let n = decimal_string(channel.id as u128);
                        m.append(n.as_str());
                        m.append(">.");
                        return ChannelStep::Done(Reply { message: m, update: None });
                    }
                },
                None => {},
            }
            match &data.feed_webhook {
                Some(w) => ChannelStep::Request(
                    WebhookRequest::Edit { webhook_id: w.id, token: w.token.clone(), channel_id: channel.id },
                ),
                None => ChannelStep::Request(WebhookRequest::Create { channel_id: channel.id }),
            }
        },
        None => ChannelStep::Request(WebhookRequest::Create { channel_id: channel.id }),
    }
}

/// Finishes the command once the chat service answered `request`.
pub fn complete(request: &WebhookRequest, stored: Option<ServerData>, webhook: Option<ServiceWebhook>) -> (r: Reply)
    requires
        webhook matches Some(w) ==> w.token is Some,
    ensures
        reply_view(r) == channel_outcome(*request, stored_view(stored), match webhook {
            Some(w) => Some(WebhookView { id: w.id, token: w.token->0@ }),
            None => None,
        }),
{
    let hook = match webhook {
        Some(w) => w,
        None => return match request {
            WebhookRequest::Edit { .. } => message_only("Could not edit existing webhook."),
            WebhookRequest::Create { .. } => message_only("Could not create new webhook."),
        },
    };
    let channel_id = match request {
        WebhookRequest::Edit { channel_id, .. } => *channel_id,
        WebhookRequest::Create { channel_id } => *channel_id,
    };
    let token = match hook.token {
        Some(t) => t,
        None => String::new(),
    };
    let mut data = match stored {
        Some(d) => d,
        None => ServerData::default(),
    };
    data.feed_channel_id = Some(channel_id);
    data.feed_webhook = Some(FeedWebhook { id: hook.id, token });
    let mut m = String::from_str("Feed updates channel is set to <#");
    let n = decimal_string(channel_id as u128);
    m.append(n.as_str());
    m.append(">.");
    Reply { message: m, update: Some(data) }
}

} // verus!
