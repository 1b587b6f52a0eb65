//! What the bot keeps for each server: the feed channel, its webhook, the
//! check interval and the subscribed feeds.
use vstd::prelude::*;

verus! {

/// The webhook through which feed updates are posted.
#[derive(Debug, Clone, PartialEq, Eq)]
pub struct FeedWebhook {
    pub id: u64,
    pub token: String,
}

/// The stored record of one server.
#[derive(Debug, Clone, PartialEq, Eq)]
pub struct ServerData {
    pub feed_channel_id: Option<u64>,
    pub feed_check_interval: Option<i64>,
    pub feed_webhook: Option<FeedWebhook>,
    pub feeds_list: Option<Vec<String>>,
}

/// A webhook as a mathematical value.
pub struct WebhookView {
    pub id: u64,
    pub token: Seq<char>,
}

/// A server record as a mathematical value.
pub struct ServerDataView {
    pub feed_channel_id: Option<u64>,
    pub feed_check_interval: Option<i64>,
    pub feed_webhook: Option<WebhookView>,
    pub feeds_list: Option<Seq<Seq<char>>>,
}

/// The texts of a list of strings.
pub open spec fn texts(v: Seq<String>) -> Seq<Seq<char>> {
    v.map_values(|s: String| s@)
}

impl View for FeedWebhook {
    type V = WebhookView;

    open spec fn view(&self) -> WebhookView {
        WebhookView { id: self.id, token: self.token@ }
    }
}

impl View for ServerData {
    type V = ServerDataView;

    open spec fn view(&self) -> ServerDataView {
        ServerDataView {
            feed_channel_id: self.feed_channel_id,
            feed_check_interval: self.feed_check_interval,
            feed_webhook: match self.feed_webhook {
                Some(w) => Some(w@),
                None => None,
            },
            feeds_list: match self.feeds_list {
                Some(v) => Some(texts(v@)),
                None => None,
            },
        }
    }
}

impl ServerDataView {
    /// The record of a server about which nothing was set yet.
    pub open spec fn empty() -> ServerDataView {
        ServerDataView {
            feed_channel_id: None,
            feed_check_interval: None,
            feed_webhook: None,
            feeds_list: None,
        }
    }

    /// The subscribed feeds, none where no list was stored.
    pub open spec fn feeds(self) -> Seq<Seq<char>> {
        match self.feeds_list {
            Some(l) => l,
            None => Seq::empty(),
        }
    }
}

/// A stored record, if any, as a mathematical value.
pub open spec fn stored_view(stored: Option<ServerData>) -> Option<ServerDataView> {
    match stored {
        Some(d) => Some(d@),
        None => None,
    }
}

/// The record that a change starts from: the stored one, else an empty one.
pub open spec fn base_record(stored: Option<ServerDataView>) -> ServerDataView {
    match stored {
        Some(d) => d,
        None => ServerDataView::empty(),
    }
}

/// The feeds of a stored record, none where there is no record.
pub open spec fn stored_feeds(stored: Option<ServerDataView>) -> Seq<Seq<char>> {
    base_record(stored).feeds()
}

impl Default for ServerData {
    fn default() -> (d: ServerData)
        ensures
            d@ == ServerDataView::empty(),
    {
        ServerData {
            feed_channel_id: None,
            feed_check_interval: None,
            feed_webhook: None,
            feeds_list: None,
        }
    }
}

} // verus!
