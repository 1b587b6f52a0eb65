//! An earlier layout of the server record, in which each feed carried its
//! own webhook.
use vstd::prelude::*;

verus! {

/// The stored record of one server in the earlier layout.
#[derive(Debug, Clone, PartialEq, Eq, Default)]
pub struct ServerData {
    pub feed_channel_id: Option<String>,
    pub feeds_list: Option<Vec<FeedsList>>,
}

/// One feed and the webhook that posts it.
#[derive(Debug, Clone, PartialEq, Eq)]
pub struct FeedsList {
    pub feed_url: String,
    pub webhook_url: String,
}

} // verus!
