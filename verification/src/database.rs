//! The first layout of the server record, and the database handle's type.
//! Opening the database file is left to the program that runs the bot.
use vstd::prelude::*;

verus! {

/// The stored record of one server in the first layout.
#[derive(Debug, Clone, PartialEq, Eq, Default)]
pub struct ServerData {
    pub feed_channel_id: Option<u64>,
    pub feeds_list: Option<Vec<FeedsList>>,
}

/// One feed and the webhook that posts it.
#[derive(Debug, Clone, PartialEq, Eq)]
pub struct FeedsList {
    pub feed_url: String,
    pub webhook_url: String,
}

/// The bot's database of server records, one per server, keyed by the
/// server's id.
pub struct Database;

} // verus!
