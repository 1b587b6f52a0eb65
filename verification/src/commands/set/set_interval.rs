//! `/set interval hours`: stores how often the server's feeds are checked.
use vstd::prelude::*;
use crate::commands::{Reply, reply_view, message_only};
use crate::structs::feed::{ServerData, ServerDataView, stored_view};

verus! {

/// The answer for a server with record `stored` and the entered number of
/// hours: the interval is stored in seconds, for a server that has a record.
pub open spec fn interval_outcome(hours: i64, stored: Option<ServerDataView>) -> (Seq<char>, Option<ServerDataView>) {
    match stored {
        Some(d) => ("Set interval."@, Some(ServerDataView { feed_check_interval: Some((hours * 3600) as i64), ..d })),
        None => ("Interval left default"@, None),
    }
}

/// Runs the subcommand with its one entered value.
pub fn run(options: &[i64], stored: Option<ServerData>) -> (r: Reply)
    requires
        options.len() > 0,
        i64::MIN <= options[0] * 3600 <= i64::MAX,
    ensures
        reply_view(r) == interval_outcome(options[0], stored_view(stored)),
{
    let hours = options[0];
    match stored {
        Some(mut data) => {
            data.feed_check_interval = Some(hours * 60 * 60);
            Reply { message: String::from_str("Set interval."), update: Some(data) }
        },
        None => message_only("Interval left default"),
    }
}

} // verus!
