//! `/subscriptions`: lists the server's feeds, numbered from one.
use vstd::prelude::*;
use crate::structs::feed::{ServerData, stored_feeds, stored_view, texts};
use crate::text::{decimal, decimal_string};

use crate::commands::builder::{CommandSpec, command_shape};
verus! {

/// The line of the listing for the `k`-th feed.
pub open spec fn listing_line(k: nat, feed: Seq<char>) -> Seq<char> {
    decimal(k) + ". "@ + feed + "\n"@
}

/// The numbered lines of a list of feeds, the first numbered one.
pub open spec fn listing(feeds: Seq<Seq<char>>) -> Seq<char>
    decreases feeds.len(),
{
    if feeds.len() == 0 {
        Seq::empty()
    } else {
        listing(feeds.drop_last()) + listing_line(feeds.len(), feeds.last())
    }
}

/// The reply for a server with the given feeds: a Markdown code block with
/// one numbered line per feed, or a note that there is none.
pub open spec fn subscriptions_message(feeds: Seq<Seq<char>>) -> Seq<char> {
    if feeds.len() == 0 {
        "No subscription."@
    } else {
        "```md\n"@ + listing(feeds) + "```"@
    }
}

/// Runs the command for a server with the stored record `stored`.
pub fn run(stored: Option<ServerData>) -> (message: String)
    ensures
        message@ == subscriptions_message(stored_feeds(stored_view(stored))),
{
    let subscriptions = match stored {
        Some(data) => match data.feeds_list {
            Some(l) => l,
            None => Vec::new(),
        },
        None => Vec::new(),
    };
    let ghost feeds = texts(subscriptions@);
    assert(feeds == stored_feeds(stored_view(stored)));
    if subscriptions.len() == 0 {
        return String::from_str("No subscription.");
    }
    let mut codeblock = String::from_str("```md\n");
    let mut index: usize = 0;
    assert(feeds.take(0) =~= Seq::<Seq<char>>::empty());
    while index < subscriptions.len()
        invariant
            index <= subscriptions.len(),
            feeds == texts(subscriptions@),
            codeblock@ == "```md\n"@ + listing(feeds.take(index as int)),
        decreases subscriptions.len() - index,
    {
        let number = decimal_string((index + 1) as u128);
        codeblock.append(number.as_str());
        codeblock.append(". ");
        codeblock.append(subscriptions[index].as_str());
        codeblock.append("\n");
        proof {
            let next = feeds.take(index + 1);
            assert(next.drop_last() =~= feeds.take(index as int));
            assert(next.last() == subscriptions@[index as int]@);
            assert(codeblock@ =~= "```md\n"@ + listing(next));
        }
        index = index + 1;
    }
    assert(feeds.take(subscriptions.len() as int) =~= feeds);
    codeblock.append("```");
    codeblock
}

/// Whether a command description is that of `/subscriptions`.
pub open spec fn is_subscriptions_command(c: CommandSpec) -> bool {
    &&& command_shape(c, "subscriptions"@, "List current subscriptions"@, 0)
}

/// The description of the command.
pub fn register() -> (c: CommandSpec)
    ensures
        is_subscriptions_command(c),
{
    CommandSpec::new("subscriptions").description("List current subscriptions")
}

} // verus!
