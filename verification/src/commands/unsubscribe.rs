//! `/unsubscribe all` and `/unsubscribe from url`: takes one feed, or all of
//! them, out of the server's subscriptions.
use vstd::prelude::*;
use crate::commands::{CommandOption, OptionValue, Reply, reply_view, message_only};
use crate::feed_list::{contains_feed, remove_feed, without_first};
use crate::links::{check_feed_url, problem_message, problem_text, url_parse, url_problem};
use crate::structs::feed::{ServerData, ServerDataView, stored_feeds, stored_view, texts};

use crate::commands::builder::{CommandSpec, OptionKind, OptionSpec, command_shape, option_shape};
verus! {

/// The answer to `/unsubscribe from` with the address `url`, for a server
/// whose record `d` has feeds.
pub open spec fn unsubscribe_from(url: Seq<char>, d: ServerDataView) -> (Seq<char>, Option<ServerDataView>) {
    match url_problem(url_parse(url)) {
        Some(p) => (problem_message(p), None),
        None => if !d.feeds().contains(url) {
            ("Not subscribed to <{url}> already."@, None)
        } else {
            (
                "Unsubscribed from <"@ + url + ">"@,
                Some(ServerDataView { feeds_list: Some(without_first(d.feeds(), url)), ..d }),
            )
        },
    }
}

/// The answer to the command, from its options and the server's record.
pub open spec fn unsubscribe_outcome(options: Seq<CommandOption>, stored: Option<ServerDataView>) -> (Seq<char>, Option<ServerDataView>) {
    match stored {
        None => ("No subscription already."@, None),
        Some(d) => if options[0].name@ == "all"@ {
            ("Unsubscribed from all RSS feeds."@, Some(ServerDataView { feeds_list: None, ..d }))
        } else if d.feeds().len() == 0 {
            ("Not subscribed already."@, None)
        } else {
            match options[0].value {
                OptionValue::SubCommand(from) => match from@[0].value {
                    OptionValue::String(u) => unsubscribe_from(u@, d),
                    _ => ("String value not found"@, None),
                },
                _ => ("Select a subcommand."@, None),
            }
        },
    }
}

/// Whether the command reads an option of the subcommand where the user gave
/// none (the inputs on which it has no answer).
pub open spec fn unsubscribe_misses_option(options: Seq<CommandOption>, stored: Option<ServerDataView>) -> bool {
    &&& stored matches Some(d)
    &&& options[0].name@ != "all"@
    &&& d.feeds().len() > 0
    &&& options[0].value matches OptionValue::SubCommand(from)
    &&& from.len() == 0
}

/// Runs the command.
pub fn run(options: &Vec<CommandOption>, stored: Option<ServerData>) -> (r: Reply)
    requires
        options.len() > 0,
        !unsubscribe_misses_option(options@, stored_view(stored)),
    ensures
        reply_view(r) == unsubscribe_outcome(options@, stored_view(stored)),
{
    let mut data = match stored {
        None => return message_only("No subscription already."),
        Some(d) => d,
    };
    let ghost before = data@;
    let all = String::from_str("all");
    if options[0].name == all {
        data.feeds_list = None;
        return Reply { message: String::from_str("Unsubscribed from all RSS feeds."), update: Some(data) };
    }
    let mut list = match data.feeds_list {
        Some(l) => l,
        None => Vec::new(),
    };
    assert(texts(list@) =~= before.feeds());
    if list.len() == 0 {
        return message_only("Not subscribed already.");
    }
    let from = match &options[0].value {
        OptionValue::SubCommand(from) => from,
        _ => return message_only("Select a subcommand."),
    };
    let url = match &from[0].value {
        OptionValue::String(u) => u,
        _ => return message_only("String value not found"),
    };
    match check_feed_url(url.as_str()) {
        Some(p) => return Reply { message: problem_text(p), update: None },
        None => {},
    }
    if !contains_feed(&list, url.as_str()) {
        return message_only("Not subscribed to <{url}> already.");
    }
    remove_feed(&mut list, url.as_str());
    data.feeds_list = Some(list);
    let mut m = String::from_str("Unsubscribed from <");
    m.append(url.as_str());
    m.append(">");
    Reply { message: m, update: Some(data) }
}

/// The suggestions offered while the user types a feed to unsubscribe from:
/// the server's feeds.
pub fn autocomplete(stored: Option<ServerData>) -> (choices: Vec<String>)
    ensures
        texts(choices@) == stored_feeds(stored_view(stored)),
{
    match stored {
        Some(data) => match data.feeds_list {
            Some(l) => l,
            None => Vec::new(),
        },
        None => Vec::new(),
    }
}

/// Whether a command description is that of `/unsubscribe`.
pub open spec fn is_unsubscribe_command(c: CommandSpec) -> bool {
    &&& command_shape(c, "unsubscribe"@, "Unsubscribe from an RSS feed."@, 2)
    &&& option_shape(c.options@[0], OptionKind::SubCommand, "all"@, "Unsubscribe from all RSS feeds."@, false, false, None, None, 0)
    &&& option_shape(c.options@[1], OptionKind::SubCommand, "from"@, "Unsubscribe from entered RSS feed."@, false, false, None, None, 1)
    &&& option_shape(c.options@[1].sub_options@[0], OptionKind::String, "url"@, "URL of the RSS feed."@, true, true, None, None, 0)
}

/// The description of the command.
pub fn register() -> (c: CommandSpec)
    ensures
        is_unsubscribe_command(c),
{
    CommandSpec::new("unsubscribe")
        .description("Unsubscribe from an RSS feed.")
        .add_option(OptionSpec::new(OptionKind::SubCommand, "all", "Unsubscribe from all RSS feeds."))
        .add_option(
            OptionSpec::new(OptionKind::SubCommand, "from", "Unsubscribe from entered RSS feed.")
                .add_sub_option(
                    OptionSpec::new(OptionKind::String, "url", "URL of the RSS feed.")
                        .required(true)
                        .set_autocomplete(true),
                ),
        )
}

} // verus!
