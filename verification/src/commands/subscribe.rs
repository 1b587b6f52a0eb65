//! `/subscribe url`: adds a feed to the server's subscriptions once its
//! address is a web URL that is not subscribed yet and serves a feed.
use vstd::prelude::*;
use crate::feed_input::feed_input_safe;
use crate::commands::{CommandOption, OptionValue, Reply, reply_view, message_only};
use crate::feed::{FeedUtils, FeedParseError, GetFeedError, feed_outcome};
use crate::feed_list::{contains_feed, push_feed};
use crate::links::{has_host, check_feed_url, problem_message, problem_text, url_parse, url_problem};
use crate::structs::feed::{ServerData, ServerDataView, base_record, stored_feeds, stored_view, texts};

use crate::commands::builder::{CommandSpec, OptionKind, OptionSpec, command_shape, option_shape};
verus! {

/// What the command does next: answer at once, or fetch the feed first.
#[derive(Debug, Clone, PartialEq, Eq)]
pub enum SubscribeStep {
    Done(Reply),
    FetchFeed(String),
}

/// The refusal, if any, of subscribing a server with record `stored` to `url`.
pub open spec fn subscribe_refusal(url: Seq<char>, stored: Option<ServerDataView>) -> Option<Seq<char>> {
    match url_problem(url_parse(url)) {
        Some(p) => Some(problem_message(p)),
        None => if stored_feeds(stored).contains(url) {
            Some("Already subscribed to <"@ + url + ">."@)
        } else {
            None
        },
    }
}

/// The first step of the command, from its options and the server's record.
pub open spec fn subscribe_start(options: Seq<CommandOption>, stored: Option<ServerDataView>) -> (bool, Seq<char>) {
    match options[0].value {
        OptionValue::String(u) => match subscribe_refusal(u@, stored) {
            Some(m) => (false, m),
            None => (true, u@),
        },
        _ => (false, "String value not found"@),
    }
}

/// A step as a pair: whether a fetch of the given address comes next (else
/// the text is the reply, with nothing stored).
pub open spec fn step_view(s: SubscribeStep) -> (bool, Seq<char>) {
    match s {
        SubscribeStep::FetchFeed(u) => (true, u@),
        SubscribeStep::Done(r) => (false, r.message@),
    }
}

/// The record after subscribing to `url`.
pub open spec fn subscribed(url: Seq<char>, stored: Option<ServerDataView>) -> ServerDataView {
    let base = base_record(stored);
    ServerDataView { feeds_list: Some(base.feeds().push(url)), ..base }
}

/// Why a feed could not be subscribed to, as told to the user.
pub open spec fn failure_reason(e: GetFeedError) -> Seq<char> {
    match e {
        GetFeedError::AccessError => "Cannot access to given URL."@,
        GetFeedError::ParseError(FeedParseError::IoError) =>
            "An error occured while reading RSS file. If this keeps happening, please report the issue to the developer."@,
        GetFeedError::ParseError(FeedParseError::JsonSerde) =>
            "An error occurred while reading JSON content. If this keeps happening, please report the issue to the developer."@,
        GetFeedError::ParseError(FeedParseError::JsonUnsupportedVersion) =>
            "Unsupported JSON version on feed content."@,
        GetFeedError::ParseError(FeedParseError::ParseError) => "Entered URL is not an RSS feed."@,
        GetFeedError::ParseError(FeedParseError::XmlReader) => "RSS content is broken on entered feed."@,
    }
}

/// The answer once the feed at `url` was fetched and judged.
pub open spec fn subscribe_outcome(
    url: Seq<char>,
    stored: Option<ServerDataView>,
    fetched: Result<(), GetFeedError>,
) -> (Seq<char>, Option<ServerDataView>) {
    match fetched {
        Ok(()) => ("Subscribed to <"@ + url + ">."@, Some(subscribed(url, stored))),
        Err(e) => ("Cannot subscribe to <"@ + url + ">. "@ + failure_reason(e), None),
    }
}

/// Starts the command: checks the entered address and the current
/// subscriptions, and either answers or asks for the feed to be fetched.
pub fn run(options: &Vec<CommandOption>, stored: &Option<ServerData>) -> (step: SubscribeStep)
    requires
        options.len() > 0,
    ensures
        step_view(step) == subscribe_start(options@, stored_view(*stored)),
        step matches SubscribeStep::Done(r) ==> r.update is None,
        step matches SubscribeStep::FetchFeed(u) ==> has_host(url_parse(u@)),
{
    let url = match &options[0].value {
        OptionValue::String(u) => u,
        _ => return SubscribeStep::Done(message_only("String value not found")),
    };
    match check_feed_url(url.as_str()) {
        Some(p) => return SubscribeStep::Done(Reply { message: problem_text(p), update: None }),
        None => {},
    }
    match stored {
        Some(data) => match &data.feeds_list {
            Some(list) => {
                if contains_feed(list, url.as_str()) {
                    let mut m = String::from_str("Already subscribed to <");
                    m.append(url.as_str());
                    m.append(">.");
                    return SubscribeStep::Done(Reply { message: m, update: None });
                }
            },
            None => {},
        },
        None => {},
    }
    SubscribeStep::FetchFeed(url.clone())
}

/// Why a feed could not be subscribed to, as told to the user.
pub fn reason_text(e: GetFeedError) -> (s: &'static str)
    ensures
        s@ == failure_reason(e),
{
    match e {
        GetFeedError::AccessError => "Cannot access to given URL.",
        GetFeedError::ParseError(k) => match k {
            FeedParseError::IoError =>
                "An error occured while reading RSS file. If this keeps happening, please report the issue to the developer.",
            FeedParseError::JsonSerde =>
                "An error occurred while reading JSON content. If this keeps happening, please report the issue to the developer.",
            FeedParseError::JsonUnsupportedVersion => "Unsupported JSON version on feed content.",
            FeedParseError::ParseError => "Entered URL is not an RSS feed.",
            FeedParseError::XmlReader => "RSS content is broken on entered feed.",
        },
    }
}

/// Finishes the command from the judgement of the fetched feed: stores the
/// address in the server's list, or tells why it could not.
pub fn conclude(url: &str, stored: Option<ServerData>, fetched: Result<(), GetFeedError>) -> (r: Reply)
    ensures
        reply_view(r) == subscribe_outcome(url@, stored_view(stored), fetched),
{
    match fetched {
        Ok(()) => {
            let data = match stored {
                Some(mut d) => {
                    let ghost before = d@;
                    let mut list = match d.feeds_list {
                        Some(l) => l,
                        None => Vec::new(),
                    };
                    assert(texts(list@) =~= before.feeds());
                    push_feed(&mut list, url);
                    d.feeds_list = Some(list);
                    assert(d@.feeds_list == subscribed(url@, Some(before)).feeds_list);
                    d
                },
                None => {
                    let mut list = Vec::new();
                    push_feed(&mut list, url);
                    assert(texts(list@) =~= seq![url@]);
                    let mut d = ServerData::default();
                    d.feeds_list = Some(list);
                    d
                },
            };
            let mut m = String::from_str("Subscribed to <");
            m.append(url);
            m.append(">.");
            Reply { message: m, update: Some(data) }
        },
        Err(e) => {
            let mut m = String::from_str("Cannot subscribe to <");
            m.append(url);
            m.append(">. ");
            m.append(reason_text(e));
            Reply { message: m, update: None }
        },
    }
}

/// Finishes the command from what fetching the address gave: `None` where
/// the request failed, else the response's text, which must pass
/// `feed_input_safe`.
pub fn complete(url: &str, stored: Option<ServerData>, response: Option<String>) -> (r: Reply)
    requires
        response matches Some(b) ==> feed_input_safe(b@),
    ensures
        reply_view(r) == subscribe_outcome(url@, stored_view(stored), feed_outcome(match response {
            Some(b) => Some(b@),
            None => None,
        })),
{
    let fetched = FeedUtils::get_feed(response);
    conclude(url, stored, fetched)
}

/// Whether a command description is that of `/subscribe`.
pub open spec fn is_subscribe_command(c: CommandSpec) -> bool {
    &&& command_shape(c, "subscribe"@, "Subscribe to an RSS feed."@, 1)
    &&& option_shape(c.options@[0], OptionKind::String, "url"@, "URL of the RSS feed."@, true, false, None, None, 0)
}

/// The description of the command.
pub fn register() -> (c: CommandSpec)
    ensures
        is_subscribe_command(c),
{
    CommandSpec::new("subscribe")
        .description("Subscribe to an RSS feed.")
        .add_option(OptionSpec::new(OptionKind::String, "url", "URL of the RSS feed.").required(true))
}

} // verus!
