//! Reading feeds: whether fetched content is a feed, and the list of
//! subscriptions of a server.
use vstd::prelude::*;
use crate::structs::feed::{ServerData, stored_view, stored_feeds, texts};
use crate::feed_input::feed_input_safe;

verus! {

/// Why fetched content is not a feed, after `feed_rs::parser::ParseFeedError`.
#[derive(Debug, Clone, Copy, PartialEq, Eq)]
pub enum FeedParseError {
    /// The content is neither an XML nor a JSON feed.
    ParseError,
    /// Reading the content failed.
    IoError,
    /// The JSON content is malformed.
    JsonSerde,
    /// The JSON feed has an unsupported version.
    JsonUnsupportedVersion,
    /// The XML content is malformed.
    XmlReader,
}

/// Why a feed could not be had.
#[derive(Debug, Clone, Copy, PartialEq, Eq)]
pub enum GetFeedError {
    /// The address could not be fetched.
    AccessError,
    /// The fetched content is not a feed.
    ParseError(FeedParseError),
}

/// Whether a text holds an opening angle bracket or an opening brace, one
/// of which starts every XML or JSON feed.
pub open spec fn has_feed_marker(body: Seq<char>) -> bool {
    body.contains('<') || body.contains('{')
}

/// The parse result of content that is not recognised as a feed at all.
pub open spec fn not_a_feed() -> Result<(), FeedParseError> {
    Err(FeedParseError::ParseError)
}

/// What `feed_rs::parser::parse` makes of a text: success, or the kind of
/// error it reports.
pub uninterp spec fn feed_parse(body: Seq<char>) -> Result<(), FeedParseError>;

/// Parses content with `feed_rs::parser::parse`, keeping only whether it is
/// a feed and, if not, the kind of error. Trusted: the result is
/// `feed_parse` of the text; content without a feed marker (see
/// `has_feed_marker`) is refused as `ParseError`, since the parser looks for
/// one to tell XML from JSON. The parser panics on some texts (a play time
/// of many digits or of digits other than 0 to 9, an e-mail address in a
/// name that touches a character of more than one byte); the text must
/// pass `feed_input_safe`, which leaves all of them out.
#[verifier::external_body]
fn parse_feed(body: &str) -> (r: Result<(), FeedParseError>)
    requires
        feed_input_safe(body@),
    ensures
        r == feed_parse(body@),
        !has_feed_marker(body@) ==> r == not_a_feed(),
{
    match feed_rs::parser::parse(body.as_bytes()) {
        Ok(_) => Ok(()),
        Err(feed_rs::parser::ParseFeedError::ParseError(_)) => Err(FeedParseError::ParseError),
        Err(feed_rs::parser::ParseFeedError::IoError(_)) => Err(FeedParseError::IoError),
        Err(feed_rs::parser::ParseFeedError::JsonSerde(_)) => Err(FeedParseError::JsonSerde),
        Err(feed_rs::parser::ParseFeedError::JsonUnsupportedVersion(_)) => Err(FeedParseError::JsonUnsupportedVersion),
        Err(feed_rs::parser::ParseFeedError::XmlReader(_)) => Err(FeedParseError::XmlReader),
    }
}

/// Whether a fetch outcome is a feed: `None` stands for an address that
/// could not be fetched, `Some(body)` for the fetched text.
pub open spec fn feed_outcome(response: Option<Seq<char>>) -> Result<(), GetFeedError> {
    match response {
        None => Err(GetFeedError::AccessError),
        Some(body) => match feed_parse(body) {
            Ok(()) => Ok(()),
            Err(e) => Err(GetFeedError::ParseError(e)),
        },
    }
}

/// Helpers for feeds.
pub struct FeedUtils;

impl FeedUtils {
    /// Judges what fetching a feed's address gave: `None` where the request
    /// failed, else the response's text, which must pass `feed_input_safe`
    /// (on the others the parser may stop the program).
    pub fn get_feed(response: Option<String>) -> (r: Result<(), GetFeedError>)
        requires
            response matches Some(b) ==> feed_input_safe(b@),
        ensures
            r == feed_outcome(match response {
                Some(b) => Some(b@),
                None => None,
            }),
    {
        match response {
            None => Err(GetFeedError::AccessError),
            Some(body) => match parse_feed(body.as_str()) {
                Ok(()) => Ok(()),
                Err(e) => Err(GetFeedError::ParseError(e)),
            },
        }
    }

    /// The subscriptions of a server: `None` where it has no record, else
    /// its feeds (none where no list was stored).
    pub fn get_subscriptions(stored: Option<ServerData>) -> (r: Option<Vec<String>>)
        ensures
            r is Some <==> stored is Some,
            r matches Some(l) ==> texts(l@) == stored_feeds(stored_view(stored)),
    {
        match stored {
            Some(data) => match data.feeds_list {
                Some(l) => Some(l),
                None => Some(Vec::new()),
            },
            None => None,
        }
    }
}

} // verus!
