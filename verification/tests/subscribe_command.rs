use discorss::commands::subscribe::{complete, conclude, register, run, SubscribeStep};
use discorss::commands::builder::OptionKind;
use discorss::commands::{CommandOption, OptionValue, Reply};
use discorss::feed::{FeedParseError, GetFeedError};
use discorss::structs::feed::ServerData;

const RSS: &str = r#"<rss version="2.0"><channel><title>T</title><link>https://example.com/</link><description>D</description></channel></rss>"#;

fn url_option(url: &str) -> Vec<CommandOption> {
    vec![CommandOption { name: "url".to_string(), value: OptionValue::String(url.to_string()) }]
}

fn with_feeds(feeds: &[&str]) -> ServerData {
    ServerData {
        feed_channel_id: Some(3),
        feed_check_interval: None,
        feed_webhook: None,
        feeds_list: Some(feeds.iter().map(|s| s.to_string()).collect()),
    }
}

fn message(s: &str) -> SubscribeStep {
    SubscribeStep::Done(Reply { message: s.to_string(), update: None })
}

#[test]
fn option_of_another_kind_is_refused() {
    let options = vec![CommandOption { name: "url".to_string(), value: OptionValue::Integer(3) }];
    assert_eq!(run(&options, &None), message("String value not found"));
}

#[test]
fn invalid_address_is_refused() {
    assert_eq!(run(&url_option("nope"), &None), message("Entered URL is not valid."));
}

#[test]
fn non_web_address_is_refused() {
    assert_eq!(
        run(&url_option("ftp://example.com/feed"), &None),
        message("Entered URL must be using HTTP(S) protocol.")
    );
}

#[test]
fn subscribed_address_is_refused() {
    let stored = Some(with_feeds(&["https://a.example/feed"]));
    assert_eq!(
        run(&url_option("https://a.example/feed"), &stored),
        message("Already subscribed to <https://a.example/feed>.")
    );
}

#[test]
fn new_address_is_fetched() {
    let stored = Some(with_feeds(&["https://a.example/feed"]));
    assert_eq!(
        run(&url_option("https://b.example/feed"), &stored),
        SubscribeStep::FetchFeed("https://b.example/feed".to_string())
    );
    assert_eq!(
        run(&url_option("https://b.example/feed"), &None),
        SubscribeStep::FetchFeed("https://b.example/feed".to_string())
    );
}

#[test]
fn feed_is_added_to_a_new_record() {
    let r = conclude("https://b.example/feed", None, Ok(()));
    assert_eq!(r.message, "Subscribed to <https://b.example/feed>.");
    let mut expected = ServerData::default();
    expected.feeds_list = Some(vec!["https://b.example/feed".to_string()]);
    assert_eq!(r.update, Some(expected));
}

#[test]
fn feed_is_appended_to_the_record() {
    let r = conclude("https://b.example/feed", Some(with_feeds(&["https://a.example/feed"])), Ok(()));
    assert_eq!(r.update, Some(with_feeds(&["https://a.example/feed", "https://b.example/feed"])));
}

#[test]
fn feed_is_added_to_a_record_without_list() {
    let mut stored = with_feeds(&[]);
    stored.feeds_list = None;
    let r = conclude("https://b.example/feed", Some(stored), Ok(()));
    assert_eq!(r.update, Some(with_feeds(&["https://b.example/feed"])));
}

#[test]
fn failures_have_their_reasons() {
    let url = "https://b.example/feed";
    let cases = [
        (GetFeedError::AccessError, "Cannot access to given URL."),
        (GetFeedError::ParseError(FeedParseError::IoError),
            "An error occured while reading RSS file. If this keeps happening, please report the issue to the developer."),
        (GetFeedError::ParseError(FeedParseError::JsonSerde),
            "An error occurred while reading JSON content. If this keeps happening, please report the issue to the developer."),
        (GetFeedError::ParseError(FeedParseError::JsonUnsupportedVersion), "Unsupported JSON version on feed content."),
        (GetFeedError::ParseError(FeedParseError::ParseError), "Entered URL is not an RSS feed."),
        (GetFeedError::ParseError(FeedParseError::XmlReader), "RSS content is broken on entered feed."),
    ];
    for (e, reason) in cases {
        let r = conclude(url, None, Err(e));
        assert_eq!(r.message, format!("Cannot subscribe to <{url}>. {reason}"));
        assert_eq!(r.update, None);
    }
}

#[test]
fn completion_judges_the_response() {
    let url = "https://b.example/feed";
    let r = complete(url, None, Some(RSS.to_string()));
    assert_eq!(r.message, "Subscribed to <https://b.example/feed>.");
    let r = complete(url, None, None);
    assert_eq!(r.message, "Cannot subscribe to <https://b.example/feed>. Cannot access to given URL.");
    let r = complete(url, None, Some("hello".to_string()));
    assert_eq!(r.message, "Cannot subscribe to <https://b.example/feed>. Entered URL is not an RSS feed.");
    assert_eq!(r.update, None);
}

#[test]
fn subscribe_is_described() {
    let c = register();
    assert_eq!(c.name, "subscribe");
    assert_eq!(c.description, "Subscribe to an RSS feed.");
    assert_eq!(c.options.len(), 1);
    assert_eq!(c.options[0].kind, OptionKind::String);
    assert_eq!(c.options[0].name, "url");
    assert!(c.options[0].required);
}
