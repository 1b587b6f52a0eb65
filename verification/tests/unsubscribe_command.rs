use discorss::commands::unsubscribe::{autocomplete, register, run};
use discorss::commands::builder::OptionKind;
use discorss::commands::{CommandOption, OptionValue};
use discorss::structs::feed::ServerData;

fn with_feeds(feeds: &[&str]) -> ServerData {
    ServerData {
        feed_channel_id: Some(3),
        feed_check_interval: Some(3600),
        feed_webhook: None,
        feeds_list: Some(feeds.iter().map(|s| s.to_string()).collect()),
    }
}

fn all() -> Vec<CommandOption> {
    vec![CommandOption { name: "all".to_string(), value: OptionValue::SubCommand(vec![]) }]
}

fn from(url: &str) -> Vec<CommandOption> {
    vec![CommandOption {
        name: "from".to_string(),
        value: OptionValue::SubCommand(vec![CommandOption {
            name: "url".to_string(),
            value: OptionValue::String(url.to_string()),
        }]),
    }]
}

#[test]
fn without_record_there_is_nothing_to_remove() {
    let r = run(&all(), None);
    assert_eq!(r.message, "No subscription already.");
    assert_eq!(r.update, None);
    let r = run(&from("https://a.example/feed"), None);
    assert_eq!(r.message, "No subscription already.");
}

#[test]
fn all_removes_the_list() {
    let r = run(&all(), Some(with_feeds(&["https://a.example/feed"])));
    assert_eq!(r.message, "Unsubscribed from all RSS feeds.");
    let mut expected = with_feeds(&[]);
    expected.feeds_list = None;
    assert_eq!(r.update, Some(expected));
}

#[test]
fn from_needs_feeds() {
    let r = run(&from("https://a.example/feed"), Some(with_feeds(&[])));
    assert_eq!(r.message, "Not subscribed already.");
    assert_eq!(r.update, None);
}

#[test]
fn from_needs_a_subcommand() {
    let options = vec![CommandOption { name: "from".to_string(), value: OptionValue::Other }];
    let r = run(&options, Some(with_feeds(&["https://a.example/feed"])));
    assert_eq!(r.message, "Select a subcommand.");
}

#[test]
fn from_needs_a_string() {
    let options = vec![CommandOption {
        name: "from".to_string(),
        value: OptionValue::SubCommand(vec![CommandOption { name: "url".to_string(), value: OptionValue::Integer(1) }]),
    }];
    let r = run(&options, Some(with_feeds(&["https://a.example/feed"])));
    assert_eq!(r.message, "String value not found");
}

#[test]
fn from_checks_the_address() {
    let stored = with_feeds(&["https://a.example/feed"]);
    assert_eq!(run(&from("bad"), Some(stored.clone())).message, "Entered URL is not valid.");
    assert_eq!(
        run(&from("ftp://a.example/feed"), Some(stored)).message,
        "Entered URL must be using HTTP(S) protocol."
    );
}

#[test]
fn from_an_unknown_feed_is_refused() {
    let r = run(&from("https://b.example/feed"), Some(with_feeds(&["https://a.example/feed"])));
    assert_eq!(r.message, "Not subscribed to <{url}> already.");
    assert_eq!(r.update, None);
}

#[test]
fn from_removes_the_first_occurrence() {
    let stored = with_feeds(&["https://a.example/feed", "https://b.example/feed", "https://c.example/feed"]);
    let r = run(&from("https://b.example/feed"), Some(stored));
    assert_eq!(r.message, "Unsubscribed from <https://b.example/feed>");
    assert_eq!(r.update, Some(with_feeds(&["https://a.example/feed", "https://c.example/feed"])));
}

#[test]
fn suggestions_are_the_feeds() {
    assert_eq!(autocomplete(None), Vec::<String>::new());
    assert_eq!(autocomplete(Some(ServerData::default())), Vec::<String>::new());
    assert_eq!(
        autocomplete(Some(with_feeds(&["https://a.example/feed", "https://b.example/feed"]))),
        vec!["https://a.example/feed".to_string(), "https://b.example/feed".to_string()]
    );
}

#[test]
fn unsubscribe_is_described() {
    let c = register();
    assert_eq!(c.name, "unsubscribe");
    assert_eq!(c.options.len(), 2);
    assert_eq!(c.options[0].name, "all");
    assert_eq!(c.options[1].name, "from");
    let url = &c.options[1].sub_options[0];
    assert_eq!(url.kind, OptionKind::String);
    assert!(url.required && url.autocomplete);
}
