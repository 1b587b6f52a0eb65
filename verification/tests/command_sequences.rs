use discorss::commands::export::{run_checked, ExportReply};
use discorss::commands::set::channel::{self, ChannelStep, ServiceWebhook, WebhookRequest};
use discorss::commands::unset::channel::{self as unset_channel, WebhookRemoval};
use discorss::commands::{subscribe, subscriptions, unsubscribe};
use discorss::commands::{ChannelInfo, ChannelKind, CommandOption, OptionValue, Reply};
use discorss::structs::feed::ServerData;

fn url_option(url: &str) -> Vec<CommandOption> {
    vec![CommandOption { name: "url".to_string(), value: OptionValue::String(url.to_string()) }]
}

fn from(url: &str) -> Vec<CommandOption> {
    vec![CommandOption {
        name: "from".to_string(),
        value: OptionValue::SubCommand(vec![CommandOption {
            name: "url".to_string(),
            value: OptionValue::String(url.to_string()),
        }]),
    }]
}

fn subscribed(url: &str, stored: Option<ServerData>) -> ServerData {
    match subscribe::run(&url_option(url), &stored) {
        subscribe::SubscribeStep::FetchFeed(u) => subscribe::conclude(&u, stored, Ok(())).update.unwrap(),
        other => panic!("expected a fetch, got {other:?}"),
    }
}

#[test]
fn subscribing_twice_is_refused() {
    let d = subscribed("https://a.example/feed", None);
    assert_eq!(
        subscribe::run(&url_option("https://a.example/feed"), &Some(d)),
        subscribe::SubscribeStep::Done(Reply {
            message: "Already subscribed to <https://a.example/feed>.".to_string(),
            update: None,
        })
    );
}

#[test]
fn unsubscribe_undoes_subscribe() {
    let mut start = ServerData::default();
    start.feeds_list = Some(vec!["https://a.example/feed".to_string()]);
    start.feed_channel_id = Some(4);
    let after = subscribed("https://b.example/feed", Some(start.clone()));
    assert_eq!(
        subscriptions::run(Some(after.clone())),
        "```md\n1. https://a.example/feed\n2. https://b.example/feed\n```"
    );
    let back = unsubscribe::run(&from("https://b.example/feed"), Some(after)).update.unwrap();
    assert_eq!(back, start);
}

#[test]
fn unsubscribe_all_leaves_nothing_to_list() {
    let d = subscribed("https://b.example/feed", subscribed("https://a.example/feed", None).into());
    let cleared = unsubscribe::run(
        &vec![CommandOption { name: "all".to_string(), value: OptionValue::SubCommand(vec![]) }],
        Some(d),
    )
    .update
    .unwrap();
    assert_eq!(subscriptions::run(Some(cleared.clone())), "No subscription.");
    assert_eq!(run_checked(Some(cleared)), Some(ExportReply::Message("No subscription.".to_string())));
}

#[test]
fn feeds_stay_distinct_and_exportable() {
    let d = subscribed("https://b.example/feed", subscribed("https://a.example/feed", None).into());
    let list = d.feeds_list.clone().unwrap();
    assert_eq!(list.len(), 2);
    assert_ne!(list[0], list[1]);
    assert!(matches!(run_checked(Some(d)), Some(ExportReply::Attachment { .. })));
}

#[test]
fn setting_the_same_channel_twice_is_refused() {
    let create = WebhookRequest::Create { channel_id: 12 };
    let d = channel::complete(&create, None, Some(ServiceWebhook { id: 1, token: Some("t".to_string()) }))
        .update
        .unwrap();
    assert_eq!(
        channel::run(ChannelInfo { id: 12, kind: ChannelKind::Text }, &Some(d)),
        ChannelStep::Done(Reply { message: "Feed updates channel is already set to <#12>.".to_string(), update: None })
    );
}

#[test]
fn unset_after_set_keeps_the_feeds() {
    let start = subscribed("https://a.example/feed", None);
    let create = WebhookRequest::Create { channel_id: 12 };
    let set = channel::complete(&create, Some(start.clone()), Some(ServiceWebhook { id: 1, token: Some("t".to_string()) }))
        .update
        .unwrap();
    let unset = unset_channel::complete(set, WebhookRemoval::Deleted).update.unwrap();
    assert_eq!(unset, start);
}

#[test]
fn settings_keep_the_feeds() {
    let start = subscribed("https://a.example/feed", None);
    let with_interval = discorss::commands::set::set_interval::run(&[2], Some(start.clone())).update.unwrap();
    assert_eq!(with_interval.feeds_list, start.feeds_list);
    assert_eq!(with_interval.feed_check_interval, Some(7200));
    let create = WebhookRequest::Create { channel_id: 12 };
    let with_channel = channel::complete(&create, Some(with_interval), Some(ServiceWebhook { id: 1, token: Some("t".to_string()) }))
        .update
        .unwrap();
    assert_eq!(with_channel.feeds_list, start.feeds_list);
    assert_eq!(with_channel.feed_check_interval, Some(7200));
}
