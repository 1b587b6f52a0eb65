use discorss::commands::set::channel::{self, ChannelStep, ServiceWebhook, WebhookRequest};
use discorss::commands::set::set_interval;
use discorss::commands::set::SetRoute;
use discorss::commands::unset::channel::{self as unset_channel, UnsetStep, WebhookRemoval};
use discorss::commands::{ChannelInfo, ChannelKind, CommandOption, OptionValue, Reply};
use discorss::structs::feed::{FeedWebhook, ServerData};

fn text_channel(id: u64) -> ChannelInfo {
    ChannelInfo { id, kind: ChannelKind::Text }
}

fn record() -> ServerData {
    ServerData {
        feed_channel_id: Some(10),
        feed_check_interval: Some(3600),
        feed_webhook: Some(FeedWebhook { id: 77, token: "tok".to_string() }),
        feeds_list: Some(vec!["https://a.example/feed".to_string()]),
    }
}

fn done(s: &str) -> ChannelStep {
    ChannelStep::Done(Reply { message: s.to_string(), update: None })
}

fn sub(name: &str, values: Vec<CommandOption>) -> Vec<CommandOption> {
    vec![CommandOption { name: name.to_string(), value: OptionValue::SubCommand(values) }]
}

fn value(v: OptionValue) -> Vec<CommandOption> {
    vec![CommandOption { name: "x".to_string(), value: v }]
}

#[test]
fn set_routes_to_its_subcommands() {
    assert_eq!(discorss::commands::set::run(&value(OptionValue::Integer(1))), SetRoute::Reply("Enter subcommand.".to_string()));
    assert_eq!(
        discorss::commands::set::run(&sub("channel", value(OptionValue::Channel(text_channel(5))))),
        SetRoute::Channel(text_channel(5))
    );
    assert_eq!(
        discorss::commands::set::run(&sub("channel", value(OptionValue::Integer(5)))),
        SetRoute::Reply("Mention a channel to set.".to_string())
    );
    assert_eq!(discorss::commands::set::run(&sub("interval", value(OptionValue::Integer(6)))), SetRoute::Interval(6));
    assert_eq!(
        discorss::commands::set::run(&sub("interval", value(OptionValue::Other))),
        SetRoute::Reply("Mention a channel to set.".to_string())
    );
    assert_eq!(discorss::commands::set::run(&sub("colour", vec![])), SetRoute::Reply("Sub command not found.".to_string()));
}

#[test]
fn interval_is_stored_in_seconds() {
    let r = set_interval::run(&[6], Some(record()));
    assert_eq!(r.message, "Set interval.");
    let mut expected = record();
    expected.feed_check_interval = Some(21600);
    assert_eq!(r.update, Some(expected));
    let r = set_interval::run(&[6], None);
    assert_eq!(r.message, "Interval left default");
    assert_eq!(r.update, None);
}

#[test]
fn only_text_channels_are_accepted() {
    let c = ChannelInfo { id: 5, kind: ChannelKind::Other };
    assert_eq!(channel::run(c, &None), done("Mentioned channel must be a text channel."));
}

#[test]
fn current_channel_is_refused() {
    assert_eq!(channel::run(text_channel(10), &Some(record())), done("Feed updates channel is already set to <#10>."));
}

#[test]
fn existing_webhook_is_moved() {
    assert_eq!(
        channel::run(text_channel(11), &Some(record())),
        ChannelStep::Request(WebhookRequest::Edit { webhook_id: 77, token: "tok".to_string(), channel_id: 11 })
    );
}

#[test]
fn missing_webhook_is_created() {
    assert_eq!(channel::run(text_channel(11), &None), ChannelStep::Request(WebhookRequest::Create { channel_id: 11 }));
    let mut d = record();
    d.feed_webhook = None;
    assert_eq!(channel::run(text_channel(11), &Some(d)), ChannelStep::Request(WebhookRequest::Create { channel_id: 11 }));
}

#[test]
fn failed_webhook_calls_are_reported() {
    let edit = WebhookRequest::Edit { webhook_id: 77, token: "tok".to_string(), channel_id: 11 };
    let r = channel::complete(&edit, Some(record()), None);
    assert_eq!(r.message, "Could not edit existing webhook.");
    assert_eq!(r.update, None);
    let create = WebhookRequest::Create { channel_id: 11 };
    let r = channel::complete(&create, None, None);
    assert_eq!(r.message, "Could not create new webhook.");
}

#[test]
fn new_webhook_is_stored() {
    let create = WebhookRequest::Create { channel_id: 11 };
    let hook = ServiceWebhook { id: 88, token: Some("new".to_string()) };
    let r = channel::complete(&create, None, Some(hook.clone()));
    assert_eq!(r.message, "Feed updates channel is set to <#11>.");
    let mut expected = ServerData::default();
    expected.feed_channel_id = Some(11);
    expected.feed_webhook = Some(FeedWebhook { id: 88, token: "new".to_string() });
    assert_eq!(r.update, Some(expected));

    let r = channel::complete(&create, Some(record()), Some(hook));
    let mut expected = record();
    expected.feed_channel_id = Some(11);
    expected.feed_webhook = Some(FeedWebhook { id: 88, token: "new".to_string() });
    assert_eq!(r.update, Some(expected));
}

#[test]
fn unset_needs_a_subcommand_and_a_channel() {
    assert_eq!(
        unset_channel::run(&value(OptionValue::Integer(1)), &Some(record())),
        UnsetStep::Done(Reply { message: "Select a subcommand.".to_string(), update: None })
    );
    let none = UnsetStep::Done(Reply { message: "No channel set already.".to_string(), update: None });
    assert_eq!(unset_channel::run(&sub("channel", vec![]), &None), none);
    assert_eq!(unset_channel::run(&sub("channel", vec![]), &Some(ServerData::default())), none);
}

#[test]
fn unset_deletes_the_webhook() {
    assert_eq!(
        unset_channel::run(&sub("channel", vec![]), &Some(record())),
        UnsetStep::DeleteWebhook(FeedWebhook { id: 77, token: "tok".to_string() })
    );
    let r = unset_channel::complete(record(), WebhookRemoval::Deleted);
    assert_eq!(r.message, "Unset channel.");
    let mut expected = record();
    expected.feed_channel_id = None;
    expected.feed_webhook = None;
    assert_eq!(r.update, Some(expected));
    assert_eq!(unset_channel::complete(record(), WebhookRemoval::NotFound).message, "Could not get webhook.");
    assert_eq!(unset_channel::complete(record(), WebhookRemoval::DeleteFailed).message, "Could not delete webhook.");
    assert_eq!(unset_channel::complete(record(), WebhookRemoval::DeleteFailed).update, None);
}

#[test]
fn set_and_unset_are_described() {
    let c = discorss::commands::set::register();
    assert_eq!(c.name, "set");
    assert_eq!(c.options[1].sub_options[0].min_int, Some(1));
    assert_eq!(c.options[1].sub_options[0].max_int, Some(24));
    let c = unset_channel::register();
    assert_eq!((c.name.as_str(), c.options[0].name.as_str()), ("unset", "channel"));
}

#[test]
fn webhook_has_its_name() {
    assert_eq!(channel::webhook_name(), "DiscoRSS Feed");
}
