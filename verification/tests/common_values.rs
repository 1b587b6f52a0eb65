use discorss::commands::{ChannelInfo, ChannelKind, CommandOption, OptionValue};
use discorss::structs::feed::{FeedWebhook, ServerData};

fn record(feeds: Option<Vec<&str>>) -> ServerData {
    ServerData {
        feed_channel_id: Some(42),
        feed_check_interval: Some(7200),
        feed_webhook: Some(FeedWebhook { id: 9, token: "tok".to_string() }),
        feeds_list: feeds.map(|l| l.into_iter().map(|s| s.to_string()).collect()),
    }
}

#[test]
fn records_compare_by_fields() {
    assert_eq!(record(None), record(None));
    assert_ne!(record(None), record(Some(vec![])));
    assert_eq!(ServerData::default().feeds_list, None);
}

#[test]
fn options_hold_nested_values() {
    let o = CommandOption {
        name: "from".to_string(),
        value: OptionValue::SubCommand(vec![CommandOption {
            name: "url".to_string(),
            value: OptionValue::String("https://a.example/feed".to_string()),
        }]),
    };
    match &o.value {
        OptionValue::SubCommand(v) => assert_eq!(v.len(), 1),
        _ => panic!("expected a subcommand"),
    }
    let c = ChannelInfo { id: 5, kind: ChannelKind::Text };
    assert_eq!(c, ChannelInfo { id: 5, kind: ChannelKind::Text });
}
