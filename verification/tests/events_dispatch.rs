use discorss::events::{CommandRoute, Events};

#[test]
fn commands_are_routed_by_name() {
    assert_eq!(Events::route("latency"), CommandRoute::Latency);
    assert_eq!(Events::route("set"), CommandRoute::SetOption);
    assert_eq!(Events::route("unset"), CommandRoute::UnsetOption);
    assert_eq!(Events::route("subscribe"), CommandRoute::Subscribe);
    assert_eq!(Events::route("unsubscribe"), CommandRoute::Unsubscribe);
    assert_eq!(Events::route("subscriptions"), CommandRoute::Subscriptions);
    assert_eq!(Events::route("export"), CommandRoute::Export);
    assert_eq!(Events::route("Subscribe"), CommandRoute::Unknown);
}

#[test]
fn unknown_commands_are_answered() {
    assert_eq!(Events::unknown_command("dance"), "No such command found: dance");
}

#[test]
fn only_unsubscribe_autocompletes() {
    assert!(Events::autocompletes("unsubscribe"));
    assert!(!Events::autocompletes("subscribe"));
}

#[test]
fn all_commands_are_registered_in_order() {
    let names: Vec<String> = Events::commands_to_register().into_iter().map(|c| c.name).collect();
    assert_eq!(names, vec!["latency", "set", "unset", "subscribe", "unsubscribe", "subscriptions", "export"]);
}

#[test]
fn registration_waits_when_more_are_registered() {
    assert_eq!(Events::registration(0).map(|v| v.len()), Some(7));
    assert_eq!(Events::registration(7).map(|v| v.len()), Some(7));
    assert!(Events::registration(8).is_none());
}
