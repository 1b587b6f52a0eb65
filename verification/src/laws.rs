//! Properties of the commands taken together: what one command leaves for
//! the next.
use vstd::prelude::*;
use crate::commands::{ChannelInfo, ChannelKind, CommandOption, OptionValue};
use crate::commands::export::exportable;
use crate::commands::set::channel::{ChannelStart, WebhookRequest, channel_outcome, channel_set, channel_start, request_channel};
use crate::commands::set::set_interval::interval_outcome;
use crate::commands::subscribe::{subscribe_outcome, subscribe_refusal, subscribe_start, subscribed};
use crate::commands::subscriptions::{listing, subscriptions_message};
use crate::commands::unset::channel::{WebhookRemoval, channel_unset, unset_outcome};
use crate::commands::unsubscribe::{unsubscribe_from, unsubscribe_outcome};
use crate::feed_list::{lemma_without_first_at, lemma_without_first_no_duplicates, lemma_without_first_subset, lemma_without_pushed, without_first};
use crate::links::{has_host, url_parse, url_problem};
use crate::structs::feed::{ServerDataView, WebhookView, base_record, stored_feeds};
use crate::text::decimal;

verus! {

/// A successful subscription appends the address to the server's feeds and
/// changes nothing else of its record.
pub proof fn law_subscribe_appends(url: Seq<char>, stored: Option<ServerDataView>)
    ensures
        subscribe_outcome(url, stored, Ok(())).1 == Some(subscribed(url, stored)),
        subscribed(url, stored).feeds() == stored_feeds(stored).push(url),
        subscribed(url, stored).feed_channel_id == base_record(stored).feed_channel_id,
        subscribed(url, stored).feed_webhook == base_record(stored).feed_webhook,
        subscribed(url, stored).feed_check_interval == base_record(stored).feed_check_interval,
{
}

/// Subscribing again to an address just subscribed to is refused as
/// already done.
pub proof fn law_subscribe_twice_refused(url: Seq<char>, stored: Option<ServerDataView>)
    requires
        url_problem(url_parse(url)) is None,
    ensures
        subscribe_refusal(url, Some(subscribed(url, stored)))
            == Some("Already subscribed to <"@ + url + ">."@),
{
    let feeds = subscribed(url, stored).feeds();
    assert(feeds[feeds.len() - 1] == url);
    assert(feeds.contains(url));
}

/// A failed subscription stores nothing.
pub proof fn law_failed_subscribe_stores_nothing(
    url: Seq<char>,
    stored: Option<ServerDataView>,
    e: crate::feed::GetFeedError,
)
    ensures
        subscribe_outcome(url, stored, Err(e)).1 is None,
{
}

/// Unsubscribing from an address right after subscribing to it gives the
/// server its feeds back as they were.
pub proof fn law_unsubscribe_undoes_subscribe(url: Seq<char>, stored: Option<ServerDataView>)
    requires
        url_problem(url_parse(url)) is None,
        !stored_feeds(stored).contains(url),
    ensures
        unsubscribe_from(url, subscribed(url, stored))
            == ("Unsubscribed from <"@ + url + ">"@, Some(ServerDataView {
                feeds_list: Some(stored_feeds(stored)),
                ..base_record(stored)
            })),
{
    let feeds = subscribed(url, stored).feeds();
    assert(feeds[feeds.len() - 1] == url);
    assert(feeds.contains(url));
    lemma_without_pushed(stored_feeds(stored), url);
}

/// The feeds never hold an address twice: subscribing refuses an address
/// that is there, and unsubscribing takes the address out entirely.
pub proof fn law_feeds_stay_distinct(url: Seq<char>, stored: Option<ServerDataView>)
    requires
        stored_feeds(stored).no_duplicates(),
    ensures
        subscribe_refusal(url, stored) is None ==> subscribed(url, stored).feeds().no_duplicates(),
        without_first(stored_feeds(stored), url).no_duplicates(),
        !without_first(stored_feeds(stored), url).contains(url),
{
    let s = stored_feeds(stored);
    if subscribe_refusal(url, stored) is None {
        let t = s.push(url);
        assert(!s.contains(url));
        assert forall|a: int, b: int| 0 <= a < t.len() && 0 <= b < t.len() && a != b implies t[a] != t[b] by {
            if a < s.len() && b < s.len() {
                assert(t[a] == s[a] && t[b] == s[b]);
            } else if a < s.len() {
                assert(t[a] == s[a]);
                assert(s.contains(s[a]));
            } else if b < s.len() {
                assert(t[b] == s[b]);
                assert(s.contains(s[b]));
            }
        }
        assert(subscribed(url, stored).feeds() == t);
    }
    lemma_without_first_no_duplicates(s, url);
}

/// After `/unsubscribe all` the server has no subscriptions to list.
pub proof fn law_unsubscribe_all_clears(options: Seq<CommandOption>, d: ServerDataView)
    requires
        options.len() > 0,
        options[0].name@ == "all"@,
    ensures
        unsubscribe_outcome(options, Some(d)).1 matches Some(after)
            && subscriptions_message(after.feeds()) == "No subscription."@,
{
}

/// Every address that `/subscribe` lets through has a host, and the
/// commands keep the stored feeds exportable: a record made by the commands
/// can always be exported.
pub proof fn law_feeds_stay_exportable(url: Seq<char>, stored: Option<ServerDataView>)
    requires
        exportable(stored_feeds(stored)),
    ensures
        has_host(url_parse(url)) ==> exportable(subscribed(url, stored).feeds()),
        exportable(without_first(stored_feeds(stored), url)),
{
    let s = stored_feeds(stored);
    if has_host(url_parse(url)) {
        let t = s.push(url);
        assert forall|i: int| 0 <= i < t.len() implies has_host(#[trigger] url_parse(t[i])) by {
            if i < s.len() {
                assert(t[i] == s[i]);
            }
        }
        assert(subscribed(url, stored).feeds() == t);
    }
    let r = without_first(s, url);
    lemma_without_first_subset(s, url);
    assert forall|i: int| 0 <= i < r.len() implies has_host(#[trigger] url_parse(r[i])) by {
        assert(s.contains(r[i]));
        let k = choose|k: int| 0 <= k < s.len() && s[k] == r[i];
        assert(has_host(url_parse(s[k])));
    }
}

/// Setting the channel that is already the feed channel is refused as
/// already done.
pub proof fn law_set_channel_twice_refused(req: WebhookRequest, stored: Option<ServerDataView>, hook: WebhookView)
    ensures
        channel_outcome(req, stored, Some(hook)).1 matches Some(after)
            && channel_start(ChannelInfo { id: request_channel(req), kind: ChannelKind::Text }, Some(after))
                == ChannelStart::Reply("Feed updates channel is already set to <#"@
                    + decimal(request_channel(req) as nat) + ">."@),
{
}

/// Setting and then unsetting the feed channel leaves the server's feeds
/// and interval as they were, with no channel and no webhook.
pub proof fn law_unset_undoes_set(channel_id: u64, hook: WebhookView, stored: Option<ServerDataView>)
    ensures
        unset_outcome(channel_set(channel_id, hook, stored), WebhookRemoval::Deleted).1
            == Some(channel_unset(base_record(stored))),
        channel_unset(base_record(stored)).feeds_list == base_record(stored).feeds_list,
        channel_unset(base_record(stored)).feed_check_interval == base_record(stored).feed_check_interval,
{
}

/// The server's settings and its subscriptions change independently:
/// setting the channel or the interval keeps the feeds, and the interval is
/// kept by setting the channel.
pub proof fn law_settings_keep_feeds(
    channel_id: u64,
    hook: WebhookView,
    hours: i64,
    stored: Option<ServerDataView>,
)
    requires
        stored is Some,
    ensures
        channel_set(channel_id, hook, stored).feeds_list == base_record(stored).feeds_list,
        channel_set(channel_id, hook, stored).feed_check_interval == base_record(stored).feed_check_interval,
        interval_outcome(hours, stored).1 matches Some(after)
            && after.feeds_list == base_record(stored).feeds_list
            && after.feed_channel_id == base_record(stored).feed_channel_id
            && after.feed_webhook == base_record(stored).feed_webhook,
{
}

/// `/subscribe` with a web URL that occurs anywhere in the server's feeds
/// is refused as already done at once: it never asks for the address to be
/// fetched.
pub proof fn law_subscribe_refuses_any_present(
    options: Seq<CommandOption>,
    u: String,
    stored: Option<ServerDataView>,
    i: int,
)
    requires
        options.len() > 0,
        options[0].value == OptionValue::String(u),
        url_problem(url_parse(u@)) is None,
        0 <= i < stored_feeds(stored).len(),
        stored_feeds(stored)[i] == u@,
    ensures
        subscribe_start(options, stored) == (false, "Already subscribed to <"@ + u@ + ">."@),
{
    assert(stored_feeds(stored).contains(u@));
}

/// Where the first step of `/subscribe` asks for a fetch, it is of the
/// entered address, which is none of the server's feeds.
pub proof fn law_subscribe_fetches_only_new(options: Seq<CommandOption>, u: String, stored: Option<ServerDataView>)
    requires
        options.len() > 0,
        options[0].value == OptionValue::String(u),
    ensures
        subscribe_start(options, stored).0 ==> subscribe_start(options, stored).1 == u@
            && forall|i: int| 0 <= i < stored_feeds(stored).len() ==> stored_feeds(stored)[i] != u@,
{
    if subscribe_start(options, stored).0 {
        assert forall|i: int| 0 <= i < stored_feeds(stored).len() implies stored_feeds(stored)[i] != u@ by {
            if stored_feeds(stored)[i] == u@ {
                assert(stored_feeds(stored).contains(u@));
            }
        }
    }
}

/// `/unsubscribe from` a subscribed web URL takes out its first occurrence,
/// wherever it stands, and keeps the other feeds in their order and the
/// rest of the record as it was.
pub proof fn law_unsubscribe_removes_first_occurrence(
    options: Seq<CommandOption>,
    from: Vec<CommandOption>,
    u: String,
    d: ServerDataView,
    i: int,
)
    requires
        options.len() > 0,
        options[0].name@ != "all"@,
        options[0].value == OptionValue::SubCommand(from),
        from@.len() > 0,
        from@[0].value == OptionValue::String(u),
        url_problem(url_parse(u@)) is None,
        0 <= i < d.feeds().len(),
        d.feeds()[i] == u@,
        forall|j: int| 0 <= j < i ==> d.feeds()[j] != u@,
    ensures
        unsubscribe_outcome(options, Some(d)).0 == "Unsubscribed from <"@ + u@ + ">"@,
        unsubscribe_outcome(options, Some(d)).1 matches Some(after)
            && after.feeds_list == Some(d.feeds().remove(i))
            && after.feed_channel_id == d.feed_channel_id
            && after.feed_webhook == d.feed_webhook
            && after.feed_check_interval == d.feed_check_interval,
{
    assert(d.feeds().contains(u@));
    lemma_without_first_at(d.feeds(), u@, i);
}

/// `/set interval` stores the entered hours in seconds, exactly, for a
/// server with a record, and changes nothing else.
pub proof fn law_interval_in_seconds(hours: i64, d: ServerDataView)
    requires
        i64::MIN <= hours * 3600 <= i64::MAX,
    ensures
        interval_outcome(hours, Some(d)).0 == "Set interval."@,
        interval_outcome(hours, Some(d)).1 matches Some(after)
            && after.feed_check_interval matches Some(seconds)
            && seconds as int == hours * 3600
            && after.feeds_list == d.feeds_list
            && after.feed_channel_id == d.feed_channel_id
            && after.feed_webhook == d.feed_webhook,
{
}

/// `/subscriptions` notes that there is none exactly when the server has no
/// feeds; otherwise it answers a Markdown code block of the listing.
pub proof fn law_subscriptions_none_only_when_empty(feeds: Seq<Seq<char>>)
    ensures
        (subscriptions_message(feeds) == "No subscription."@) <==> feeds.len() == 0,
        feeds.len() > 0 ==> subscriptions_message(feeds) == "```md\n"@ + listing(feeds) + "```"@,
{
    reveal_strlit("No subscription.");
    reveal_strlit("```md\n");
    if feeds.len() > 0 {
        let m = subscriptions_message(feeds);
        assert(m[0] == '`');
        assert("No subscription."@[0] == 'N');
    }
}

/// The listing has one line `k. feed` per feed, in order: adding a feed at
/// the end adds its numbered line at the end, and the listing of no feed is
/// empty.
pub proof fn law_listing_lines(feeds: Seq<Seq<char>>, feed: Seq<char>)
    ensures
        listing(Seq::<Seq<char>>::empty()) == Seq::<char>::empty(),
        listing(feeds.push(feed)) == listing(feeds) + decimal(feeds.len() + 1) + ". "@ + feed + "\n"@,
{
    assert(feeds.push(feed).drop_last() =~= feeds);
}

/// A server with one feed gets that feed listed as number one.
pub proof fn law_subscriptions_of_one_feed(feed: Seq<char>)
    ensures
        subscriptions_message(seq![feed]) == "```md\n1. "@ + feed + "\n```"@,
{
    reveal_strlit("```md\n");
    reveal_strlit("```md\n1. ");
    reveal_strlit("\n```");
    reveal_strlit("```");
    reveal_strlit(". ");
    reveal_strlit("\n");
    let one: Seq<Seq<char>> = seq![feed];
    assert(one.drop_last() =~= Seq::<Seq<char>>::empty());
    assert(decimal(1) =~= seq!['1']);
    assert(listing(one.drop_last()) == Seq::<char>::empty());
    assert(one.last() == feed);
    let body = listing(one);
    assert(body == listing(one.drop_last()) + (decimal(1) + ". "@ + feed + "\n"@));
    assert(body =~= seq!['1'] + ". "@ + feed + "\n"@);
    assert(subscriptions_message(one) == "```md\n"@ + body + "```"@);
    assert(subscriptions_message(one) =~= "```md\n1. "@ + feed + "\n```"@);
}

/// Whenever the chat service returns a webhook for `/set channel` (moved or
/// created), the record stores the requested channel and that webhook, and
/// keeps the feeds and the interval.
pub proof fn law_set_channel_stores_webhook(req: WebhookRequest, stored: Option<ServerDataView>, hook: WebhookView)
    ensures
        channel_outcome(req, stored, Some(hook)).0 == "Feed updates channel is set to <#"@ + decimal(
            request_channel(req) as nat,
        ) + ">."@,
        channel_outcome(req, stored, Some(hook)).1 matches Some(after)
            && after.feed_channel_id == Some(request_channel(req))
            && after.feed_webhook == Some(hook)
            && (stored matches Some(d) ==> after.feeds_list == d.feeds_list
                && after.feed_check_interval == d.feed_check_interval)
            && (stored is None ==> after.feeds_list is None && after.feed_check_interval is None),
{
}

/// `/subscribe` with an address that does not parse, or that is not a web
/// URL, is refused with the reason and fetches nothing, whatever the
/// server's feeds.
pub proof fn law_subscribe_refuses_bad_address(options: Seq<CommandOption>, u: String, stored: Option<ServerDataView>)
    requires
        options.len() > 0,
        options[0].value == OptionValue::String(u),
    ensures
        url_parse(u@) is None ==> subscribe_start(options, stored) == (false, "Entered URL is not valid."@),
        url_parse(u@) is Some && url_problem(url_parse(u@)) is Some ==> subscribe_start(options, stored) == (
            false,
            "Entered URL must be using HTTP(S) protocol."@,
        ),
{
}

/// `/unsubscribe from` an address that is none of the server's feeds stores
/// nothing.
pub proof fn law_unsubscribe_absent_stores_nothing(
    options: Seq<CommandOption>,
    from: Vec<CommandOption>,
    u: String,
    d: ServerDataView,
)
    requires
        options.len() > 0,
        options[0].name@ != "all"@,
        options[0].value == OptionValue::SubCommand(from),
        from@.len() > 0,
        from@[0].value == OptionValue::String(u),
        forall|j: int| 0 <= j < d.feeds().len() ==> d.feeds()[j] != u@,
    ensures
        unsubscribe_outcome(options, Some(d)).1 is None,
{
    assert(!d.feeds().contains(u@));
}

} // verus!
