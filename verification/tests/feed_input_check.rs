use discorss::feed::FeedUtils;
use discorss::feed_input::feed_input_is_safe;

fn item(inner: &str) -> String {
    format!(
        r#"<?xml version="1.0" encoding="UTF-8"?><rss version="2.0" xmlns:itunes="http://www.itunes.com/dtds/podcast-1.0.dtd" xmlns:dc="http://purl.org/dc/elements/1.1/" xmlns:media="http://search.yahoo.com/mrss/"><channel><title>T</title><link>https://example.com/</link><description>D</description><item><title>A</title>{inner}</item></channel></rss>"#
    )
}

#[test]
fn ordinary_feeds_pass() {
    assert!(feed_input_is_safe(&item("<itunes:duration>01:02:03</itunes:duration>")));
    assert!(feed_input_is_safe(&item("<dc:creator>Jane Doe</dc:creator>")));
    assert!(feed_input_is_safe(&item("<author>jane@example.com (Jane Doe)</author>")));
    assert!(feed_input_is_safe(&item("<description>It&#8217;s here &amp; now</description>")));
    assert!(feed_input_is_safe(&item("<!-- generator=\"WordPress/6.5\" --><title><![CDATA[Episode 12]]></title>")));
    assert!(feed_input_is_safe(r#"{"version": "https://jsonfeed.org/version/1.1", "title": "x", "items": []}"#));
    assert!(feed_input_is_safe("just some words"));
    assert!(feed_input_is_safe(""));
}

#[test]
fn checked_feeds_are_read() {
    let body = item("<itunes:duration>3600</itunes:duration><author>jane@example.com (Jane)</author>");
    assert!(feed_input_is_safe(&body));
    assert_eq!(FeedUtils::get_feed(Some(body)), Ok(()));
}

#[test]
fn admitted_edge_cases_are_read() {
    let bodies = [
        item("<itunes:duration>1234567890123456789</itunes:duration>"),
        item("<itunes:duration>123456789012345:00:00.123456789012345</itunes:duration>"),
        item(r#"<media:content url="https://example.com/a.mp3" start="1234567890123456789"/>"#),
        item("<dc:creator>Jos\u{e9} (jose@b.co)</dc:creator><author>\u{e9} x@y.co \u{e9}</author>"),
        item("<itunes:duration>1234567890<!-- note -->123456789</itunes:duration>"),
    ];
    for body in bodies {
        assert!(feed_input_is_safe(&body));
        assert_eq!(FeedUtils::get_feed(Some(body)), Ok(()));
    }
}

#[test]
fn long_play_times_are_refused() {
    assert!(!feed_input_is_safe(&item("<itunes:duration>123456789012345678901234567890</itunes:duration>")));
    assert!(!feed_input_is_safe(&item("<itunes:duration>12345678901234567890</itunes:duration>")));
    assert!(feed_input_is_safe(&item("<itunes:duration>1234567890123456789</itunes:duration>")));
    assert!(!feed_input_is_safe(&item("<itunes:duration>1234567890123456:00:00</itunes:duration>")));
    assert!(feed_input_is_safe(&item("<itunes:duration>123456789012345:00:00</itunes:duration>")));
    assert!(!feed_input_is_safe(&item("<itunes:duration>1234567890123456&#58;00:00</itunes:duration>")));
    assert!(feed_input_is_safe(&item("<link>https://example.com/status/1234567890123456789</link>")));
    assert!(!feed_input_is_safe(&item(r#"<media:content url="https://example.com/a.mp3" start="99999999999999999999"/>"#)));
}

#[test]
fn digit_runs_joined_by_the_reader_are_refused() {
    assert!(!feed_input_is_safe(&item("<itunes:duration>1234567890<!-- note -->1234567890</itunes:duration>")));
    assert!(feed_input_is_safe(&item("<itunes:duration>1234567890<!-- note -->123456789</itunes:duration>")));
    assert!(!feed_input_is_safe(&item("<itunes:duration><![CDATA[1234567890]]>1234567890</itunes:duration>")));
    assert!(!feed_input_is_safe(&item("<itunes:duration>1234567890<?pi x?>1234567890</itunes:duration>")));
    assert!(feed_input_is_safe(&item("<itunes:duration>1234567890</itunes:duration><title>1234567890</title>")));
}

#[test]
fn other_digits_are_refused() {
    assert!(!feed_input_is_safe(&item("<itunes:duration>\u{0661}\u{0662}</itunes:duration>")));
    assert!(!feed_input_is_safe(&item("<itunes:duration>&#49;2</itunes:duration>")));
    assert!(!feed_input_is_safe(&item("<itunes:duration>&#x661;</itunes:duration>")));
    assert!(!feed_input_is_safe(&item("<title>&#49</title>")));
    assert!(!feed_input_is_safe(&item("<title>&#1114112;</title>")));
}

#[test]
fn addresses_touching_wide_characters_are_refused() {
    assert!(!feed_input_is_safe(&item("<dc:creator>\u{ab}a@b.co\u{bb}</dc:creator>")));
    assert!(!feed_input_is_safe(&item("<dc:creator>Jos\u{e9}a@b.co</dc:creator>")));
    assert!(!feed_input_is_safe(&item("<dc:creator>&#171;a@b.co</dc:creator>")));
    assert!(!feed_input_is_safe(&item("<dc:creator>\u{ab}a&#64;b.co</dc:creator>")));
    assert!(!feed_input_is_safe(&item("<dc:creator>\u{ab}<!-- x -->a@b.co</dc:creator>")));
    assert!(!feed_input_is_safe(r#"{"version": "https://jsonfeed.org/version/1.1", "title": "x", "authors": [{"name": "\u00aba@b.co"}], "items": []}"#));
    assert!(!feed_input_is_safe(r#"{"version": "https://jsonfeed.org/version/1.1", "title": "x", "authors": [{"name": "«a\u0040b.co"}], "items": []}"#));
    assert!(feed_input_is_safe(&item("<dc:creator>Jos\u{e9} (jose@b.co)</dc:creator>")));
}

#[test]
fn other_encodings_and_document_types_are_refused() {
    assert!(!feed_input_is_safe(r#"<?xml version="1.0" encoding="ISO-8859-1"?><rss version="2.0"></rss>"#));
    assert!(feed_input_is_safe(r#"<?xml version='1.0' encoding='utf-8'?><rss version="2.0"></rss>"#));
    assert!(feed_input_is_safe("<rss><title>Video encoding=\"x\"</title></rss>"));
    assert!(!feed_input_is_safe(r#"<?xml version="1.0"?><!DOCTYPE rss [<!ENTITY n "1">]><rss></rss>"#));
    assert!(!feed_input_is_safe("<rss>\u{0}</rss>"));
}
