use discorss::commands::export::{attach, register, run, run_checked, ExportReply};
use discorss::structs::feed::ServerData;

fn with_feeds(feeds: Option<Vec<&str>>) -> ServerData {
    let mut d = ServerData::default();
    d.feeds_list = feeds.map(|l| l.into_iter().map(|s| s.to_string()).collect());
    d
}

#[test]
fn nothing_to_export_is_noted() {
    assert_eq!(run(None), ExportReply::Message("No subscription.".to_string()));
    assert_eq!(run(Some(with_feeds(None))), ExportReply::Message("No subscription.".to_string()));
}

#[test]
fn feeds_become_outlines_titled_by_host() {
    let r = run(Some(with_feeds(Some(vec!["https://blog.rust-lang.org/feed.xml", "http://example.com/rss"]))));
    match r {
        ExportReply::Attachment { content, file_name } => {
            assert_eq!(file_name, "DiscoRSS_Export.OPML");
            assert!(content.starts_with("<opml version=\"2.0\">"));
            assert!(content.contains(
                "<outline text=\"blog.rust-lang.org\" xmlUrl=\"https://blog.rust-lang.org/feed.xml\"/>"
            ));
            assert!(content.contains("<outline text=\"example.com\" xmlUrl=\"http://example.com/rss\"/>"));
            let first = content.find("blog.rust-lang.org").unwrap();
            let second = content.find("example.com/rss").unwrap();
            assert!(first < second);
        }
        other => panic!("expected an attachment, got {other:?}"),
    }
}

#[test]
fn empty_list_is_an_empty_document() {
    match run(Some(with_feeds(Some(vec![])))) {
        ExportReply::Attachment { content, .. } => {
            assert!(content.starts_with("<opml version=\"2.0\">"));
            assert!(!content.contains("<outline"));
        }
        other => panic!("expected an attachment, got {other:?}"),
    }
}

#[test]
fn feeds_without_host_are_reported() {
    assert_eq!(run_checked(Some(with_feeds(Some(vec!["https://a.example/", "mailto:me@example.com"])))), None);
    assert_eq!(run_checked(Some(with_feeds(Some(vec!["no url"])))), None);
    assert_eq!(run_checked(None), Some(ExportReply::Message("No subscription.".to_string())));
    assert!(matches!(
        run_checked(Some(with_feeds(Some(vec!["https://a.example/"])))),
        Some(ExportReply::Attachment { .. })
    ));
}

#[test]
fn export_is_described() {
    let c = register();
    assert_eq!((c.name.as_str(), c.description.as_str()), ("export", "Export feeds list as an OPML file."));
}

#[test]
fn attachment_carries_the_document() {
    assert_eq!(
        attach("<opml/>".to_string()),
        ExportReply::Attachment { content: "<opml/>".to_string(), file_name: "DiscoRSS_Export.OPML".to_string() }
    );
}

#[test]
fn empty_list_document_is_exact() {
    assert_eq!(
        run(Some(with_feeds(Some(vec![])))),
        ExportReply::Attachment {
            content: "<opml version=\"2.0\"><head/><body/></opml>".to_string(),
            file_name: "DiscoRSS_Export.OPML".to_string(),
        }
    );
}

#[test]
fn export_document_is_written_whole_with_escapes() {
    let r = run(Some(with_feeds(Some(vec!["https://example.com/rss?a=1&b='2'", "http://blog.example.org/x\"y"]))));
    match r {
        ExportReply::Attachment { content, .. } => {
            assert_eq!(
                content,
                "<opml version=\"2.0\"><head/><body>\
                 <outline text=\"example.com\" xmlUrl=\"https://example.com/rss?a=1&amp;b=&apos;2&apos;\"/>\
                 <outline text=\"blog.example.org\" xmlUrl=\"http://blog.example.org/x&quot;y\"/>\
                 </body></opml>"
            );
        }
        other => panic!("expected an attachment, got {other:?}"),
    }
}
