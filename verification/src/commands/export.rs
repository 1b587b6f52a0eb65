//! `/export`: writes the server's feeds as an OPML document.
use vstd::prelude::*;
use crate::links::{has_host, url_host, url_parse};
use crate::structs::feed::{ServerData, ServerDataView, stored_feeds, stored_view, texts};

use crate::commands::builder::{CommandSpec, command_shape};
verus! {

/// `opml::OPML`, an OPML document, known to Verus by name only.
#[verifier::external_type_specification]
#[verifier::external_body]
pub struct ExOpml(opml::OPML);

/// `opml::Error`, the error of writing a document, known by name only.
#[verifier::external_type_specification]
#[verifier::external_body]
pub struct ExOpmlError(opml::Error);

/// The outlines of an OPML document's body, as (text, feed URL) pairs in
/// order.
pub uninterp spec fn opml_outlines(doc: opml::OPML) -> Seq<(Seq<char>, Seq<char>)>;

/// Whether a document was made by `OPML::default` and `OPML::add_feed`
/// alone, so that its outlines determine it.
pub uninterp spec fn opml_plain(doc: opml::OPML) -> bool;

/// A text as hard-xml writes it in an attribute value: `<`, `>`, `&`, `'`
/// and `"` become entity references.
pub open spec fn xml_escaped(t: Seq<char>) -> Seq<char>
    decreases t.len(),
{
    if t.len() == 0 {
        Seq::empty()
    } else {
        let c = t[0];
        let head = if c == '<' {
            "&lt;"@
        } else if c == '>' {
            "&gt;"@
        } else if c == '&' {
            "&amp;"@
        } else if c == '\'' {
            "&apos;"@
        } else if c == '"' {
            "&quot;"@
        } else {
            seq![c]
        };
        head + xml_escaped(t.drop_first())
    }
}

/// The element written for an outline with a text and a feed URL.
pub open spec fn outline_text(o: (Seq<char>, Seq<char>)) -> Seq<char> {
    "<outline text=\""@ + xml_escaped(o.0) + "\" xmlUrl=\""@ + xml_escaped(o.1) + "\"/>"@
}

/// The elements written for outlines, one after another.
pub open spec fn outlines_text(outlines: Seq<(Seq<char>, Seq<char>)>) -> Seq<char>
    decreases outlines.len(),
{
    if outlines.len() == 0 {
        Seq::empty()
    } else {
        outline_text(outlines[0]) + outlines_text(outlines.drop_first())
    }
}

/// What `OPML::to_string` writes for a plain document with these outlines:
/// no XML declaration, version 2.0, an empty head, and the outlines in the
/// body (an empty body closes itself).
pub open spec fn opml_text(outlines: Seq<(Seq<char>, Seq<char>)>) -> Seq<char> {
    if outlines.len() == 0 {
        "<opml version=\"2.0\"><head/><body/></opml>"@
    } else {
        "<opml version=\"2.0\"><head/><body>"@ + outlines_text(outlines) + "</body></opml>"@
    }
}

/// `opml::OPML::default()`. Trusted: the document is plain and has no
/// outlines.
#[verifier::external_body]
fn new_document() -> (doc: opml::OPML)
    ensures
        opml_plain(doc),
        opml_outlines(doc) == Seq::<(Seq<char>, Seq<char>)>::empty(),
{
    opml::OPML::default()
}

/// `opml::OPML::add_feed`. Trusted: it appends one outline with the text
/// and the feed URL and changes nothing else.
#[verifier::external_body]
fn add_feed(doc: &mut opml::OPML, text: &str, url: &str)
    ensures
        opml_outlines(*final(doc)) == opml_outlines(*old(doc)).push((text@, url@)),
        opml_plain(*final(doc)) == opml_plain(*old(doc)),
{
    doc.add_feed(text, url);
}

/// `opml::OPML::to_string`. Trusted: it succeeds (it writes into memory,
/// which cannot fail, pieces that are valid UTF-8), and for a plain document
/// what it writes is `opml_text` of the outlines.
#[verifier::external_body]
fn render(doc: &opml::OPML) -> (r: Result<String, opml::Error>)
    ensures
        r is Ok,
        opml_plain(*doc) ==> (r matches Ok(s) ==> s@ == opml_text(opml_outlines(*doc))),
{
    doc.to_string()
}

/// The name of the exported file.
pub open spec fn export_file_name() -> Seq<char> {
    "DiscoRSS_Export.OPML"@
}

/// The answer to the command.
#[derive(Debug, Clone, PartialEq, Eq)]
pub enum ExportReply {
    /// Answer with this text.
    Message(String),
    /// Attach a file with this content and name.
    Attachment { content: String, file_name: String },
}

/// The host of a feed address.
pub open spec fn feed_host(url: Seq<char>) -> Seq<char> {
    match url_parse(url) {
        Some(p) => match p.1 {
            Some(h) => h,
            None => Seq::empty(),
        },
        None => Seq::empty(),
    }
}

/// Whether every feed address parses and has a host.
pub open spec fn exportable(feeds: Seq<Seq<char>>) -> bool {
    forall|i: int| 0 <= i < feeds.len() ==> has_host(#[trigger] url_parse(feeds[i]))
}


/// The outlines of the export: one per feed, titled with its host.
pub open spec fn export_outlines(feeds: Seq<Seq<char>>) -> Seq<(Seq<char>, Seq<char>)> {
    feeds.map_values(|f: Seq<char>| (feed_host(f), f))
}

/// Whether the record lacks a feeds list (and the answer is a note).
pub open spec fn nothing_to_export(stored: Option<ServerDataView>) -> bool {
    match stored {
        Some(d) => d.feeds_list is None,
        None => true,
    }
}

/// Whether the reply is the given text.
pub open spec fn is_message(r: ExportReply, text: Seq<char>) -> bool {
    match r {
        ExportReply::Message(m) => m@ == text,
        _ => false,
    }
}

/// Whether the reply is the export of these feeds.
pub open spec fn is_export_of(r: ExportReply, feeds: Seq<Seq<char>>) -> bool {
    match r {
        ExportReply::Attachment { content, file_name } =>
            content@ == opml_text(export_outlines(feeds)) && file_name@ == export_file_name(),
        ExportReply::Message(_) => false,
    }
}

/// Whether `r` answers the command for a server with record `stored`.
pub open spec fn export_answer(r: ExportReply, stored: Option<ServerDataView>) -> bool {
    if nothing_to_export(stored) {
        is_message(r, "No subscription."@)
    } else {
        is_export_of(r, stored_feeds(stored))
    }
}

/// Wraps the written document as the reply.
pub fn attach(content: String) -> (r: ExportReply)
    ensures
        r matches ExportReply::Attachment { content: c, file_name }
            && c@ == content@ && file_name@ == export_file_name(),
{
    ExportReply::Attachment { content, file_name: String::from_str("DiscoRSS_Export.OPML") }
}

/// Runs the command for a server whose feeds all have a host.
pub fn run(stored: Option<ServerData>) -> (r: ExportReply)
    requires
        exportable(stored_feeds(stored_view(stored))),
    ensures
        export_answer(r, stored_view(stored)),
{
    let feeds = match stored {
        Some(data) => match data.feeds_list {
            Some(l) => l,
            None => return ExportReply::Message(String::from_str("No subscription.")),
        },
        None => return ExportReply::Message(String::from_str("No subscription.")),
    };
    let ghost all = texts(feeds@);
    let mut doc = new_document();
    let mut i: usize = 0;
    while i < feeds.len()
        invariant
            i <= feeds.len(),
            all == texts(feeds@),
            exportable(all),
            opml_plain(doc),
            opml_outlines(doc) == export_outlines(all.take(i as int)),
        decreases feeds.len() - i,
    {
        let feed = &feeds[i];
        assert(all[i as int] == feed@);
        assert(has_host(url_parse(all[i as int])));
        let host = url_host(feed.as_str());
        let host = match host {
            Some(h) => h,
            None => String::new(),
        };
        add_feed(&mut doc, host.as_str(), feed.as_str());
        assert(export_outlines(all.take(i + 1)) =~= export_outlines(all.take(i as int)).push((feed_host(feed@), feed@)));
        i = i + 1;
    }
    assert(all.take(feeds.len() as int) =~= all);
    let content = render(&doc).unwrap();
    attach(content)
}

/// Runs the command, first checking that every feed has a host: `None`
/// where one does not.
pub fn run_checked(stored: Option<ServerData>) -> (r: Option<ExportReply>)
    ensures
        r is Some <==> exportable(stored_feeds(stored_view(stored))),
        r matches Some(reply) ==> export_answer(reply, stored_view(stored)),
{
    let ghost feeds_view = stored_feeds(stored_view(stored));
    match &stored {
        Some(data) => match &data.feeds_list {
            Some(l) => {
                let mut i: usize = 0;
                while i < l.len()
                    invariant
                        i <= l.len(),
                        feeds_view == texts(l@),
                        feeds_view == stored_feeds(stored_view(stored)),
                        exportable(feeds_view.take(i as int)),
                    decreases l.len() - i,
                {
                    if url_host(l[i].as_str()).is_none() {
                        assert(feeds_view[i as int] == l@[i as int]@);
                        assert(!has_host(url_parse(feeds_view[i as int])));
                        return None;
                    }
                    assert(feeds_view[i as int] == l@[i as int]@);
                    assert forall|j: int| 0 <= j < i + 1 implies has_host(#[trigger] url_parse(feeds_view.take(i + 1)[j])) by {
                        if j < i {
                            assert(feeds_view.take(i + 1)[j] == feeds_view.take(i as int)[j]);
                        }
                    }
                    i = i + 1;
                }
                assert(feeds_view.take(l.len() as int) =~= feeds_view);
            },
            None => {},
        },
        None => {},
    }
    Some(run(stored))
}

/// Whether a command description is that of `/export`.
pub open spec fn is_export_command(c: CommandSpec) -> bool {
    &&& command_shape(c, "export"@, "Export feeds list as an OPML file."@, 0)
}

/// The description of the command.
pub fn register() -> (c: CommandSpec)
    ensures
        is_export_command(c),
{
    CommandSpec::new("export").description("Export feeds list as an OPML file.")
}

} // verus!
