//! Checking that an entered address is a web URL, through the `url` crate.
use vstd::prelude::*;

verus! {

/// The parts of a parsed URL that the commands read.
pub struct UrlParts {
    pub scheme: String,
    pub host: Option<String>,
}

/// An optional string as an optional text.
pub open spec fn opt_text(s: Option<String>) -> Option<Seq<char>> {
    match s {
        Some(t) => Some(t@),
        None => None,
    }
}

/// What `url::Url::parse` makes of a text: `None` where it refuses it, else
/// the URL's scheme (`Url::scheme`) and host (`Url::host_str`).
pub uninterp spec fn url_parse(s: Seq<char>) -> Option<(Seq<char>, Option<Seq<char>>)>;

/// The schemes that feeds may be fetched with.
pub open spec fn is_web_scheme(scheme: Seq<char>) -> bool {
    scheme == "http"@ || scheme == "https"@
}

/// Parses a URL with `url::Url::parse` and reads its scheme and host.
/// Trusted: the result is `url_parse` of the text; a URL with the scheme
/// `http` or `https` has a host (the crate refuses an empty host for these
/// schemes).
#[verifier::external_body]
fn parse_url(s: &str) -> (r: Option<UrlParts>)
    ensures
        match r {
            Some(p) => url_parse(s@) == Some((p.scheme@, opt_text(p.host))),
            None => url_parse(s@) is None,
        },
        r matches Some(p) ==> (is_web_scheme(p.scheme@) ==> p.host is Some),
{
    match url::Url::parse(s) {
        Ok(u) => Some(UrlParts { scheme: u.scheme().to_string(), host: u.host_str().map(str::to_string) }),
        Err(_) => None,
    }
}

/// Why an entered address is refused as a feed URL.
#[derive(Debug, Clone, Copy, PartialEq, Eq)]
pub enum UrlProblem {
    /// The text does not parse as a URL.
    NotValid,
    /// The URL uses another scheme than `http` or `https`.
    NotWeb,
}

/// The refusal, if any, of an address parsed as `parsed`.
pub open spec fn url_problem(parsed: Option<(Seq<char>, Option<Seq<char>>)>) -> Option<UrlProblem> {
    match parsed {
        None => Some(UrlProblem::NotValid),
        Some(p) => if is_web_scheme(p.0) { None } else { Some(UrlProblem::NotWeb) },
    }
}

/// Whether an address is accepted as a feed URL.
pub open spec fn accepted_feed_url(url: Seq<char>) -> bool {
    url_problem(url_parse(url)) is None
}

/// The reply that goes with a refusal.
pub open spec fn problem_message(p: UrlProblem) -> Seq<char> {
    match p {
        UrlProblem::NotValid => "Entered URL is not valid."@,
        UrlProblem::NotWeb => "Entered URL must be using HTTP(S) protocol."@,
    }
}

/// Judges the result of parsing an address.
pub fn judge_parsed(parsed: &Option<UrlParts>) -> (r: Option<UrlProblem>)
    ensures
        r == url_problem(match parsed {
            Some(p) => Some((p.scheme@, opt_text(p.host))),
            None => None,
        }),
{
    match parsed {
        None => Some(UrlProblem::NotValid),
        Some(p) => {
            let http = String::from_str("http");
            let https = String::from_str("https");
            if p.scheme == http || p.scheme == https {
                None
            } else {
                Some(UrlProblem::NotWeb)
            }
        },
    }
}

/// Whether a parsed address has a host.
pub open spec fn has_host(parsed: Option<(Seq<char>, Option<Seq<char>>)>) -> bool {
    match parsed {
        Some(p) => p.1 is Some,
        None => false,
    }
}

/// Checks that an address is an `http` or `https` URL; such a URL has a
/// host.
pub fn check_feed_url(url: &str) -> (r: Option<UrlProblem>)
    ensures
        r == url_problem(url_parse(url@)),
        r is None ==> has_host(url_parse(url@)),
{
    let parsed = parse_url(url);
    judge_parsed(&parsed)
}

/// Reads the host of an address, where it parses and has one.
pub fn url_host(url: &str) -> (r: Option<String>)
    ensures
        match url_parse(url@) {
            Some(p) => opt_text(r) == p.1,
            None => r is None,
        },
{
    match parse_url(url) {
        Some(p) => p.host,
        None => None,
    }
}

/// The reply that goes with a refusal.
pub fn problem_text(p: UrlProblem) -> (s: String)
    ensures
        s@ == problem_message(p),
{
    match p {
        UrlProblem::NotValid => String::from_str("Entered URL is not valid."),
        UrlProblem::NotWeb => String::from_str("Entered URL must be using HTTP(S) protocol."),
    }
}

} // verus!
