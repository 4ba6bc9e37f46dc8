//! URLs as texts. Parsing, taking apart and building are the work of the
//! `url` crate; each of its answers has a name here, so that contracts can
//! speak of it.
use vstd::prelude::*;
use crate::text::{opt_text, views};

verus! {

/// The longest text, in characters, that is handed to the functions of the
/// `url` crate that change a URL. They keep positions in 32 bits.
pub const MAX_URL_TEXT: usize = 0x00ff_ffff;

/// The serialization of the URL that `Url::parse` makes of a text; `None`
/// where it refuses the text.
pub uninterp spec fn url_href(text: Seq<char>) -> Option<Seq<char>>;

/// What `Url::scheme` gives for the URL parsed from a text.
pub uninterp spec fn url_scheme(text: Seq<char>) -> Seq<char>;

/// What `Url::domain` gives for the URL parsed from a text.
pub uninterp spec fn url_domain(text: Seq<char>) -> Option<Seq<char>>;

/// What `Url::host_str` gives for the URL parsed from a text.
pub uninterp spec fn url_host(text: Seq<char>) -> Option<Seq<char>>;

/// What `Url::path_segments` gives, in order, for the URL parsed from a
/// text.
pub uninterp spec fn url_path_segments(text: Seq<char>) -> Option<Seq<Seq<char>>>;

/// What `Url::query_pairs` gives, in order and decoded, for the URL parsed
/// from a text.
pub uninterp spec fn url_query_pairs(text: Seq<char>) -> Seq<(Seq<char>, Seq<char>)>;

/// The serialization of what `Url::join` makes of a base and a reference.
pub uninterp spec fn url_joined(base: Seq<char>, reference: Seq<char>) -> Option<Seq<char>>;

/// The serialization of a base URL after `PathSegmentsMut::extend` has put
/// the segments behind its path.
pub uninterp spec fn url_with_segments(base: Seq<char>, segments: Seq<Seq<char>>) -> Option<
    Seq<char>,
>;

/// The serialization of a base URL after `Serializer::append_pair` has put
/// one more pair behind its query.
pub uninterp spec fn url_with_query_pair(
    base: Seq<char>,
    key: Seq<char>,
    value: Seq<char>,
) -> Option<Seq<char>>;

/// The view of an optional string.
pub open spec fn opt_view(s: Option<String>) -> Option<Seq<char>> {
    opt_text(s)
}

/// The views of a list of pairs of strings.
pub open spec fn pair_views(v: Seq<(String, String)>) -> Seq<(Seq<char>, Seq<char>)> {
    v.map_values(|p: (String, String)| (p.0@, p.1@))
}

/// The number of characters in all the texts together.
pub open spec fn total_len(texts: Seq<Seq<char>>) -> nat
    decreases texts.len(),
{
    if texts.len() == 0 {
        0
    } else {
        total_len(texts.drop_last()) + texts.last().len()
    }
}

/// `Url::parse`, then `Url::as_str`. The result is the URL as the crate
/// writes it, which may differ from the text given. Claimed: the answer
/// depends on the text alone.
#[verifier::external_body]
fn parse_href(text: &str) -> (r: Option<String>)
    ensures
        opt_view(r) == url_href(text@),
{
    match url::Url::parse(text) {
        Ok(u) => Some(u.as_str().to_owned()),
        Err(_) => None,
    }
}

/// `Url::scheme` of the URL that the text parses to. Claimed: an answer
/// comes exactly where the text parses, and depends on the text alone.
#[verifier::external_body]
fn parse_scheme(text: &str) -> (r: Option<String>)
    ensures
        r is Some <==> url_href(text@) is Some,
        r matches Some(s) ==> s@ == url_scheme(text@),
{
    match url::Url::parse(text) {
        Ok(u) => Some(u.scheme().to_owned()),
        Err(_) => None,
    }
}

/// `Url::domain` of the URL that the text parses to; the inner `None` is
/// the crate's: the host is no domain name. Claimed: as for the scheme.
#[verifier::external_body]
fn parse_domain(text: &str) -> (r: Option<Option<String>>)
    ensures
        r is Some <==> url_href(text@) is Some,
        r matches Some(d) ==> opt_view(d) == url_domain(text@),
{
    match url::Url::parse(text) {
        Ok(u) => Some(u.domain().map(|d| d.to_owned())),
        Err(_) => None,
    }
}

/// `Url::host_str` of the URL that the text parses to; the inner `None` is
/// the crate's: the URL has no host. Claimed: as for the scheme.
#[verifier::external_body]
fn parse_host(text: &str) -> (r: Option<Option<String>>)
    ensures
        r is Some <==> url_href(text@) is Some,
        r matches Some(h) ==> opt_view(h) == url_host(text@),
{
    match url::Url::parse(text) {
        Ok(u) => Some(u.host_str().map(|h| h.to_owned())),
        Err(_) => None,
    }
}

/// `Url::path_segments` of the URL that the text parses to, collected; the
/// inner `None` is the crate's: the URL cannot be a base. Claimed: as for
/// the scheme.
#[verifier::external_body]
fn parse_path_segments(text: &str) -> (r: Option<Option<Vec<String>>>)
    ensures
        r is Some <==> url_href(text@) is Some,
        r matches Some(p) ==> match p {
            Some(v) => url_path_segments(text@) == Some(views(v@)),
            None => url_path_segments(text@) is None,
        },
{
    match url::Url::parse(text) {
        Ok(u) => Some(u.path_segments().map(|p| p.map(|s| s.to_owned()).collect())),
        Err(_) => None,
    }
}

/// `Url::query_pairs` of the URL that the text parses to, collected in
/// order. Claimed: as for the scheme.
#[verifier::external_body]
fn parse_query_pairs(text: &str) -> (r: Option<Vec<(String, String)>>)
    ensures
        r is Some <==> url_href(text@) is Some,
        r matches Some(v) ==> pair_views(v@) == url_query_pairs(text@),
{
    match url::Url::parse(text) {
        Ok(u) => Some(u.query_pairs().map(|(k, v)| (k.into_owned(), v.into_owned())).collect()),
        Err(_) => None,
    }
}

/// `Url::join` on the URL that `base` parses to. `None` where `base` does
/// not parse or the crate refuses the reference. Claimed: the answer
/// depends on the two texts alone.
#[verifier::external_body]
fn join_href(base: &str, reference: &str) -> (r: Option<String>)
    ensures
        opt_view(r) == url_joined(base@, reference@),
{
    match url::Url::parse(base).and_then(|u| u.join(reference)) {
        Ok(u) => Some(u.as_str().to_owned()),
        Err(_) => None,
    }
}

/// `Url::path_segments_mut` and `PathSegmentsMut::extend` on the URL that
/// `base` parses to. `None` where `base` does not parse or cannot be a
/// base. The crate panics on a URL of four gigabytes, hence the bound.
/// Claimed: the answer depends on the texts alone.
#[verifier::external_body]
fn extend_href(base: &str, segments: &Vec<String>) -> (r: Option<String>)
    requires
        base@.len() + total_len(views(segments@)) + segments@.len() <= MAX_URL_TEXT,
    ensures
        opt_view(r) == url_with_segments(base@, views(segments@)),
{
    let mut u = url::Url::parse(base).ok()?;
    u.path_segments_mut().ok()?.extend(segments);
    Some(u.as_str().to_owned())
}

/// `Url::query_pairs_mut` and `Serializer::append_pair` on the URL that
/// `base` parses to. `None` where `base` does not parse. The crate panics
/// on a URL of four gigabytes, hence the bound. Claimed: the answer depends
/// on the texts alone.
#[verifier::external_body]
fn append_pair_href(base: &str, key: &str, value: &str) -> (r: Option<String>)
    requires
        base@.len() + key@.len() + value@.len() <= MAX_URL_TEXT,
    ensures
        opt_view(r) == url_with_query_pair(base@, key@, value@),
{
    let mut u = url::Url::parse(base).ok()?;
    u.query_pairs_mut().append_pair(key, value);
    Some(u.as_str().to_owned())
}

/// What is read from a URL to decide where it leads: the URL as the crate
/// writes it, its scheme, its host where that is a domain name, its host as
/// text, the segments of its path, and the pairs of its query.
#[derive(Debug)]
pub struct UrlParts {
    pub href: String,
    pub scheme: String,
    pub domain: Option<String>,
    pub host: Option<String>,
    pub segments: Option<Vec<String>>,
    pub query: Vec<(String, String)>,
}

/// The parts of a URL, as mathematics.
pub struct UrlPartsView {
    pub href: Seq<char>,
    pub scheme: Seq<char>,
    pub domain: Option<Seq<char>>,
    pub host: Option<Seq<char>>,
    pub segments: Option<Seq<Seq<char>>>,
    pub query: Seq<(Seq<char>, Seq<char>)>,
}

impl View for UrlParts {
    type V = UrlPartsView;

    open spec fn view(&self) -> UrlPartsView {
        UrlPartsView {
            href: self.href@,
            scheme: self.scheme@,
            domain: opt_view(self.domain),
            host: opt_view(self.host),
            segments: match self.segments {
                Some(v) => Some(views(v@)),
                None => None,
            },
            query: pair_views(self.query@),
        }
    }
}

/// The parts of the URL that a text parses to; `None` where it does not
/// parse.
pub open spec fn url_parts(text: Seq<char>) -> Option<UrlPartsView> {
    if url_href(text) is Some {
        Some(
            UrlPartsView {
                href: url_href(text)->0,
                scheme: url_scheme(text),
                domain: url_domain(text),
                host: url_host(text),
                segments: url_path_segments(text),
                query: url_query_pairs(text),
            },
        )
    } else {
        None
    }
}

/// The URL that a text denotes, as the `url` crate writes it.
pub fn normalize_url(text: &str) -> (r: Option<String>)
    ensures
        opt_view(r) == url_href(text@),
{
    parse_href(text)
}

/// Takes a URL apart.
pub fn split_url(text: &str) -> (r: Option<UrlParts>)
    ensures
        match url_parts(text@) {
            Some(p) => r matches Some(parts) && parts@ == p,
            None => r is None,
        },
{
    let href = match parse_href(text) {
        Some(s) => s,
        None => {
            return None;
        },
    };
    let scheme = match parse_scheme(text) {
        Some(s) => s,
        None => {
            return None;
        },
    };
    let domain = match parse_domain(text) {
        Some(d) => d,
        None => {
            return None;
        },
    };
    let host = match parse_host(text) {
        Some(h) => h,
        None => {
            return None;
        },
    };
    let segments = match parse_path_segments(text) {
        Some(p) => p,
        None => {
            return None;
        },
    };
    let query = match parse_query_pairs(text) {
        Some(q) => q,
        None => {
            return None;
        },
    };
    Some(UrlParts { href, scheme, domain, host, segments, query })
}

/// The number of characters in all the strings together, where that is at
/// most `limit`.
fn total_chars(texts: &Vec<String>, limit: usize) -> (r: Option<usize>)
    ensures
        match r {
            Some(n) => n == total_len(views(texts@)) && n <= limit,
            None => total_len(views(texts@)) > limit,
        },
{
    let mut sum: usize = 0;
    let mut i: usize = 0;
    while i < texts.len()
        invariant
            i <= texts.len(),
            sum == total_len(views(texts@).take(i as int)),
            sum <= limit,
        decreases texts.len() - i,
    {
        proof {
            let now = views(texts@).take(i + 1);
            assert(now.drop_last() =~= views(texts@).take(i as int));
        }
        let n = texts[i].as_str().unicode_len();
        if n > limit - sum {
            proof {
                lemma_total_len_grows(views(texts@), i + 1);
            }
            return None;
        }
        sum = sum + n;
        i += 1;
    }
    proof {
        assert(views(texts@).take(texts@.len() as int) =~= views(texts@));
    }
    Some(sum)
}

/// All the texts together are at least as long as the first few of them.
pub proof fn lemma_total_len_grows(texts: Seq<Seq<char>>, n: int)
    requires
        0 <= n <= texts.len(),
    ensures
        total_len(texts.take(n)) <= total_len(texts),
    decreases texts.len(),
{
    if n < texts.len() {
        assert(texts.drop_last().take(n) =~= texts.take(n));
        lemma_total_len_grows(texts.drop_last(), n);
    } else {
        assert(texts.take(n) =~= texts);
    }
}

/// Whether a base and segments are short enough to be put together.
pub open spec fn segments_fit(base: Seq<char>, segments: Seq<Seq<char>>) -> bool {
    base.len() + total_len(segments) + segments.len() <= MAX_URL_TEXT
}

/// `base` with the segments put behind its path, each as one segment: what
/// would end a segment is escaped, and `.` and `..` are left out. `None`
/// where the texts are too long together, `base` is no URL, or it cannot
/// carry a path.
pub fn url_extend(base: &str, segments: &Vec<String>) -> (r: Option<String>)
    ensures
        opt_view(r) == if segments_fit(base@, views(segments@)) {
            url_with_segments(base@, views(segments@))
        } else {
            None
        },
{
    let b = base.unicode_len();
    if b > MAX_URL_TEXT || segments.len() > MAX_URL_TEXT - b {
        return None;
    }
    let room: usize = MAX_URL_TEXT - b - segments.len();
    match total_chars(segments, room) {
        Some(_) => extend_href(base, segments),
        None => None,
    }
}

/// Whether a base and a reference are short enough to be joined.
pub open spec fn pair_fits(base: Seq<char>, key: Seq<char>, value: Seq<char>) -> bool {
    base.len() + key.len() + value.len() <= MAX_URL_TEXT
}

/// `base` with one more pair in its query. `None` where the texts are too
/// long together or `base` is no URL.
pub fn url_append_pair(base: &str, key: &str, value: &str) -> (r: Option<String>)
    ensures
        opt_view(r) == if pair_fits(base@, key@, value@) {
            url_with_query_pair(base@, key@, value@)
        } else {
            None
        },
{
    let b = base.unicode_len();
    let k = key.unicode_len();
    let v = value.unicode_len();
    if b > MAX_URL_TEXT || k > MAX_URL_TEXT - b || v > MAX_URL_TEXT - b - k {
        return None;
    }
    append_pair_href(base, key, value)
}

/// The URL that a reference denotes when it is read against `base`. `None`
/// where `base` is no URL or the reference cannot be resolved.
pub fn url_join(base: &str, reference: &str) -> (r: Option<String>)
    ensures
        opt_view(r) == url_joined(base@, reference@),
{
    join_href(base, reference)
}

} // verus!
