//! What all listings share: the reply of the provider, how its status is
//! judged, and how the items of a reply become entries.
use vstd::prelude::*;
use crate::error::{permanent, temporary, ErrorStatus, Failure};
use crate::json::{
    json_extract, json_extract_string, json_extract_u64, json_of_bytes, lookup, lookup_text,
    lookup_u64, parse_json, Json,
};
use crate::repo::{
    entries_result_is, entry_result_is, entry_views, DirMeta, DirMetaView, Entry, EntryView,
    RepoError,
};
use crate::text::{concat, decimal, decimal_string};
use crate::weburl::{normalize_url, url_href};

verus! {

/// What came back from one HTTP GET: the status code, or `None` where no
/// response came at all, and the bytes of the body.
#[derive(Debug)]
pub struct HttpReply {
    pub status: Option<u16>,
    pub body: Vec<u8>,
}

/// What a provider answers with status 403 when it limits the rate of
/// requests: the message to report, and whether waiting helps.
pub struct RateLimit<'a> {
    pub message: &'a str,
    pub status: ErrorStatus,
}

/// The failure that a status stands for, if it stands for one. No response
/// and a server error (5xx) may be retried; a client error (4xx) may not.
/// A status that is neither is no failure.
pub open spec fn status_failure(
    url: Seq<char>,
    status: Option<u16>,
    forbidden: Option<Failure>,
) -> Option<Failure> {
    match status {
        None => Some(temporary("fail at client sent GET "@ + url)),
        Some(code) => if code == 403 && forbidden is Some {
            forbidden
        } else if code == 404 {
            Some(permanent("resource not found when GET "@ + url))
        } else if 400 <= code < 500 {
            Some(permanent("fail GET "@ + url + ", with state code: "@ + decimal(code as nat)))
        } else if 500 <= code < 600 {
            Some(temporary("fail GET "@ + url + ", with state code: "@ + decimal(code as nat)))
        } else {
            None
        },
    }
}

/// The failure of a rate limit, as mathematics.
pub open spec fn rate_limit_failure(limit: Option<RateLimit>) -> Option<Failure> {
    match limit {
        Some(l) => Some(Failure { message: l.message@, status: l.status }),
        None => None,
    }
}

/// Judges the status of a reply to a GET of `url`.
pub fn check_status(url: &str, status: Option<u16>, limit: Option<RateLimit>) -> (r: Result<
    (),
    RepoError,
>)
    ensures
        match status_failure(url@, status, rate_limit_failure(limit)) {
            Some(f) => r matches Err(e) && e@ == f,
            None => r is Ok,
        },
{
    match status {
        None => Err(RepoError::temporary(concat("fail at client sent GET ", url))),
        Some(code) => {
            if code == 403 {
                if let Some(l) = limit {
                    return Err(RepoError { message: l.message.to_owned(), status: l.status });
                }
            }
            if code == 404 {
                Err(RepoError::permanent(concat("resource not found when GET ", url)))
            } else if 400 <= code && code < 600 {
                let mut m = concat("fail GET ", url);
                m.append(", with state code: ");
                let digits = decimal_string(code as u64);
                m.append(digits.as_str());
                if code < 500 {
                    Err(RepoError::permanent(m))
                } else {
                    Err(RepoError::temporary(m))
                }
            } else {
                Ok(())
            }
        },
    }
}

/// The JSON document of a reply to a GET of `url`: a failure where the
/// status stands for one, or where the body is no JSON.
pub open spec fn reply_json(
    url: Seq<char>,
    status: Option<u16>,
    body: Seq<u8>,
    forbidden: Option<Failure>,
) -> Result<Json, Failure> {
    match status_failure(url, status, forbidden) {
        Some(f) => Err(f),
        None => match json_of_bytes(body) {
            Some(j) => Ok(j),
            None => Err(permanent("fail GET "@ + url + ", unable to convert to json"@)),
        },
    }
}

/// Reads the JSON document of a reply to a GET of `url`.
pub fn read_reply(url: &str, reply: &HttpReply, limit: Option<RateLimit>) -> (r: Result<
    Json,
    RepoError,
>)
    ensures
        match reply_json(url@, reply.status, reply.body@, rate_limit_failure(limit)) {
            Ok(j) => r matches Ok(x) && x == j,
            Err(f) => r matches Err(e) && e@ == f,
        },
{
    match check_status(url, reply.status, limit) {
        Err(e) => Err(e),
        Ok(()) => match parse_json(reply.body.as_slice()) {
            Some(j) => Ok(j),
            None => {
                let mut m = concat("fail GET ", url);
                m.append(", unable to convert to json");
                Err(RepoError::permanent(m))
            },
        },
    }
}

/// The string at `path` in `item`, or the permanent failure with `message`.
pub open spec fn need_text(item: Json, path: Seq<char>, message: Seq<char>) -> Result<
    Seq<char>,
    Failure,
> {
    match lookup_text(item, path) {
        Ok(t) => Ok(t),
        Err(_) => Err(permanent(message)),
    }
}

/// The unsigned integer at `path` in `item`, or the permanent failure with
/// `message`.
pub open spec fn need_u64(item: Json, path: Seq<char>, message: Seq<char>) -> Result<u64, Failure> {
    match lookup_u64(item, path) {
        Ok(n) => Ok(n),
        Err(_) => Err(permanent(message)),
    }
}

/// The array at `path` in `doc`, or the permanent failure with `message`.
pub open spec fn need_array(doc: Json, path: Seq<char>, message: Seq<char>) -> Result<
    Seq<Json>,
    Failure,
> {
    match lookup(doc, path) {
        Ok(Json::Array(items)) => Ok(items@),
        _ => Err(permanent(message)),
    }
}

/// The URL that `text` denotes, or the permanent failure with `message`.
pub open spec fn need_url(text: Seq<char>, message: Seq<char>) -> Result<Seq<char>, Failure> {
    match url_href(text) {
        Some(u) => Ok(u),
        None => Err(permanent(message)),
    }
}

/// Reads the string at `path` in `item`.
pub fn require_text(item: &Json, path: &str, message: &str) -> (r: Result<String, RepoError>)
    ensures
        match need_text(*item, path@, message@) {
            Ok(t) => r matches Ok(s) && s@ == t,
            Err(f) => r matches Err(e) && e@ == f,
        },
{
    match json_extract_string(item, path) {
        Ok(s) => Ok(s),
        Err(_) => Err(RepoError::permanent(message.to_owned())),
    }
}

/// Reads the unsigned integer at `path` in `item`.
pub fn require_u64(item: &Json, path: &str, message: &str) -> (r: Result<u64, RepoError>)
    ensures
        match need_u64(*item, path@, message@) {
            Ok(n) => r matches Ok(x) && x == n,
            Err(f) => r matches Err(e) && e@ == f,
        },
{
    match json_extract_u64(item, path) {
        Ok(n) => Ok(n),
        Err(_) => Err(RepoError::permanent(message.to_owned())),
    }
}

/// Reads the array at `path` in `doc`.
pub fn require_array<'a>(doc: &'a Json, path: &str, message: &str) -> (r: Result<
    &'a Vec<Json>,
    RepoError,
>)
    ensures
        match need_array(*doc, path@, message@) {
            Ok(items) => r matches Ok(v) && v@ == items,
            Err(f) => r matches Err(e) && e@ == f,
        },
{
    match json_extract(doc, path) {
        Ok(found) => match found.as_array() {
            Some(items) => Ok(items),
            None => Err(RepoError::permanent(message.to_owned())),
        },
        Err(_) => Err(RepoError::permanent(message.to_owned())),
    }
}

/// Reads `text` as a URL.
pub fn require_url(text: &str, message: String) -> (r: Result<String, RepoError>)
    ensures
        match need_url(text@, message@) {
            Ok(u) => r matches Ok(s) && s@ == u,
            Err(f) => r matches Err(e) && e@ == f,
        },
{
    match normalize_url(text) {
        Some(u) => Ok(u),
        None => Err(RepoError::permanent(message)),
    }
}

/// A backend whose listing is an array of items, each of which becomes one
/// entry.
pub trait ItemSource {
    /// The entry that the item at `index` of the listing of `dir` stands
    /// for, or why it stands for none.
    spec fn entry_of(&self, dir: DirMetaView, item: Json, index: nat) -> Result<EntryView, Failure>;

    /// Turns one item of the listing of `dir` into an entry.
    fn entry(&self, dir: &DirMeta, item: &Json, index: usize) -> (r: Result<Entry, RepoError>)
        ensures
            entry_result_is(r, self.entry_of(dir@, *item, index as nat)),
    ;
}

/// The entries that the items stand for, in their order; the failure of the
/// first item that stands for none.
pub open spec fn entries_of<B: ItemSource>(b: &B, dir: DirMetaView, items: Seq<Json>) -> Result<
    Seq<EntryView>,
    Failure,
>
    decreases items.len(),
{
    if items.len() == 0 {
        Ok(Seq::<EntryView>::empty())
    } else {
        match entries_of(b, dir, items.drop_last()) {
            Err(f) => Err(f),
            Ok(before) => match b.entry_of(dir, items.last(), (items.len() - 1) as nat) {
                Ok(e) => Ok(before.push(e)),
                Err(f) => Err(f),
            },
        }
    }
}

/// Where the first items of a listing fail, the listing fails in the same
/// way.
pub proof fn lemma_entries_fail_early<B: ItemSource>(
    b: &B,
    dir: DirMetaView,
    items: Seq<Json>,
    n: int,
)
    requires
        0 <= n <= items.len(),
        entries_of(b, dir, items.take(n)) is Err,
    ensures
        entries_of(b, dir, items) == entries_of(b, dir, items.take(n)),
    decreases items.len(),
{
    if n < items.len() {
        assert(items.drop_last().take(n) =~= items.take(n));
        lemma_entries_fail_early(b, dir, items.drop_last(), n);
    } else {
        assert(items.take(n) =~= items);
    }
}

/// Turns the items of the listing of `dir` into entries, in their order,
/// and stops at the first that stands for none.
pub fn collect_entries<B: ItemSource>(b: &B, dir: &DirMeta, items: &Vec<Json>) -> (r: Result<
    Vec<Entry>,
    RepoError,
>)
    ensures
        entries_result_is(r, entries_of(b, dir@, items@)),
{
    let mut out: Vec<Entry> = Vec::new();
    let mut i: usize = 0;
    proof {
        assert(entry_views(out@) =~= Seq::<EntryView>::empty());
    }
    while i < items.len()
        invariant
            i <= items.len(),
            entries_of(b, dir@, items@.take(i as int)) == Ok::<Seq<EntryView>, Failure>(
                entry_views(out@),
            ),
        decreases items.len() - i,
    {
        proof {
            let now = items@.take(i + 1);
            assert(now.drop_last() =~= items@.take(i as int));
        }
        match b.entry(dir, &items[i], i) {
            Ok(e) => {
                let ghost before = out@;
                out.push(e);
                proof {
                    assert(entry_views(out@) =~= entry_views(before).push(e@));
                }
            },
            Err(e) => {
                proof {
                    lemma_entries_fail_early(b, dir@, items@, i + 1);
                }
                return Err(e);
            },
        }
        i += 1;
    }
    proof {
        assert(items@.take(items@.len() as int) =~= items@);
    }
    Ok(out)
}

/// The listing that a reply to the GET of the listing URL of `dir` stands
/// for, where the items are the array at `path` of the reply's JSON
/// document.
pub open spec fn listing_of<B: ItemSource>(
    b: &B,
    dir: DirMetaView,
    status: Option<u16>,
    body: Seq<u8>,
    forbidden: Option<Failure>,
    path: Seq<char>,
    message: Seq<char>,
) -> Result<Seq<EntryView>, Failure> {
    match reply_json(dir.api_url, status, body, forbidden) {
        Err(f) => Err(f),
        Ok(doc) => items_listing_of(b, dir, doc, path, message),
    }
}

/// The listing that a JSON document stands for, where the items are the
/// array at `path`.
pub open spec fn items_listing_of<B: ItemSource>(
    b: &B,
    dir: DirMetaView,
    doc: Json,
    path: Seq<char>,
    message: Seq<char>,
) -> Result<Seq<EntryView>, Failure> {
    match need_array(doc, path, message) {
        Err(f) => Err(f),
        Ok(items) => entries_of(b, dir, items),
    }
}

/// Turns the array at `path` of a JSON document into the entries of
/// `dir`.
pub fn list_document<B: ItemSource>(
    b: &B,
    dir: &DirMeta,
    doc: &Json,
    path: &str,
    message: &str,
) -> (r: Result<Vec<Entry>, RepoError>)
    ensures
        entries_result_is(r, items_listing_of(b, dir@, *doc, path@, message@)),
{
    match require_array(doc, path, message) {
        Err(e) => Err(e),
        Ok(items) => collect_entries(b, dir, items),
    }
}

/// Turns a reply to the GET of the listing URL of `dir` into the
/// entries of `dir`.
pub fn list_reply<B: ItemSource>(
    b: &B,
    dir: &DirMeta,
    reply: &HttpReply,
    limit: Option<RateLimit>,
    path: &str,
    message: &str,
) -> (r: Result<Vec<Entry>, RepoError>)
    ensures
        entries_result_is(
            r,
            listing_of(
                b,
                dir@,
                reply.status,
                reply.body@,
                rate_limit_failure(limit),
                path@,
                message@,
            ),
        ),
{
    match read_reply(dir.api_url.as_str(), reply, limit) {
        Err(e) => Err(e),
        Ok(doc) => list_document(b, dir, &doc, path, message),
    }
}

} // verus!
