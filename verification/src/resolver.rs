//! From the URL that a person sees to the backend that can list the
//! dataset behind it.
use vstd::prelude::*;
use crate::dataset::{dataset_of, Backend, BackendView, Dataset, DatasetView};
use crate::datasets::arxiv::Arxiv;
use crate::datasets::dataone::Dataone;
use crate::datasets::dataverse::{DataverseDataset, DataverseFile};
use crate::datasets::dryad::DataDryad;
use crate::datasets::github::GitHub;
use crate::datasets::hal::HalScience;
use crate::datasets::huggingface::HuggingFace;
use crate::datasets::osf::OSF;
use crate::datasets::zenodo::Zenodo;
use crate::domains::{dataone_domain, dataverse_domain, is_dataone_domain, is_dataverse_domain};
use crate::error::{permanent, ErrorStatus, Failure};
use crate::json::{json_extract_string, json_of_bytes, lookup_text, parse_json};
use crate::listing::HttpReply;
use crate::text::{concat, has_prefix, has_suffix, slice_of, str_eq, views};
use crate::weburl::{
    normalize_url, pair_views, split_url, url_href, url_parts, UrlParts, UrlPartsView,
};

verus! {

/// A URL that leads to no dataset.
#[derive(Debug)]
pub struct DispatchError {
    pub message: String,
    pub status: ErrorStatus,
}

impl View for DispatchError {
    type V = Failure;

    open spec fn view(&self) -> Failure {
        Failure { message: self.message@, status: self.status }
    }
}

impl DispatchError {
    /// The error with this message; no retry mends it.
    pub fn new(message: String) -> (e: DispatchError)
        ensures
            e@ == permanent(message@),
    {
        DispatchError { message, status: ErrorStatus::Permanent }
    }

    /// The text of this error, as it is shown to a user.
    pub fn to_string(&self) -> (r: String)
        ensures
            r@ == self.message@,
    {
        self.message.clone()
    }
}

/// Where a URL leads: to a dataset, or to a repository of GitHub of which
/// the commit of the default branch has to be asked first.
#[derive(Debug)]
pub enum Resolution {
    Ready(Dataset),
    NeedsDefaultBranch { owner: String, repo: String },
}

/// A resolution, as mathematics.
pub enum ResolutionView {
    Ready(DatasetView),
    NeedsDefaultBranch { owner: Seq<char>, repo: Seq<char> },
}

impl View for Resolution {
    type V = ResolutionView;

    open spec fn view(&self) -> ResolutionView {
        match self {
            Resolution::Ready(d) => ResolutionView::Ready(d@),
            Resolution::NeedsDefaultBranch { owner, repo } => ResolutionView::NeedsDefaultBranch {
                owner: owner@,
                repo: repo@,
            },
        }
    }
}

/// Whether a result is the one that the mathematics asks for.
pub open spec fn resolves_to(
    r: Result<Resolution, DispatchError>,
    want: Result<ResolutionView, Failure>,
) -> bool {
    match want {
        Ok(v) => r matches Ok(x) && x@ == v,
        Err(f) => r matches Err(e) && e@ == f,
    }
}

/// The resolution that leads to the dataset of a backend.
pub open spec fn leads_to(backend: BackendView) -> ResolutionView {
    ResolutionView::Ready(dataset_of(backend))
}

/// The first of the segments that begins with `prefix`.
pub open spec fn first_with_prefix(segments: Seq<Seq<char>>, prefix: Seq<char>) -> Option<
    Seq<char>,
>
    decreases segments.len(),
{
    if segments.len() == 0 {
        None
    } else if prefix.is_prefix_of(segments[0]) {
        Some(segments[0])
    } else {
        first_with_prefix(segments.skip(1), prefix)
    }
}

/// The value of the last pair with the given key.
pub open spec fn query_value(pairs: Seq<(Seq<char>, Seq<char>)>, key: Seq<char>) -> Option<
    Seq<char>,
>
    decreases pairs.len(),
{
    if pairs.len() == 0 {
        None
    } else if pairs.last().0 == key {
        Some(pairs.last().1)
    } else {
        query_value(pairs.drop_last(), key)
    }
}

/// The scheme and host of a URL as a URL of its own.
pub open spec fn origin_text(scheme: Seq<char>, host: Seq<char>) -> Seq<char> {
    scheme + "://"@ + host
}

/// Where a URL at a member repository of DataONE leads: to the dataset
/// named by the first segment of the path that begins with `doi`.
pub open spec fn dataone_target(p: UrlPartsView, host: Seq<char>) -> Result<
    ResolutionView,
    Failure,
> {
    let origin = origin_text(p.scheme, host);
    match url_href(origin) {
        None => Err(permanent("'"@ + origin + "' is not valid url"@)),
        Some(base_url) => match p.segments {
            None => Err(permanent("'"@ + p.href + "' cannot be base"@)),
            Some(segments) => match first_with_prefix(segments, "doi"@) {
                None => Err(permanent("expect 'doi' in '"@ + p.href + "'"@)),
                Some(id) => Ok(leads_to(BackendView::Dataone { base_url, id })),
            },
        },
    }
}

/// Where a URL at a Dataverse installation leads: to a dataset where the
/// first segment of the path is `dataset.xhtml`, to a file where it is
/// `file.xhtml`; the query names the persistent id.
pub open spec fn dataverse_target(p: UrlPartsView, host: Seq<char>) -> Result<
    ResolutionView,
    Failure,
> {
    match p.segments {
        None => Err(permanent("'"@ + p.href + "' cannot be base"@)),
        Some(segments) => if segments.len() == 0 {
            Err(permanent("'"@ + p.href + "' no segments found"@))
        } else {
            match query_value(p.query, "persistentId"@) {
                None => Err(permanent("query don't contains 'persistentId'"@)),
                Some(id) => if !".xhtml"@.is_suffix_of(segments[0]) {
                    Err(permanent("segment not in format *.xhtml"@))
                } else {
                    let kind = segments[0].take(segments[0].len() - 6);
                    let origin = origin_text(p.scheme, host);
                    match url_href(origin) {
                        None => Err(permanent("'"@ + origin + "' is not valid url"@)),
                        Some(base_url) => if kind == "dataset"@ {
                            Ok(
                                leads_to(
                                    BackendView::DataverseDataset {
                                        id,
                                        base_url,
                                        version: ":latest-published"@,
                                    },
                                ),
                            )
                        } else if kind == "file"@ {
                            Ok(
                                leads_to(
                                    BackendView::DataverseFile {
                                        id,
                                        base_url,
                                        version: ":latest-published"@,
                                    },
                                ),
                            )
                        } else {
                            Err(
                                permanent(
                                    kind + " is not valid type, can only be 'dataset' or 'file'"@,
                                ),
                            )
                        },
                    }
                },
            }
        },
    }
}

/// Where a URL at the Hugging Face hub leads.
pub open spec fn huggingface_target(href: Seq<char>, segments: Seq<Seq<char>>) -> Result<
    ResolutionView,
    Failure,
> {
    if segments.len() < 1 {
        Err(permanent("missing repo kind in url '"@ + href + "'"@))
    } else if segments[0] != "datasets"@ {
        Err(permanent("unsupported Hugging Face repo kind '"@ + segments[0] + "'"@))
    } else if segments.len() < 2 {
        Err(permanent("missing owner in url '"@ + href + "'"@))
    } else if segments.len() < 3 {
        Err(permanent("missing repo name in url '"@ + href + "'"@))
    } else if segments.len() >= 4 && segments[3] == "tree"@ {
        if segments.len() < 5 {
            Err(permanent("missing revision in url '"@ + href + "'"@))
        } else {
            Ok(
                leads_to(
                    BackendView::HuggingFace {
                        owner: segments[1],
                        repo: segments[2],
                        revision: segments[4],
                    },
                ),
            )
        }
    } else {
        Ok(
            leads_to(
                BackendView::HuggingFace {
                    owner: segments[1],
                    repo: segments[2],
                    revision: "main"@,
                },
            ),
        )
    }
}

/// Where a URL at GitHub leads: to the repository at the reference that
/// the path names in its fourth segment, or, where it names none, to the
/// question for the default branch.
pub open spec fn github_target(href: Seq<char>, segments: Seq<Seq<char>>) -> Result<
    ResolutionView,
    Failure,
> {
    if segments.len() < 1 {
        Err(permanent("missing owner in url '"@ + href + "'"@))
    } else if segments.len() < 2 {
        Err(permanent("missing repo in url '"@ + href + "'"@))
    } else if segments.len() >= 4 {
        Ok(
            leads_to(
                BackendView::GitHub {
                    owner: segments[0],
                    repo: segments[1],
                    branch_or_commit: segments[3],
                },
            ),
        )
    } else {
        Ok(ResolutionView::NeedsDefaultBranch { owner: segments[0], repo: segments[1] })
    }
}

/// Where a URL at Dryad leads: its path is `dataset`, then the two halves
/// of the id.
pub open spec fn dryad_target(href: Seq<char>, segments: Seq<Seq<char>>) -> Result<
    ResolutionView,
    Failure,
> {
    if segments.len() >= 3 && segments[0] == "dataset"@ {
        match url_href("https://datadryad.org/"@) {
            None => Err(permanent("invalid base url"@)),
            Some(base_url) => Ok(
                leads_to(
                    BackendView::DataDryad { id: segments[1] + "/"@ + segments[2], base_url },
                ),
            ),
        }
    } else {
        Err(permanent("unable to parse dryad dataset id from '"@ + href + "'"@))
    }
}

/// Where a URL at one of the hosts that are known by name leads.
pub open spec fn host_target(p: UrlPartsView, domain: Seq<char>) -> Result<
    ResolutionView,
    Failure,
> {
    if domain == "arxiv.org"@ || domain == "hal.science"@ || domain == "huggingface.co"@ || domain
        == "zenodo.org"@ || domain == "github.com"@ || domain == "datadryad.org"@ || domain
        == "osf.io"@ {
        match p.segments {
            None => Err(permanent("cannot get path segments of url '"@ + p.href + "'"@)),
            Some(segments) => if domain == "arxiv.org"@ {
                if segments.len() >= 2 {
                    Ok(leads_to(BackendView::Arxiv { id: segments[1] }))
                } else {
                    Err(permanent("connot get record id from '"@ + p.href + "'"@))
                }
            } else if domain == "hal.science"@ {
                if segments.len() >= 1 {
                    Ok(leads_to(BackendView::HalScience { id: segments[0] }))
                } else {
                    Err(permanent("connot get record id from '"@ + p.href + "'"@))
                }
            } else if domain == "huggingface.co"@ {
                huggingface_target(p.href, segments)
            } else if domain == "zenodo.org"@ {
                if segments.len() >= 2 {
                    Ok(leads_to(BackendView::Zenodo { id: segments[1] }))
                } else {
                    Err(permanent("unable to parse zenodo record id from '"@ + p.href + "'"@))
                }
            } else if domain == "github.com"@ {
                github_target(p.href, segments)
            } else if domain == "datadryad.org"@ {
                dryad_target(p.href, segments)
            } else {
                if segments.len() >= 1 {
                    Ok(leads_to(BackendView::OSF { id: segments[0] }))
                } else {
                    Err(permanent("no segments path in url '"@ + p.href + "'"@))
                }
            },
        }
    } else {
        Err(permanent("unknown domain: "@ + domain))
    }
}

/// Where the parts of a URL lead. The host decides: a member of DataONE, a
/// Dataverse installation, one of the hosts known by name, or an unknown
/// domain.
pub open spec fn target(p: UrlPartsView) -> Result<ResolutionView, Failure> {
    match p.domain {
        None => Err(permanent("domain unresolved"@)),
        Some(domain) => match p.host {
            None => Err(permanent("host_str unresolved from '"@ + p.href + "'"@)),
            Some(host) => if dataone_domain(domain) {
                dataone_target(p, host)
            } else if dataverse_domain(domain) {
                dataverse_target(p, host)
            } else {
                host_target(p, domain)
            },
        },
    }
}

/// Where a URL leads.
pub open spec fn resolution(url: Seq<char>) -> Result<ResolutionView, Failure> {
    match url_parts(url) {
        None => Err(permanent("'"@ + url + "' not a valid url"@)),
        Some(p) => target(p),
    }
}

fn quoted(before: &str, middle: &str, after: &str) -> (e: DispatchError)
    ensures
        e@ == permanent(before@ + middle@ + after@),
{
    let mut m = concat(before, middle);
    m.append(after);
    DispatchError::new(m)
}

fn ready(backend: Backend) -> (r: Result<Resolution, DispatchError>)
    ensures
        resolves_to(r, Ok(leads_to(backend@))),
{
    Ok(Resolution::Ready(Dataset::new(backend)))
}

fn find_with_prefix<'a>(segments: &'a Vec<String>, prefix: &str) -> (r: Option<&'a String>)
    ensures
        match first_with_prefix(views(segments@), prefix@) {
            Some(s) => r matches Some(x) && x@ == s,
            None => r is None,
        },
{
    let ghost all = views(segments@);
    let mut i: usize = 0;
    proof {
        assert(all.skip(0) =~= all);
    }
    while i < segments.len()
        invariant
            i <= segments.len(),
            all == views(segments@),
            first_with_prefix(all, prefix@) == first_with_prefix(all.skip(i as int), prefix@),
        decreases segments.len() - i,
    {
        proof {
            assert(all.skip(i as int).skip(1) =~= all.skip(i + 1));
        }
        if has_prefix(segments[i].as_str(), prefix) {
            return Some(&segments[i]);
        }
        i += 1;
    }
    None
}

fn find_query<'a>(pairs: &'a Vec<(String, String)>, key: &str) -> (r: Option<&'a String>)
    ensures
        match query_value(pair_views(pairs@), key@) {
            Some(v) => r matches Some(x) && x@ == v,
            None => r is None,
        },
{
    let ghost all = pair_views(pairs@);
    let mut i: usize = pairs.len();
    proof {
        assert(all.take(i as int) =~= all);
    }
    while i > 0
        invariant
            i <= pairs.len(),
            all == pair_views(pairs@),
            query_value(all, key@) == query_value(all.take(i as int), key@),
        decreases i,
    {
        proof {
            assert(all.take(i as int).drop_last() =~= all.take(i - 1));
        }
        if str_eq(pairs[i - 1].0.as_str(), key) {
            return Some(&pairs[i - 1].1);
        }
        i -= 1;
    }
    None
}

fn origin_of(scheme: &str, host: &str) -> (r: String)
    ensures
        r@ == origin_text(scheme@, host@),
{
    let mut s = concat(scheme, "://");
    s.append(host);
    s
}

fn resolve_dataone(parts: &UrlParts, host: &str) -> (r: Result<Resolution, DispatchError>)
    ensures
        resolves_to(r, dataone_target(parts@, host@)),
{
    let origin = origin_of(parts.scheme.as_str(), host);
    let base_url = match normalize_url(origin.as_str()) {
        Some(u) => u,
        None => {
            return Err(quoted("'", origin.as_str(), "' is not valid url"));
        },
    };
    let segments = match &parts.segments {
        Some(s) => s,
        None => {
            return Err(quoted("'", parts.href.as_str(), "' cannot be base"));
        },
    };
    match find_with_prefix(segments, "doi") {
        Some(id) => ready(Backend::Dataone(Dataone::new(base_url.as_str(), id.as_str()))),
        None => Err(quoted("expect 'doi' in '", parts.href.as_str(), "'")),
    }
}

fn resolve_dataverse(parts: &UrlParts, host: &str) -> (r: Result<Resolution, DispatchError>)
    ensures
        resolves_to(r, dataverse_target(parts@, host@)),
{
    let segments = match &parts.segments {
        Some(s) => s,
        None => {
            return Err(quoted("'", parts.href.as_str(), "' cannot be base"));
        },
    };
    if segments.len() == 0 {
        return Err(quoted("'", parts.href.as_str(), "' no segments found"));
    }
    let id = match find_query(&parts.query, "persistentId") {
        Some(v) => v,
        None => {
            return Err(DispatchError::new("query don't contains 'persistentId'".to_owned()));
        },
    };
    let first = segments[0].as_str();
    if !has_suffix(first, ".xhtml") {
        return Err(DispatchError::new("segment not in format *.xhtml".to_owned()));
    }
    proof {
        reveal_strlit(".xhtml");
    }
    let n = first.unicode_len();
    let kind = slice_of(first, 0, n - 6);
    let origin = origin_of(parts.scheme.as_str(), host);
    let base_url = match normalize_url(origin.as_str()) {
        Some(u) => u,
        None => {
            return Err(quoted("'", origin.as_str(), "' is not valid url"));
        },
    };
    if str_eq(kind.as_str(), "dataset") {
        ready(
            Backend::DataverseDataset(
                DataverseDataset::new(id.as_str(), base_url.as_str(), ":latest-published"),
            ),
        )
    } else if str_eq(kind.as_str(), "file") {
        ready(
            Backend::DataverseFile(
                DataverseFile::new(id.as_str(), base_url.as_str(), ":latest-published"),
            ),
        )
    } else {
        Err(
            DispatchError::new(
                concat(kind.as_str(), " is not valid type, can only be 'dataset' or 'file'"),
            ),
        )
    }
}

fn resolve_huggingface(href: &str, segments: &Vec<String>) -> (r: Result<
    Resolution,
    DispatchError,
>)
    ensures
        resolves_to(r, huggingface_target(href@, views(segments@))),
{
    if segments.len() < 1 {
        return Err(quoted("missing repo kind in url '", href, "'"));
    }
    if !str_eq(segments[0].as_str(), "datasets") {
        return Err(quoted("unsupported Hugging Face repo kind '", segments[0].as_str(), "'"));
    }
    if segments.len() < 2 {
        return Err(quoted("missing owner in url '", href, "'"));
    }
    if segments.len() < 3 {
        return Err(quoted("missing repo name in url '", href, "'"));
    }
    if segments.len() >= 4 && str_eq(segments[3].as_str(), "tree") {
        if segments.len() < 5 {
            return Err(quoted("missing revision in url '", href, "'"));
        }
        ready(
            Backend::HuggingFace(
                HuggingFace::new(
                    segments[1].as_str(),
                    segments[2].as_str(),
                    segments[4].as_str(),
                ),
            ),
        )
    } else {
        ready(
            Backend::HuggingFace(
                HuggingFace::new(segments[1].as_str(), segments[2].as_str(), "main"),
            ),
        )
    }
}

fn resolve_github(href: &str, segments: &Vec<String>) -> (r: Result<Resolution, DispatchError>)
    ensures
        resolves_to(r, github_target(href@, views(segments@))),
{
    if segments.len() < 1 {
        return Err(quoted("missing owner in url '", href, "'"));
    }
    if segments.len() < 2 {
        return Err(quoted("missing repo in url '", href, "'"));
    }
    if segments.len() >= 4 {
        ready(
            Backend::GitHub(
                GitHub::new(segments[0].as_str(), segments[1].as_str(), segments[3].as_str()),
            ),
        )
    } else {
        Ok(
            Resolution::NeedsDefaultBranch {
                owner: segments[0].clone(),
                repo: segments[1].clone(),
            },
        )
    }
}

fn resolve_dryad(href: &str, segments: &Vec<String>) -> (r: Result<Resolution, DispatchError>)
    ensures
        resolves_to(r, dryad_target(href@, views(segments@))),
{
    if segments.len() >= 3 && str_eq(segments[0].as_str(), "dataset") {
        let mut id = concat(segments[1].as_str(), "/");
        id.append(segments[2].as_str());
        match normalize_url("https://datadryad.org/") {
            Some(base_url) => ready(
                Backend::DataDryad(DataDryad::new(id.as_str(), base_url.as_str())),
            ),
            None => Err(DispatchError::new("invalid base url".to_owned())),
        }
    } else {
        Err(quoted("unable to parse dryad dataset id from '", href, "'"))
    }
}

fn resolve_host(parts: &UrlParts, domain: &str) -> (r: Result<Resolution, DispatchError>)
    ensures
        resolves_to(r, host_target(parts@, domain@)),
{
    let arxiv = str_eq(domain, "arxiv.org");
    let hal = str_eq(domain, "hal.science");
    let huggingface = str_eq(domain, "huggingface.co");
    let zenodo = str_eq(domain, "zenodo.org");
    let github = str_eq(domain, "github.com");
    let dryad = str_eq(domain, "datadryad.org");
    let osf = str_eq(domain, "osf.io");
    if !(arxiv || hal || huggingface || zenodo || github || dryad || osf) {
        return Err(DispatchError::new(concat("unknown domain: ", domain)));
    }
    let href = parts.href.as_str();
    let segments = match &parts.segments {
        Some(s) => s,
        None => {
            return Err(quoted("cannot get path segments of url '", href, "'"));
        },
    };
    if arxiv {
        if segments.len() >= 2 {
            ready(Backend::Arxiv(Arxiv::new(segments[1].as_str())))
        } else {
            Err(quoted("connot get record id from '", href, "'"))
        }
    } else if hal {
        if segments.len() >= 1 {
            ready(Backend::HalScience(HalScience::new(segments[0].as_str())))
        } else {
            Err(quoted("connot get record id from '", href, "'"))
        }
    } else if huggingface {
        resolve_huggingface(href, segments)
    } else if zenodo {
        if segments.len() >= 2 {
            ready(Backend::Zenodo(Zenodo::new(segments[1].as_str())))
        } else {
            Err(quoted("unable to parse zenodo record id from '", href, "'"))
        }
    } else if github {
        resolve_github(href, segments)
    } else if dryad {
        resolve_dryad(href, segments)
    } else {
        if segments.len() >= 1 {
            ready(Backend::OSF(OSF::new(segments[0].as_str())))
        } else {
            Err(quoted("no segments path in url '", href, "'"))
        }
    }
}

/// Decides where the parts of a URL lead.
pub fn dispatch(parts: &UrlParts) -> (r: Result<Resolution, DispatchError>)
    ensures
        resolves_to(r, target(parts@)),
{
    let domain = match &parts.domain {
        Some(d) => d,
        None => {
            return Err(DispatchError::new("domain unresolved".to_owned()));
        },
    };
    let host = match &parts.host {
        Some(h) => h,
        None => {
            return Err(quoted("host_str unresolved from '", parts.href.as_str(), "'"));
        },
    };
    if is_dataone_domain(domain.as_str()) {
        resolve_dataone(parts, host.as_str())
    } else if is_dataverse_domain(domain.as_str()) {
        resolve_dataverse(parts, host.as_str())
    } else {
        resolve_host(parts, domain.as_str())
    }
}

/// Resolves the URL of a dataset, as a person sees it in a browser, to the
/// backend that lists the dataset. No request is made: where a repository
/// of GitHub is named without a branch or commit, the answer says that the
/// default branch has to be asked for.
pub fn resolve(url: &str) -> (r: Result<Resolution, DispatchError>)
    ensures
        resolves_to(r, resolution(url@)),
{
    match split_url(url) {
        Some(parts) => dispatch(&parts),
        None => Err(quoted("'", url, "' not a valid url")),
    }
}

/// The URL that describes a repository of GitHub.
pub open spec fn github_repo_text(owner: Seq<char>, repo: Seq<char>) -> Seq<char> {
    "https://api.github.com/repos/"@ + owner + "/"@ + repo
}

/// The URL that describes the newest commit of a branch.
pub open spec fn github_commit_text(owner: Seq<char>, repo: Seq<char>, branch: Seq<char>) -> Seq<
    char,
> {
    github_repo_text(owner, repo) + "/commits/"@ + branch
}

/// The string at `path` in the JSON document of a reply; nothing where the
/// request failed, the status is an error, the body is no JSON, or the
/// document holds no string there.
pub open spec fn reply_member(status: Option<u16>, body: Seq<u8>, path: Seq<char>) -> Option<
    Seq<char>,
> {
    match status {
        None => None,
        Some(code) => if 400 <= code < 600 {
            None
        } else {
            match json_of_bytes(body) {
                None => None,
                Some(doc) => match lookup_text(doc, path) {
                    Ok(t) => Some(t),
                    Err(_) => None,
                },
            }
        },
    }
}

/// The URL to get in order to learn the default branch of a repository.
pub fn github_repo_url(owner: &str, repo: &str) -> (r: String)
    ensures
        r@ == github_repo_text(owner@, repo@),
{
    let mut s = concat("https://api.github.com/repos/", owner);
    s.append("/");
    s.append(repo);
    s
}

/// The URL to get in order to learn the newest commit of a branch.
pub fn github_commit_url(owner: &str, repo: &str, branch: &str) -> (r: String)
    ensures
        r@ == github_commit_text(owner@, repo@, branch@),
{
    let mut s = github_repo_url(owner, repo);
    s.append("/commits/");
    s.append(branch);
    s
}

fn member_of_reply(reply: &HttpReply, path: &str) -> (r: Result<String, DispatchError>)
    ensures
        match reply_member(reply.status, reply.body@, path@) {
            Some(t) => r matches Ok(s) && s@ == t,
            None => r matches Err(e) && e@ == permanent("not able to get default branch"@),
        },
{
    let failed = match reply.status {
        None => true,
        Some(code) => 400 <= code && code < 600,
    };
    if !failed {
        if let Some(doc) = parse_json(reply.body.as_slice()) {
            if let Ok(t) = json_extract_string(&doc, path) {
                return Ok(t);
            }
        }
    }
    Err(DispatchError::new("not able to get default branch".to_owned()))
}

/// The default branch that the reply to a GET of the repository's URL
/// names in `default_branch`.
pub fn github_default_branch(reply: &HttpReply) -> (r: Result<String, DispatchError>)
    ensures
        match reply_member(reply.status, reply.body@, "default_branch"@) {
            Some(t) => r matches Ok(s) && s@ == t,
            None => r matches Err(e) && e@ == permanent("not able to get default branch"@),
        },
{
    member_of_reply(reply, "default_branch")
}

/// The commit that the reply to a GET of the branch's commit URL names in
/// `sha`.
pub fn github_commit_sha(reply: &HttpReply) -> (r: Result<String, DispatchError>)
    ensures
        match reply_member(reply.status, reply.body@, "sha"@) {
            Some(t) => r matches Ok(s) && s@ == t,
            None => r matches Err(e) && e@ == permanent("not able to get default branch"@),
        },
{
    member_of_reply(reply, "sha")
}

/// The dataset of a repository of GitHub at a commit.
pub fn github_at_commit(owner: &str, repo: &str, commit: &str) -> (r: Dataset)
    ensures
        r@ == dataset_of(
            BackendView::GitHub { owner: owner@, repo: repo@, branch_or_commit: commit@ },
        ),
{
    Dataset::new(Backend::GitHub(GitHub::new(owner, repo, commit)))
}

} // verus!
