//! Trees of GitHub repositories.
use vstd::prelude::*;
use crate::error::{permanent, ErrorStatus, Failure};
use crate::json::{json_extract_u64, lookup_u64, Json};
use crate::listing::{
    items_listing_of, list_document, list_reply, listing_of, need_text, need_url, require_text,
    require_url, HttpReply, ItemSource, RateLimit,
};
use crate::path::{join_text, relative_text};
use crate::repo::{
    checksum_views, entries_result_is, Checksum, ChecksumView, DirMeta, DirMetaView, Endpoint,
    EndpointView, Entry, EntryView, FileMeta, FileMetaView, RepoError,
};
use crate::text::{concat, decimal, decimal_string, str_eq, views};
use crate::weburl::{opt_view, segments_fit, url_extend, url_with_segments};

verus! {

/// A repository of GitHub at one branch or commit.
#[derive(Debug)]
pub struct GitHub {
    pub owner: String,
    pub repo: String,
    pub branch_or_commit: String,
}

/// The URL that lists the root tree of the repository at `reference`.
pub open spec fn github_root_url(owner: Seq<char>, repo: Seq<char>, reference: Seq<char>) -> Option<
    Seq<char>,
> {
    let segments = seq![owner, repo, "git"@, "trees"@, reference];
    if segments_fit("https://api.github.com/repos"@, segments) {
        url_with_segments("https://api.github.com/repos"@, segments)
    } else {
        None
    }
}

/// The text of the URL from which the file at `path`, relative to the root
/// of the repository, is downloaded.
pub open spec fn github_raw_url(
    owner: Seq<char>,
    repo: Seq<char>,
    reference: Seq<char>,
    path: Seq<char>,
) -> Seq<char> {
    "https://raw.githubusercontent.com/"@ + owner + "/"@ + repo + "/"@ + reference + "/"@ + path
}

/// The answer of GitHub when it limits the rate of requests.
pub open spec fn github_rate_limit() -> Failure {
    permanent(
        "GitHub API rate limit excceded. You may need to provide a personal access token via the `GITHUB_TOKEN` environment variable"@,
    )
}

/// The size of a blob: what the item says, or zero where it says nothing
/// that is an unsigned integer.
pub open spec fn github_size(item: Json) -> u64 {
    match lookup_u64(item, "size"@) {
        Ok(n) => n,
        Err(_) => 0,
    }
}

impl GitHub {
    /// The repository `owner`/`repo` at the branch or commit given.
    #[must_use]
    pub fn new(owner: &str, repo: &str, branch_or_commit: &str) -> (r: Self)
        ensures
            r.owner@ == owner@,
            r.repo@ == repo@,
            r.branch_or_commit@ == branch_or_commit@,
    {
        GitHub {
            owner: owner.to_owned(),
            repo: repo.to_owned(),
            branch_or_commit: branch_or_commit.to_owned(),
        }
    }

    /// The URL that lists the root tree of this repository. `None` where
    /// the names are too long to stand in a URL.
    pub fn root_url(&self) -> (r: Option<String>)
        ensures
            opt_view(r) == github_root_url(self.owner@, self.repo@, self.branch_or_commit@),
    {
        let mut segments: Vec<String> = Vec::new();
        segments.push(self.owner.clone());
        segments.push(self.repo.clone());
        segments.push("git".to_owned());
        segments.push("trees".to_owned());
        segments.push(self.branch_or_commit.clone());
        proof {
            assert(views(segments@) =~= seq![
                self.owner@,
                self.repo@,
                "git"@,
                "trees"@,
                self.branch_or_commit@,
            ]);
        }
        url_extend("https://api.github.com/repos", &segments)
    }

    /// The text of the URL from which the file at `path`, relative to the
    /// root of the repository, is downloaded.
    pub fn raw_url(&self, path: &str) -> (r: String)
        ensures
            r@ == github_raw_url(self.owner@, self.repo@, self.branch_or_commit@, path@),
    {
        let mut s = concat("https://raw.githubusercontent.com/", self.owner.as_str());
        s.append("/");
        s.append(self.repo.as_str());
        s.append("/");
        s.append(self.branch_or_commit.as_str());
        s.append("/");
        s.append(path);
        s
    }

    /// The entries that a JSON document of the provider describes for
    /// `dir`: one for each item of `tree`, a file for a blob and a
    /// directory for a tree.
    pub fn entries(&self, dir: &DirMeta, doc: &Json) -> (r: Result<Vec<Entry>, RepoError>)
        ensures
            entries_result_is(
                r,
                items_listing_of(
                    self,
                    dir@,
                    *doc,
                    "tree"@,
                    "No 'tree' field in GitHub API response"@,
                ),
            ),
    {
        list_document(self, dir, doc, "tree", "No 'tree' field in GitHub API response")
    }

    /// The listing of `dir` that a reply to the GET of its listing URL
    /// stands for.
    pub open spec fn listing(&self, dir: DirMetaView, status: Option<u16>, body: Seq<u8>) -> Result<
        Seq<EntryView>,
        Failure,
    > {
        listing_of(
            self,
            dir,
            status,
            body,
            Some(github_rate_limit()),
            "tree"@,
            "No 'tree' field in GitHub API response"@,
        )
    }

    /// The entries of `dir` that the reply to a GET of its listing URL
    /// describes. A reply with status 403 means that GitHub limits the rate
    /// of requests, which no retry mends: a token is needed.
    pub fn list(&self, dir: &DirMeta, reply: &HttpReply) -> (r: Result<Vec<Entry>, RepoError>)
        ensures
            entries_result_is(r, self.listing(dir@, reply.status, reply.body@)),
    {
        let limit = RateLimit {
            message: "GitHub API rate limit excceded. You may need to provide a personal access token via the `GITHUB_TOKEN` environment variable",
            status: ErrorStatus::Permanent,
        };
        list_reply(self, dir, reply, Some(limit), "tree", "No 'tree' field in GitHub API response")
    }
}

impl ItemSource for GitHub {
    open spec fn entry_of(&self, dir: DirMetaView, item: Json, index: nat) -> Result<
        EntryView,
        Failure,
    > {
        match need_text(item, "path"@, "Missing 'path' in tree entry"@) {
            Err(f) => Err(f),
            Ok(name) => match need_text(item, "type"@, "Missing 'type' in tree entry"@) {
                Err(f) => Err(f),
                Ok(kind) => {
                    let path = join_text(dir.path, name);
                    if kind == "blob"@ {
                        let text = github_raw_url(
                            self.owner@,
                            self.repo@,
                            self.branch_or_commit@,
                            relative_text(path),
                        );
                        match need_url(text, "cannot parse '"@ + text + "' download url"@) {
                            Err(f) => Err(f),
                            Ok(url) => Ok(
                                EntryView::File(
                                    FileMetaView {
                                        path,
                                        endpoint: EndpointView {
                                            parent_url: dir.api_url,
                                            key: Some("tree."@ + decimal(index)),
                                        },
                                        download_url: url,
                                        size: Some(github_size(item)),
                                        checksum: Seq::<ChecksumView>::empty(),
                                        mime: None,
                                    },
                                ),
                            ),
                        }
                    } else if kind == "tree"@ {
                        match need_text(item, "url"@, "Missing 'url' in tree entry"@) {
                            Err(f) => Err(f),
                            Ok(link) => match need_url(
                                link,
                                "cannot parse '"@ + link + "' api url"@,
                            ) {
                                Err(f) => Err(f),
                                Ok(api_url) => Ok(
                                    EntryView::Dir(
                                        DirMetaView { path, api_url, root_url: dir.root_url },
                                    ),
                                ),
                            },
                        }
                    } else {
                        Err(permanent("Unknown tree type: "@ + kind))
                    }
                },
            },
        }
    }

    fn entry(&self, dir: &DirMeta, item: &Json, index: usize) -> (r: Result<Entry, RepoError>) {
        let name = require_text(item, "path", "Missing 'path' in tree entry")?;
        let kind = require_text(item, "type", "Missing 'type' in tree entry")?;
        let path = dir.join(name.as_str());
        if str_eq(kind.as_str(), "blob") {
            let size = match json_extract_u64(item, "size") {
                Ok(n) => n,
                Err(_) => 0,
            };
            let relative = path.relative();
            let text = self.raw_url(relative.as_str());
            let mut message = concat("cannot parse '", text.as_str());
            message.append("' download url");
            let url = require_url(text.as_str(), message)?;
            let digits = decimal_string(index as u64);
            let endpoint = Endpoint {
                parent_url: dir.api_url.clone(),
                key: Some(concat("tree.", digits.as_str())),
            };
            let checksum: Vec<Checksum> = Vec::new();
            proof {
                assert(checksum_views(checksum@) =~= Seq::<ChecksumView>::empty());
            }
            Ok(Entry::File(FileMeta::new(path, endpoint, url, Some(size), checksum)))
        } else if str_eq(kind.as_str(), "tree") {
            let link = require_text(item, "url", "Missing 'url' in tree entry")?;
            let mut message = concat("cannot parse '", link.as_str());
            message.append("' api url");
            let api_url = require_url(link.as_str(), message)?;
            Ok(Entry::Dir(DirMeta::new(path, api_url, dir.root_url.clone())))
        } else {
            Err(RepoError::permanent(concat("Unknown tree type: ", kind.as_str())))
        }
    }
}

} // verus!
