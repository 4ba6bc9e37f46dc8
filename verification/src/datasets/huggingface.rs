//! Datasets of the Hugging Face hub.
use vstd::prelude::*;
use crate::error::{permanent, ErrorStatus, Failure};
use crate::json::{json_extract_string, lookup_text, Json};
use crate::listing::{
    items_listing_of, list_document, list_reply, listing_of, need_text, need_u64, require_text,
    require_u64, HttpReply, ItemSource, RateLimit,
};
use crate::path::{join_text, relative_text};
use crate::repo::{
    checksum_views, entries_result_is, Checksum, ChecksumView, DirMeta, DirMetaView, Endpoint,
    EndpointView, Entry, EntryView, FileMeta, FileMetaView, RepoError,
};
use crate::text::{
    concat, decimal, decimal_string, last_piece, last_piece_of, split, split_at_char, str_eq,
    views,
};
use crate::weburl::{opt_view, segments_fit, url_extend, url_with_segments};

verus! {

/// A dataset of the Hugging Face hub at one revision.
#[derive(Debug)]
pub struct HuggingFace {
    pub owner: String,
    pub repo: String,
    pub revision: String,
}

/// The URL that lists the root of the dataset's tree.
pub open spec fn hf_root_url(owner: Seq<char>, repo: Seq<char>, revision: Seq<char>) -> Option<
    Seq<char>,
> {
    let segments = seq![owner, repo, "tree"@, revision];
    if segments_fit("https://huggingface.co/api/datasets"@, segments) {
        url_with_segments("https://huggingface.co/api/datasets"@, segments)
    } else {
        None
    }
}

/// The URL from which the file at `path`, relative to the root of the
/// dataset, is downloaded.
pub open spec fn hf_download_url(
    owner: Seq<char>,
    repo: Seq<char>,
    revision: Seq<char>,
    path: Seq<char>,
) -> Option<Seq<char>> {
    let segments = seq![owner, repo, "resolve"@, revision] + split(path, '/');
    if segments_fit("https://huggingface.co/datasets"@, segments) {
        url_with_segments("https://huggingface.co/datasets"@, segments)
    } else {
        None
    }
}

/// The digest of a file: that of its large-file pointer where it has one,
/// else its own object id.
pub open spec fn hf_oid(item: Json) -> Option<Seq<char>> {
    match lookup_text(item, "lfs.oid"@) {
        Ok(t) => Some(t),
        Err(_) => match lookup_text(item, "oid"@) {
            Ok(t) => Some(t),
            Err(_) => None,
        },
    }
}

/// The listing URL of a directory with the given name: the root URL
/// extended by the name.
pub open spec fn hf_subdir_url(root_url: Seq<char>, name: Seq<char>) -> Option<Seq<char>> {
    if segments_fit(root_url, seq![name]) {
        url_with_segments(root_url, seq![name])
    } else {
        None
    }
}

/// The answer of the hub when it limits the rate of requests.
pub open spec fn hf_rate_limit() -> Failure {
    Failure { message: "Hugging Face API rate limit exceeded"@, status: ErrorStatus::Temporary }
}

impl HuggingFace {
    /// The dataset `owner`/`repo` at `revision`.
    #[must_use]
    pub fn new(owner: &str, repo: &str, revision: &str) -> (r: Self)
        ensures
            r.owner@ == owner@,
            r.repo@ == repo@,
            r.revision@ == revision@,
    {
        HuggingFace {
            owner: owner.to_owned(),
            repo: repo.to_owned(),
            revision: revision.to_owned(),
        }
    }

    /// The URL that lists the root of this dataset. `None` where the names
    /// are too long to stand in a URL.
    pub fn root_url(&self) -> (r: Option<String>)
        ensures
            opt_view(r) == hf_root_url(self.owner@, self.repo@, self.revision@),
    {
        let mut segments: Vec<String> = Vec::new();
        segments.push(self.owner.clone());
        segments.push(self.repo.clone());
        segments.push("tree".to_owned());
        segments.push(self.revision.clone());
        proof {
            assert(views(segments@) =~= seq![self.owner@, self.repo@, "tree"@, self.revision@]);
        }
        url_extend("https://huggingface.co/api/datasets", &segments)
    }

    /// The URL from which the file at `path`, relative to the root of the
    /// dataset, is downloaded.
    pub fn download_url(&self, path: &str) -> (r: Option<String>)
        ensures
            opt_view(r) == hf_download_url(self.owner@, self.repo@, self.revision@, path@),
    {
        let mut segments: Vec<String> = Vec::new();
        segments.push(self.owner.clone());
        segments.push(self.repo.clone());
        segments.push("resolve".to_owned());
        segments.push(self.revision.clone());
        let mut pieces = split_at_char(path, '/');
        let ghost head = segments@;
        let ghost tail = pieces@;
        segments.append(&mut pieces);
        proof {
            assert(views(head) =~= seq![self.owner@, self.repo@, "resolve"@, self.revision@]);
            assert(views(segments@) =~= views(head) + views(tail));
        }
        url_extend("https://huggingface.co/datasets", &segments)
    }

    /// The entries that a JSON document of the provider describes for
    /// `dir`: one for each item of the array that the document is.
    pub fn entries(&self, dir: &DirMeta, doc: &Json) -> (r: Result<Vec<Entry>, RepoError>)
        ensures
            entries_result_is(
                r,
                items_listing_of(
                    self,
                    dir@,
                    *doc,
                    ""@,
                    "Expected array from Hugging Face tree API"@,
                ),
            ),
    {
        list_document(self, dir, doc, "", "Expected array from Hugging Face tree API")
    }

    /// The listing of `dir` that a reply to the GET of its listing URL
    /// stands for.
    pub open spec fn listing(&self, dir: DirMetaView, status: Option<u16>, body: Seq<u8>) -> Result<
        Seq<EntryView>,
        Failure,
    > {
        listing_of(
            self,
            dir,
            status,
            body,
            Some(hf_rate_limit()),
            ""@,
            "Expected array from Hugging Face tree API"@,
        )
    }

    /// The entries of `dir` that the reply to a GET of its listing URL
    /// describes. A reply with status 403 means that the hub limits the
    /// rate of requests.
    pub fn list(&self, dir: &DirMeta, reply: &HttpReply) -> (r: Result<Vec<Entry>, RepoError>)
        ensures
            entries_result_is(r, self.listing(dir@, reply.status, reply.body@)),
    {
        let limit = RateLimit {
            message: "Hugging Face API rate limit exceeded",
            status: ErrorStatus::Temporary,
        };
        list_reply(self, dir, reply, Some(limit), "", "Expected array from Hugging Face tree API")
    }
}

/// The file that an item of type `file` describes; `name` is the last
/// segment of its path.
pub open spec fn hf_file(
    backend: &HuggingFace,
    dir: DirMetaView,
    item: Json,
    index: nat,
    name: Seq<char>,
) -> Result<EntryView, Failure> {
    match need_u64(item, "size"@, "Missing size from "@ + dir.api_url) {
        Err(f) => Err(f),
        Ok(size) => match hf_oid(item) {
            None => Err(permanent("Missing 'lfs.oid' from "@ + dir.api_url)),
            Some(oid) => {
                let path = join_text(dir.path, name);
                match hf_download_url(
                    backend.owner@,
                    backend.repo@,
                    backend.revision@,
                    relative_text(path),
                ) {
                    None => Err(
                        permanent(
                            "cannot make a download url for '"@ + relative_text(path) + "'"@,
                        ),
                    ),
                    Some(url) => Ok(
                        EntryView::File(
                            FileMetaView {
                                path,
                                endpoint: EndpointView {
                                    parent_url: dir.api_url,
                                    key: Some("filej."@ + decimal(index)),
                                },
                                download_url: url,
                                size: Some(size),
                                checksum: seq![ChecksumView::Sha256(oid)],
                                mime: None,
                            },
                        ),
                    ),
                }
            },
        },
    }
}

impl ItemSource for HuggingFace {
    open spec fn entry_of(&self, dir: DirMetaView, item: Json, index: nat) -> Result<
        EntryView,
        Failure,
    > {
        match need_text(item, "path"@, "Missing 'path'"@) {
            Err(f) => Err(f),
            Ok(path) => match need_text(item, "type"@, "Missing 'type'"@) {
                Err(f) => Err(f),
                Ok(kind) => {
                    let name = last_piece(path, '/');
                    if kind == "file"@ {
                        hf_file(self, dir, item, index, name)
                    } else if kind == "directory"@ {
                        match hf_subdir_url(dir.root_url, name) {
                            None => Err(
                                permanent(
                                    "cannot extend '"@ + dir.root_url + "' by '"@ + name + "'"@,
                                ),
                            ),
                            Some(api_url) => Ok(
                                EntryView::Dir(
                                    DirMetaView {
                                        path: join_text(dir.path, name),
                                        api_url,
                                        root_url: dir.root_url,
                                    },
                                ),
                            ),
                        }
                    } else {
                        Err(permanent("Unknown HF entry type: "@ + kind))
                    }
                },
            },
        }
    }

    fn entry(&self, dir: &DirMeta, item: &Json, index: usize) -> (r: Result<Entry, RepoError>) {
        let path = require_text(item, "path", "Missing 'path'")?;
        let kind = require_text(item, "type", "Missing 'type'")?;
        let name = last_piece_of(path.as_str(), '/');
        if str_eq(kind.as_str(), "file") {
            let message = concat("Missing size from ", dir.api_url.as_str());
            let size = require_u64(item, "size", message.as_str())?;
            let oid = match json_extract_string(item, "lfs.oid") {
                Ok(t) => t,
                Err(_) => match json_extract_string(item, "oid") {
                    Ok(t) => t,
                    Err(_) => {
                        return Err(
                            RepoError::permanent(
                                concat("Missing 'lfs.oid' from ", dir.api_url.as_str()),
                            ),
                        );
                    },
                },
            };
            let file_path = dir.join(name.as_str());
            let relative = file_path.relative();
            let url = match self.download_url(relative.as_str()) {
                Some(u) => u,
                None => {
                    let mut m = concat("cannot make a download url for '", relative.as_str());
                    m.append("'");
                    return Err(RepoError::permanent(m));
                },
            };
            let digits = decimal_string(index as u64);
            let endpoint = Endpoint {
                parent_url: dir.api_url.clone(),
                key: Some(concat("filej.", digits.as_str())),
            };
            let mut checksum: Vec<Checksum> = Vec::new();
            checksum.push(Checksum::Sha256(oid));
            proof {
                assert(checksum_views(checksum@) =~= seq![ChecksumView::Sha256(oid@)]);
            }
            Ok(Entry::File(FileMeta::new(file_path, endpoint, url, Some(size), checksum)))
        } else if str_eq(kind.as_str(), "directory") {
            let mut segments: Vec<String> = Vec::new();
            segments.push(name.clone());
            proof {
                assert(views(segments@) =~= seq![name@]);
            }
            match url_extend(dir.root_url.as_str(), &segments) {
                Some(api_url) => Ok(
                    Entry::Dir(
                        DirMeta::new(dir.join(name.as_str()), api_url, dir.root_url.clone()),
                    ),
                ),
                None => {
                    let mut m = concat("cannot extend '", dir.root_url.as_str());
                    m.append("' by '");
                    m.append(name.as_str());
                    m.append("'");
                    Err(RepoError::permanent(m))
                },
            }
        } else {
            Err(RepoError::permanent(concat("Unknown HF entry type: ", kind.as_str())))
        }
    }
}

} // verus!
