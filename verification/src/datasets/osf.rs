//! The Open Science Framework.
use vstd::prelude::*;
use crate::error::{permanent, Failure};
use crate::json::Json;
use crate::listing::{
    list_document, list_reply, listing_of, items_listing_of, need_text, need_u64, need_url,
    require_text, require_u64, require_url, HttpReply, ItemSource,
};
use crate::path::join_text;
use crate::repo::{
    checksum_views, entries_result_is, Checksum, ChecksumView, DirMeta, DirMetaView, Endpoint,
    EndpointView, Entry, EntryView, FileMeta, FileMetaView, RepoError,
};
use crate::text::{concat, decimal, decimal_string, str_eq, views};
use crate::weburl::{opt_view, segments_fit, url_extend, url_with_segments};

verus! {

/// A node of the Open Science Framework.
#[derive(Debug)]
pub struct OSF {
    pub id: String,
}

/// The URL that lists the files of the node `id`.
pub open spec fn osf_root_url(id: Seq<char>) -> Option<Seq<char>> {
    let segments = seq![id, "files"@];
    if segments_fit("https://api.osf.io/v2/nodes"@, segments) {
        url_with_segments("https://api.osf.io/v2/nodes"@, segments)
    } else {
        None
    }
}

impl OSF {
    /// The node with this id.
    #[must_use]
    pub fn new(id: &str) -> (r: Self)
        ensures
            r.id@ == id@,
    {
        OSF { id: id.to_owned() }
    }

    /// The URL that lists the files at the root of this node. `None` where
    /// the id is too long to stand in a URL.
    pub fn root_url(&self) -> (r: Option<String>)
        ensures
            opt_view(r) == osf_root_url(self.id@),
    {
        let mut segments: Vec<String> = Vec::new();
        segments.push(self.id.clone());
        segments.push("files".to_owned());
        proof {
            assert(views(segments@) =~= seq![self.id@, "files"@]);
        }
        url_extend("https://api.osf.io/v2/nodes", &segments)
    }

    /// The entries that a JSON document of the provider describes for
    /// `dir`: one for each item of `data`, a file for the kind `file`, a
    /// directory for the kind `folder`.
    pub fn entries(&self, dir: &DirMeta, doc: &Json) -> (r: Result<Vec<Entry>, RepoError>)
        ensures
            entries_result_is(
                r,
                items_listing_of(
                    self,
                    dir@,
                    *doc,
                    "data"@,
                    "field with key 'data' not resolve to an json array"@,
                ),
            ),
    {
        list_document(self, dir, doc, "data", "field with key 'data' not resolve to an json array")
    }

    /// The listing of `dir` that a reply to the GET of its listing URL
    /// stands for.
    pub open spec fn listing(&self, dir: DirMetaView, status: Option<u16>, body: Seq<u8>) -> Result<
        Seq<EntryView>,
        Failure,
    > {
        listing_of(
            self,
            dir,
            status,
            body,
            None,
            "data"@,
            "field with key 'data' not resolve to an json array"@,
        )
    }

    /// The entries of `dir` that the reply to a GET of its listing URL
    /// describes.
    pub fn list(&self, dir: &DirMeta, reply: &HttpReply) -> (r: Result<Vec<Entry>, RepoError>)
        ensures
            entries_result_is(r, self.listing(dir@, reply.status, reply.body@)),
    {
        list_reply(
            self,
            dir,
            reply,
            None,
            "data",
            "field with key 'data' not resolve to an json array",
        )
    }
}

/// The file that an item of kind `file` describes.
pub open spec fn osf_file(dir: DirMetaView, item: Json, index: nat, name: Seq<char>) -> Result<
    EntryView,
    Failure,
> {
    match need_u64(
        item,
        "attributes.size"@,
        "fail to extracting 'attributes.size' as u64 from json"@,
    ) {
        Err(f) => Err(f),
        Ok(size) => match need_text(
            item,
            "links.download"@,
            "fail to extracting 'links.download' as String from json"@,
        ) {
            Err(f) => Err(f),
            Ok(link) => match need_url(link, "cannot parse '"@ + link + "' download url"@) {
                Err(f) => Err(f),
                Ok(url) => match need_text(
                    item,
                    "attributes.extra.hashes.sha256"@,
                    "fail to extracting 'attributes.extra.hashes.sha256' as String from json"@,
                ) {
                    Err(f) => Err(f),
                    Ok(hash) => Ok(
                        EntryView::File(
                            FileMetaView {
                                path: join_text(dir.path, name),
                                endpoint: EndpointView {
                                    parent_url: dir.api_url,
                                    key: Some("data."@ + decimal(index)),
                                },
                                download_url: url,
                                size: Some(size),
                                checksum: seq![ChecksumView::Sha256(hash)],
                                mime: None,
                            },
                        ),
                    ),
                },
            },
        },
    }
}

/// The directory that an item of kind `folder` describes.
pub open spec fn osf_folder(dir: DirMetaView, item: Json, name: Seq<char>) -> Result<
    EntryView,
    Failure,
> {
    match need_text(
        item,
        "relationships.files.links.related.href"@,
        "fail to extracting 'relationships.files.links.related.href' as String from json"@,
    ) {
        Err(f) => Err(f),
        Ok(link) => match need_url(link, "cannot parse '"@ + link + "' api url"@) {
            Err(f) => Err(f),
            Ok(url) => Ok(
                EntryView::Dir(
                    DirMetaView {
                        path: join_text(dir.path, name),
                        api_url: url,
                        root_url: dir.root_url,
                    },
                ),
            ),
        },
    }
}

impl ItemSource for OSF {
    open spec fn entry_of(&self, dir: DirMetaView, item: Json, index: nat) -> Result<
        EntryView,
        Failure,
    > {
        match need_text(
            item,
            "attributes.name"@,
            "fail to extracting 'attributes.name' as String from json"@,
        ) {
            Err(f) => Err(f),
            Ok(name) => match need_text(
                item,
                "attributes.kind"@,
                "fail to extracting 'attributes.kind' as String from json"@,
            ) {
                Err(f) => Err(f),
                Ok(kind) => if kind == "file"@ {
                    osf_file(dir, item, index, name)
                } else if kind == "folder"@ {
                    osf_folder(dir, item, name)
                } else {
                    Err(
                        permanent(
                            "kind can be 'dataset' or 'kind' for an OSF entry, got "@ + kind,
                        ),
                    )
                },
            },
        }
    }

    fn entry(&self, dir: &DirMeta, item: &Json, index: usize) -> (r: Result<Entry, RepoError>) {
        let name = match require_text(
            item,
            "attributes.name",
            "fail to extracting 'attributes.name' as String from json",
        ) {
            Ok(v) => v,
            Err(e) => {
                return Err(e);
            },
        };
        let kind = match require_text(
            item,
            "attributes.kind",
            "fail to extracting 'attributes.kind' as String from json",
        ) {
            Ok(v) => v,
            Err(e) => {
                return Err(e);
            },
        };
        if str_eq(kind.as_str(), "file") {
            let size = match require_u64(
                item,
                "attributes.size",
                "fail to extracting 'attributes.size' as u64 from json",
            ) {
                Ok(v) => v,
                Err(e) => {
                    return Err(e);
                },
            };
            let link = match require_text(
                item,
                "links.download",
                "fail to extracting 'links.download' as String from json",
            ) {
                Ok(v) => v,
                Err(e) => {
                    return Err(e);
                },
            };
            let mut message = concat("cannot parse '", link.as_str());
            message.append("' download url");
            let url = match require_url(link.as_str(), message) {
                Ok(v) => v,
                Err(e) => {
                    return Err(e);
                },
            };
            let hash = match require_text(
                item,
                "attributes.extra.hashes.sha256",
                "fail to extracting 'attributes.extra.hashes.sha256' as String from json",
            ) {
                Ok(v) => v,
                Err(e) => {
                    return Err(e);
                },
            };
            let digits = decimal_string(index as u64);
            let endpoint = Endpoint {
                parent_url: dir.api_url.clone(),
                key: Some(concat("data.", digits.as_str())),
            };
            let mut checksum: Vec<Checksum> = Vec::new();
            checksum.push(Checksum::Sha256(hash));
            proof {
                assert(checksum_views(checksum@) =~= seq![ChecksumView::Sha256(hash@)]);
            }
            Ok(
                Entry::File(
                    FileMeta::new(dir.join(name.as_str()), endpoint, url, Some(size), checksum),
                ),
            )
        } else if str_eq(kind.as_str(), "folder") {
            let link = match require_text(
                item,
                "relationships.files.links.related.href",
                "fail to extracting 'relationships.files.links.related.href' as String from json",
            ) {
                Ok(v) => v,
                Err(e) => {
                    return Err(e);
                },
            };
            let mut message = concat("cannot parse '", link.as_str());
            message.append("' api url");
            let url = match require_url(link.as_str(), message) {
                Ok(v) => v,
                Err(e) => {
                    return Err(e);
                },
            };
            Ok(Entry::Dir(DirMeta::new(dir.join(name.as_str()), url, dir.root_url.clone())))
        } else {
            Err(
                RepoError::permanent(
                    concat(
                        "kind can be 'dataset' or 'kind' for an OSF entry, got ",
                        kind.as_str(),
                    ),
                ),
            )
        }
    }
}

} // verus!
