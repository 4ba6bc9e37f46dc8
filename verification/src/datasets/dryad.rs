//! Dryad datasets.
use vstd::prelude::*;
use crate::error::{permanent, Failure};
use crate::json::Json;
use crate::listing::{
    items_listing_of, list_document, need_text, need_u64, read_reply, reply_json, require_text,
    require_u64, HttpReply, ItemSource,
};
use crate::path::join_text;
use crate::repo::{
    checksum_views, entries_result_is, Checksum, ChecksumView, DirMeta, DirMetaView, Endpoint,
    EndpointView, Entry, EntryView, FileMeta, FileMetaView, RepoError,
};
use crate::text::{concat, decimal, decimal_string, lowercase, str_eq, to_lowercase, views};
use crate::weburl::{
    opt_view, segments_fit, url_extend, url_join, url_joined, url_with_segments,
};

verus! {

/// A dataset of Dryad. Its files are found in two steps: the dataset names
/// its latest version, and the version lists the files.
#[derive(Debug)]
pub struct DataDryad {
    pub id: String,
    pub base_url: String,
}

/// The files of one version of a dataset: the backend together with the URL
/// that listed them.
pub struct DryadFiles<'a> {
    pub backend: &'a DataDryad,
    pub files_api_url: &'a str,
}

/// The URL that describes the dataset `id`.
pub open spec fn dryad_root_url(id: Seq<char>) -> Option<Seq<char>> {
    let segments = seq![id];
    if segments_fit("https://datadryad.org/api/v2/datasets"@, segments) {
        url_with_segments("https://datadryad.org/api/v2/datasets"@, segments)
    } else {
        None
    }
}

/// The URL that lists the files of the version that a dataset document
/// names as its latest.
pub open spec fn dryad_files_url(base: Seq<char>, doc: Json) -> Result<Seq<char>, Failure> {
    match need_text(
        doc,
        "_links.stash:version.href"@,
        "fail to extract '_links.stash:version.href' as string from json"@,
    ) {
        Err(f) => Err(f),
        Ok(version) => match url_joined(base, version) {
            None => Err(
                permanent("cannot join version '"@ + version + "' to base url '"@ + base + "'"@),
            ),
            Some(u) => if segments_fit(u, seq!["files"@]) && url_with_segments(
                u,
                seq!["files"@],
            ) is Some {
                Ok(url_with_segments(u, seq!["files"@])->0)
            } else {
                Err(permanent("cannot list the files below '"@ + u + "'"@))
            },
        },
    }
}

impl DataDryad {
    /// The dataset with the id `id` at the installation `base_url`.
    #[must_use]
    pub fn new(id: &str, base_url: &str) -> (r: Self)
        ensures
            r.id@ == id@,
            r.base_url@ == base_url@,
    {
        DataDryad { id: id.to_owned(), base_url: base_url.to_owned() }
    }

    /// The URL that describes this dataset. `None` where the id is too long
    /// to stand in a URL.
    pub fn root_url(&self) -> (r: Option<String>)
        ensures
            opt_view(r) == dryad_root_url(self.id@),
    {
        let mut segments: Vec<String> = Vec::new();
        segments.push(self.id.clone());
        proof {
            assert(views(segments@) =~= seq![self.id@]);
        }
        url_extend("https://datadryad.org/api/v2/datasets", &segments)
    }

    /// The URL to get next, from the document that describes the dataset.
    pub fn files_url_in(&self, doc: &Json) -> (r: Result<String, RepoError>)
        ensures
            match dryad_files_url(self.base_url@, *doc) {
                Ok(u) => r matches Ok(s) && s@ == u,
                Err(f) => r matches Err(e) && e@ == f,
            },
    {
        let version = require_text(
            doc,
            "_links.stash:version.href",
            "fail to extract '_links.stash:version.href' as string from json",
        )?;
        let joined = match url_join(self.base_url.as_str(), version.as_str()) {
            Some(u) => u,
            None => {
                let mut m = concat("cannot join version '", version.as_str());
                m.append("' to base url '");
                m.append(self.base_url.as_str());
                m.append("'");
                return Err(RepoError::permanent(m));
            },
        };
        let mut segments: Vec<String> = Vec::new();
        segments.push("files".to_owned());
        proof {
            assert(views(segments@) =~= seq!["files"@]);
        }
        match url_extend(joined.as_str(), &segments) {
            Some(u) => Ok(u),
            None => {
                let mut m = concat("cannot list the files below '", joined.as_str());
                m.append("'");
                Err(RepoError::permanent(m))
            },
        }
    }

    /// The URL to get next that a reply to the GET of the listing URL of
    /// `dir` stands for.
    pub open spec fn next_url(
        &self,
        dir: DirMetaView,
        status: Option<u16>,
        body: Seq<u8>,
    ) -> Result<Seq<char>, Failure> {
        match reply_json(dir.api_url, status, body, None) {
            Err(f) => Err(f),
            Ok(doc) => dryad_files_url(self.base_url@, doc),
        }
    }

    /// The listing of `dir` that a reply to the GET of `files_api_url`
    /// stands for.
    pub open spec fn listing(
        &self,
        dir: DirMetaView,
        files_api_url: &str,
        status: Option<u16>,
        body: Seq<u8>,
    ) -> Result<Seq<EntryView>, Failure> {
        match reply_json(files_api_url@, status, body, None) {
            Err(f) => Err(f),
            Ok(doc) => items_listing_of(
                &(DryadFiles { backend: self, files_api_url }),
                dir,
                doc,
                "_embedded.stash:files"@,
                "field with key '_embedded.stash:files' not resolve to an json array"@,
            ),
        }
    }

    /// The first step of a listing: the URL to get next, from the reply to
    /// a GET of the listing URL of `dir`.
    pub fn files_url(&self, dir: &DirMeta, reply: &HttpReply) -> (r: Result<String, RepoError>)
        ensures
            match self.next_url(dir@, reply.status, reply.body@) {
                Ok(u) => r matches Ok(s) && s@ == u,
                Err(f) => r matches Err(e) && e@ == f,
            },
    {
        let doc = read_reply(dir.api_url.as_str(), reply, None)?;
        self.files_url_in(&doc)
    }

    /// The entries that the document of a version describes for `dir`: one
    /// file for each item of `_embedded.stash:files`.
    pub fn entries(&self, dir: &DirMeta, files_api_url: &str, doc: &Json) -> (r: Result<
        Vec<Entry>,
        RepoError,
    >)
        ensures
            entries_result_is(
                r,
                items_listing_of(
                    &(DryadFiles { backend: self, files_api_url }),
                    dir@,
                    *doc,
                    "_embedded.stash:files"@,
                    "field with key '_embedded.stash:files' not resolve to an json array"@,
                ),
            ),
    {
        let source = DryadFiles { backend: self, files_api_url };
        list_document(
            &source,
            dir,
            doc,
            "_embedded.stash:files",
            "field with key '_embedded.stash:files' not resolve to an json array",
        )
    }

    /// The second step of a listing: the entries of `dir` that the reply to
    /// a GET of `files_api_url` describes.
    pub fn list(&self, dir: &DirMeta, files_api_url: &str, reply: &HttpReply) -> (r: Result<
        Vec<Entry>,
        RepoError,
    >)
        ensures
            entries_result_is(r, self.listing(dir@, files_api_url, reply.status, reply.body@)),
    {
        let doc = read_reply(files_api_url, reply, None)?;
        self.entries(dir, files_api_url, &doc)
    }
}

impl<'a> ItemSource for DryadFiles<'a> {
    open spec fn entry_of(&self, dir: DirMetaView, item: Json, index: nat) -> Result<
        EntryView,
        Failure,
    > {
        let base = self.backend.base_url@;
        match need_text(item, "path"@, "fail to extracting 'path' as String from json"@) {
            Err(f) => Err(f),
            Ok(name) => match need_u64(
                item,
                "size"@,
                "fail to extracting 'size' as u64 from json"@,
            ) {
                Err(f) => Err(f),
                Ok(size) => match need_text(
                    item,
                    "_links.stash:download.href"@,
                    "fail to extracting '_links.stash:download.href' as String from json, at parsing "@
                        + self.files_api_url@,
                ) {
                    Err(f) => Err(f),
                    Ok(link) => match url_joined(base, link) {
                        None => Err(
                            permanent(
                                "fail to concat download_url from base_url '"@ + base
                                    + "', and path '"@ + link + "'"@,
                            ),
                        ),
                        Some(url) => match need_text(
                            item,
                            "digestType"@,
                            "fail to extracting 'digestType' as String from json"@,
                        ) {
                            Err(f) => Err(f),
                            Ok(kind) => if lowercase(kind) == "md5"@ {
                                match need_text(
                                    item,
                                    "digest"@,
                                    "fail to extracting 'digest' as String from json"@,
                                ) {
                                    Err(f) => Err(f),
                                    Ok(hash) => Ok(
                                        EntryView::File(
                                            FileMetaView {
                                                path: join_text(dir.path, name),
                                                endpoint: EndpointView {
                                                    parent_url: self.files_api_url@,
                                                    key: Some(
                                                        "_embedded.stash:files."@ + decimal(
                                                            index,
                                                        ),
                                                    ),
                                                },
                                                download_url: url,
                                                size: Some(size),
                                                checksum: seq![ChecksumView::Md5(hash)],
                                                mime: None,
                                            },
                                        ),
                                    ),
                                }
                            } else {
                                Err(permanent("unsupported hash type, '"@ + kind + "'"@))
                            },
                        },
                    },
                },
            },
        }
    }

    fn entry(&self, dir: &DirMeta, item: &Json, index: usize) -> (r: Result<Entry, RepoError>) {
        let name = require_text(item, "path", "fail to extracting 'path' as String from json")?;
        let size = require_u64(item, "size", "fail to extracting 'size' as u64 from json")?;
        let message = concat(
            "fail to extracting '_links.stash:download.href' as String from json, at parsing ",
            self.files_api_url,
        );
        let link = require_text(item, "_links.stash:download.href", message.as_str())?;
        let url = match url_join(self.backend.base_url.as_str(), link.as_str()) {
            Some(u) => u,
            None => {
                let mut m = concat(
                    "fail to concat download_url from base_url '",
                    self.backend.base_url.as_str(),
                );
                m.append("', and path '");
                m.append(link.as_str());
                m.append("'");
                return Err(RepoError::permanent(m));
            },
        };
        let kind = require_text(
            item,
            "digestType",
            "fail to extracting 'digestType' as String from json",
        )?;
        let lowered = to_lowercase(kind.as_str());
        if !str_eq(lowered.as_str(), "md5") {
            let mut m = concat("unsupported hash type, '", kind.as_str());
            m.append("'");
            return Err(RepoError::permanent(m));
        }
        let hash = require_text(
            item,
            "digest",
            "fail to extracting 'digest' as String from json",
        )?;
        let digits = decimal_string(index as u64);
        let endpoint = Endpoint {
            parent_url: self.files_api_url.to_owned(),
            key: Some(concat("_embedded.stash:files.", digits.as_str())),
        };
        let mut checksum: Vec<Checksum> = Vec::new();
        checksum.push(Checksum::Md5(hash));
        proof {
            assert(checksum_views(checksum@) =~= seq![ChecksumView::Md5(hash@)]);
        }
        Ok(Entry::File(FileMeta::new(dir.join(name.as_str()), endpoint, url, Some(size), checksum)))
    }
}

} // verus!
