//! Dataverse installations: whole datasets and single files.
use vstd::prelude::*;
use crate::error::{permanent, Failure};
use crate::json::{json_extract, lookup, Json};
use crate::listing::{
    items_listing_of, list_document, list_reply, listing_of, need_text, need_u64, read_reply,
    reply_json, require_text, require_u64, HttpReply, ItemSource,
};
use crate::path::join_text;
use crate::repo::{
    checksum_views, entries_result_is, entry_result_is, entry_views, Checksum, ChecksumView,
    DirMeta, DirMetaView, Endpoint, EndpointView, Entry, EntryView, FileMeta, FileMetaView,
    RepoError,
};
use crate::text::{concat, decimal, decimal_string, views};
use crate::weburl::{
    opt_view, pair_fits, segments_fit, url_append_pair, url_extend, url_with_query_pair,
    url_with_segments,
};

verus! {

/// A dataset of a Dataverse installation.
#[derive(Debug)]
pub struct DataverseDataset {
    pub id: String,
    pub base_url: String,
    pub version: String,
}

/// A single file of a Dataverse installation.
#[derive(Debug)]
pub struct DataverseFile {
    pub id: String,
    pub base_url: String,
    pub version: String,
}

/// The URL that describes a version of a dataset (`kind` is `datasets`) or
/// of a file (`kind` is `files`) with the persistent id `id`.
pub open spec fn dataverse_root_url(
    kind: Seq<char>,
    base: Seq<char>,
    version: Seq<char>,
    id: Seq<char>,
) -> Option<Seq<char>> {
    let segments = seq!["api"@, kind, ":persistentId"@, "versions"@, version];
    if segments_fit(base, segments) {
        match url_with_segments(base, segments) {
            Some(u) => if pair_fits(u, "persistentId"@, id) {
                url_with_query_pair(u, "persistentId"@, id)
            } else {
                None
            },
            None => None,
        }
    } else {
        None
    }
}

/// The URL from which the file with the number `id` is downloaded.
pub open spec fn dataverse_download_url(base: Seq<char>, id: u64) -> Option<Seq<char>> {
    let segments = seq!["api"@, "access"@, "datafile"@, decimal(id as nat)];
    if segments_fit(base, segments) {
        url_with_segments(base, segments)
    } else {
        None
    }
}

/// The file that an item of a Dataverse reply describes; `key` says where
/// in the reply the item stands.
pub open spec fn dataverse_file(
    base: Seq<char>,
    dir: DirMetaView,
    item: Json,
    key: Seq<char>,
) -> Result<EntryView, Failure> {
    match need_text(
        item,
        "dataFile.filename"@,
        "fail to extracting 'dataFile.filename' as String from json"@,
    ) {
        Err(f) => Err(f),
        Ok(name) => match need_u64(
            item,
            "dataFile.id"@,
            "fail to extracting 'dataFile.id' as u64 from json"@,
        ) {
            Err(f) => Err(f),
            Ok(id) => match need_u64(
                item,
                "dataFile.filesize"@,
                "fail to extracting 'dataFile.filesize' as u64 from json"@,
            ) {
                Err(f) => Err(f),
                Ok(size) => match dataverse_download_url(base, id) {
                    None => Err(
                        permanent(
                            "cannot make a download url from '"@ + base + "' and file id "@
                                + decimal(id as nat),
                        ),
                    ),
                    Some(url) => match need_text(
                        item,
                        "dataFile.md5"@,
                        "fail to extracting 'dataFile.md5' as String from json"@,
                    ) {
                        Err(f) => Err(f),
                        Ok(hash) => Ok(
                            EntryView::File(
                                FileMetaView {
                                    path: join_text(dir.path, name),
                                    endpoint: EndpointView {
                                        parent_url: dir.api_url,
                                        key: Some(key),
                                    },
                                    download_url: url,
                                    size: Some(size),
                                    checksum: seq![ChecksumView::Md5(hash)],
                                    mime: None,
                                },
                            ),
                        ),
                    },
                },
            },
        },
    }
}

fn root_url_of(kind: &str, base_url: &str, version: &str, id: &str) -> (r: Option<String>)
    ensures
        opt_view(r) == dataverse_root_url(kind@, base_url@, version@, id@),
{
    let mut segments: Vec<String> = Vec::new();
    segments.push("api".to_owned());
    segments.push(kind.to_owned());
    segments.push(":persistentId".to_owned());
    segments.push("versions".to_owned());
    segments.push(version.to_owned());
    proof {
        assert(views(segments@) =~= seq![
            "api"@,
            kind@,
            ":persistentId"@,
            "versions"@,
            version@,
        ]);
    }
    match url_extend(base_url, &segments) {
        Some(u) => url_append_pair(u.as_str(), "persistentId", id),
        None => None,
    }
}

/// Turns one item of a Dataverse reply into an entry.
pub fn file_entry(base_url: &str, dir: &DirMeta, item: &Json, key: String) -> (r: Result<
    Entry,
    RepoError,
>)
    ensures
        entry_result_is(r, dataverse_file(base_url@, dir@, *item, key@)),
{
    let name = require_text(
        item,
        "dataFile.filename",
        "fail to extracting 'dataFile.filename' as String from json",
    )?;
    let id = require_u64(item, "dataFile.id", "fail to extracting 'dataFile.id' as u64 from json")?;
    let size = require_u64(
        item,
        "dataFile.filesize",
        "fail to extracting 'dataFile.filesize' as u64 from json",
    )?;
    let digits = decimal_string(id);
    let mut segments: Vec<String> = Vec::new();
    segments.push("api".to_owned());
    segments.push("access".to_owned());
    segments.push("datafile".to_owned());
    segments.push(digits.clone());
    proof {
        assert(views(segments@) =~= seq!["api"@, "access"@, "datafile"@, decimal(id as nat)]);
    }
    let url = match url_extend(base_url, &segments) {
        Some(u) => u,
        None => {
            let mut m = concat("cannot make a download url from '", base_url);
            m.append("' and file id ");
            m.append(digits.as_str());
            return Err(RepoError::permanent(m));
        },
    };
    let hash = require_text(
        item,
        "dataFile.md5",
        "fail to extracting 'dataFile.md5' as String from json",
    )?;
    let endpoint = Endpoint { parent_url: dir.api_url.clone(), key: Some(key) };
    let mut checksum: Vec<Checksum> = Vec::new();
    checksum.push(Checksum::Md5(hash));
    proof {
        assert(checksum_views(checksum@) =~= seq![ChecksumView::Md5(hash@)]);
    }
    Ok(Entry::File(FileMeta::new(dir.join(name.as_str()), endpoint, url, Some(size), checksum)))
}

impl DataverseDataset {
    /// The dataset with the persistent id `id` at the installation
    /// `base_url`, in the given version.
    #[must_use]
    pub fn new(id: &str, base_url: &str, version: &str) -> (r: Self)
        ensures
            r.id@ == id@,
            r.base_url@ == base_url@,
            r.version@ == version@,
    {
        DataverseDataset {
            id: id.to_owned(),
            base_url: base_url.to_owned(),
            version: version.to_owned(),
        }
    }

    /// The URL that describes this dataset. `None` where the base is no URL
    /// that can carry a path, or the texts are too long.
    pub fn root_url(&self) -> (r: Option<String>)
        ensures
            opt_view(r) == dataverse_root_url(
                "datasets"@,
                self.base_url@,
                self.version@,
                self.id@,
            ),
    {
        root_url_of("datasets", self.base_url.as_str(), self.version.as_str(), self.id.as_str())
    }

    /// The entries that a JSON document of the provider describes for
    /// `dir`: one file for each item of `data.files`.
    pub fn entries(&self, dir: &DirMeta, doc: &Json) -> (r: Result<Vec<Entry>, RepoError>)
        ensures
            entries_result_is(
                r,
                items_listing_of(
                    self,
                    dir@,
                    *doc,
                    "data.files"@,
                    "field with key 'data.files' not resolve to an json array"@,
                ),
            ),
    {
        list_document(
            self,
            dir,
            doc,
            "data.files",
            "field with key 'data.files' not resolve to an json array",
        )
    }

    /// The listing of `dir` that a reply to the GET of its listing URL
    /// stands for.
    pub open spec fn listing(&self, dir: DirMetaView, status: Option<u16>, body: Seq<u8>) -> Result<
        Seq<EntryView>,
        Failure,
    > {
        listing_of(
            self,
            dir,
            status,
            body,
            None,
            "data.files"@,
            "field with key 'data.files' not resolve to an json array"@,
        )
    }

    /// The entries of `dir` that the reply to a GET of its listing URL
    /// describes.
    pub fn list(&self, dir: &DirMeta, reply: &HttpReply) -> (r: Result<Vec<Entry>, RepoError>)
        ensures
            entries_result_is(r, self.listing(dir@, reply.status, reply.body@)),
    {
        list_reply(
            self,
            dir,
            reply,
            None,
            "data.files",
            "field with key 'data.files' not resolve to an json array",
        )
    }
}

impl ItemSource for DataverseDataset {
    open spec fn entry_of(&self, dir: DirMetaView, item: Json, index: nat) -> Result<
        EntryView,
        Failure,
    > {
        dataverse_file(self.base_url@, dir, item, "data.files."@ + decimal(index))
    }

    fn entry(&self, dir: &DirMeta, item: &Json, index: usize) -> (r: Result<Entry, RepoError>) {
        let digits = decimal_string(index as u64);
        file_entry(self.base_url.as_str(), dir, item, concat("data.files.", digits.as_str()))
    }
}

/// The single file that a JSON document of the provider describes: the
/// member `data` of the document.
pub open spec fn dataverse_single(base: Seq<char>, dir: DirMetaView, doc: Json) -> Result<
    Seq<EntryView>,
    Failure,
> {
    match lookup(doc, "data"@) {
        Err(_) => Err(permanent("field with key 'data' not resolve to an json value"@)),
        Ok(item) => match dataverse_file(base, dir, item, "data"@) {
            Err(f) => Err(f),
            Ok(e) => Ok(seq![e]),
        },
    }
}

impl DataverseFile {
    /// The file with the persistent id `id` at the installation `base_url`,
    /// in the given version.
    #[must_use]
    pub fn new(id: &str, base_url: &str, version: &str) -> (r: Self)
        ensures
            r.id@ == id@,
            r.base_url@ == base_url@,
            r.version@ == version@,
    {
        DataverseFile {
            id: id.to_owned(),
            base_url: base_url.to_owned(),
            version: version.to_owned(),
        }
    }

    /// The URL that describes this file. `None` where the base is no URL
    /// that can carry a path, or the texts are too long.
    pub fn root_url(&self) -> (r: Option<String>)
        ensures
            opt_view(r) == dataverse_root_url("files"@, self.base_url@, self.version@, self.id@),
    {
        root_url_of("files", self.base_url.as_str(), self.version.as_str(), self.id.as_str())
    }

    /// The one file that a JSON document of the provider describes.
    pub fn entries(&self, dir: &DirMeta, doc: &Json) -> (r: Result<Vec<Entry>, RepoError>)
        ensures
            entries_result_is(r, dataverse_single(self.base_url@, dir@, *doc)),
    {
        let item = match json_extract(doc, "data") {
            Ok(v) => v,
            Err(_) => {
                return Err(
                    RepoError::permanent(
                        "field with key 'data' not resolve to an json value".to_owned(),
                    ),
                );
            },
        };
        let e = file_entry(self.base_url.as_str(), dir, item, "data".to_owned())?;
        let mut out: Vec<Entry> = Vec::new();
        let ghost one = e@;
        out.push(e);
        proof {
            assert(entry_views(out@) =~= seq![one]);
        }
        Ok(out)
    }

    /// The listing of `dir` that a reply to the GET of its listing URL
    /// stands for.
    pub open spec fn listing(&self, dir: DirMetaView, status: Option<u16>, body: Seq<u8>) -> Result<
        Seq<EntryView>,
        Failure,
    > {
        match reply_json(dir.api_url, status, body, None) {
            Err(f) => Err(f),
            Ok(doc) => dataverse_single(self.base_url@, dir, doc),
        }
    }

    /// The one file that the reply to a GET of the listing URL of `dir`
    /// describes.
    pub fn list(&self, dir: &DirMeta, reply: &HttpReply) -> (r: Result<Vec<Entry>, RepoError>)
        ensures
            entries_result_is(r, self.listing(dir@, reply.status, reply.body@)),
    {
        let doc = read_reply(dir.api_url.as_str(), reply, None)?;
        self.entries(dir, &doc)
    }
}

} // verus!
