//! The HAL open archive.
use vstd::prelude::*;
use crate::error::{permanent, Failure};
use crate::json::{text_of, Json};
use crate::listing::{
    items_listing_of, list_document, list_reply, listing_of, need_url, require_url, HttpReply,
    ItemSource,
};
use crate::path::join_text;
use crate::repo::{
    checksum_views, entries_result_is, Checksum, ChecksumView, DirMeta, DirMetaView, Endpoint,
    EndpointView, Entry, EntryView, FileMeta, FileMetaView, RepoError,
};
use crate::text::{concat, decimal, decimal_string, last_piece, last_piece_of};
use crate::weburl::{opt_view, pair_fits, url_append_pair, url_with_query_pair};

verus! {

/// A record of HAL.
#[derive(Debug)]
pub struct HalScience {
    pub id: String,
}

/// The search that finds the files of the record `id`.
pub open spec fn hal_root_url(id: Seq<char>) -> Option<Seq<char>> {
    let base = "https://api.archives-ouvertes.fr/search/"@;
    let q = "halId_s:"@ + id;
    if pair_fits(base, "q"@, q) {
        match url_with_query_pair(base, "q"@, q) {
            None => None,
            Some(a) => if pair_fits(a, "wt"@, "json"@) {
                match url_with_query_pair(a, "wt"@, "json"@) {
                    None => None,
                    Some(b) => if pair_fits(b, "fl"@, "halId_s,fileMain_s,files_s,fileType_s"@) {
                        url_with_query_pair(b, "fl"@, "halId_s,fileMain_s,files_s,fileType_s"@)
                    } else {
                        None
                    },
                }
            } else {
                None
            },
        }
    } else {
        None
    }
}

impl HalScience {
    /// The record with this id.
    #[must_use]
    pub fn new(id: &str) -> (r: Self)
        ensures
            r.id@ == id@,
    {
        HalScience { id: id.to_owned() }
    }

    /// The URL of the search that finds the files of this record. `None`
    /// where the id is too long to stand in a URL.
    pub fn root_url(&self) -> (r: Option<String>)
        ensures
            opt_view(r) == hal_root_url(self.id@),
    {
        let q = concat("halId_s:", self.id.as_str());
        let a = url_append_pair("https://api.archives-ouvertes.fr/search/", "q", q.as_str())?;
        let b = url_append_pair(a.as_str(), "wt", "json")?;
        url_append_pair(b.as_str(), "fl", "halId_s,fileMain_s,files_s,fileType_s")
    }

    /// The entries that a JSON document of the provider describes for
    /// `dir`: one file for each URL in `files_s` of the first document
    /// found.
    pub fn entries(&self, dir: &DirMeta, doc: &Json) -> (r: Result<Vec<Entry>, RepoError>)
        ensures
            entries_result_is(
                r,
                items_listing_of(
                    self,
                    dir@,
                    *doc,
                    "response.docs.0.files_s"@,
                    "field with key 'response.docs.0.files_s' not resolve to an json array"@,
                ),
            ),
    {
        list_document(
            self,
            dir,
            doc,
            "response.docs.0.files_s",
            "field with key 'response.docs.0.files_s' not resolve to an json array",
        )
    }

    /// The listing of `dir` that a reply to the GET of its listing URL
    /// stands for.
    pub open spec fn listing(&self, dir: DirMetaView, status: Option<u16>, body: Seq<u8>) -> Result<
        Seq<EntryView>,
        Failure,
    > {
        listing_of(
            self,
            dir,
            status,
            body,
            None,
            "response.docs.0.files_s"@,
            "field with key 'response.docs.0.files_s' not resolve to an json array"@,
        )
    }

    /// The entries of `dir` that the reply to a GET of its listing URL
    /// describes.
    pub fn list(&self, dir: &DirMeta, reply: &HttpReply) -> (r: Result<Vec<Entry>, RepoError>)
        ensures
            entries_result_is(r, self.listing(dir@, reply.status, reply.body@)),
    {
        list_reply(
            self,
            dir,
            reply,
            None,
            "response.docs.0.files_s",
            "field with key 'response.docs.0.files_s' not resolve to an json array",
        )
    }
}

impl ItemSource for HalScience {
    open spec fn entry_of(&self, dir: DirMetaView, item: Json, index: nat) -> Result<
        EntryView,
        Failure,
    > {
        match text_of(item) {
            None => Err(permanent("a file of the record is not given as a string"@)),
            Some(link) => match need_url(link, "invalid download url '"@ + link + "'"@) {
                Err(f) => Err(f),
                Ok(url) => Ok(
                    EntryView::File(
                        FileMetaView {
                            path: join_text(dir.path, last_piece(link, '/') + ".pdf"@),
                            endpoint: EndpointView {
                                parent_url: dir.api_url,
                                key: Some("response.docs.0.files_s."@ + decimal(index)),
                            },
                            download_url: url,
                            size: None,
                            checksum: Seq::<ChecksumView>::empty(),
                            mime: None,
                        },
                    ),
                ),
            },
        }
    }

    fn entry(&self, dir: &DirMeta, item: &Json, index: usize) -> (r: Result<Entry, RepoError>) {
        let link = match item.as_text() {
            Some(s) => s,
            None => {
                return Err(
                    RepoError::permanent(
                        "a file of the record is not given as a string".to_owned(),
                    ),
                );
            },
        };
        let mut message = concat("invalid download url '", link.as_str());
        message.append("'");
        let url = require_url(link.as_str(), message)?;
        let mut name = last_piece_of(link.as_str(), '/');
        name.append(".pdf");
        let digits = decimal_string(index as u64);
        let endpoint = Endpoint {
            parent_url: dir.api_url.clone(),
            key: Some(concat("response.docs.0.files_s.", digits.as_str())),
        };
        let checksum: Vec<Checksum> = Vec::new();
        proof {
            assert(checksum_views(checksum@) =~= Seq::<ChecksumView>::empty());
        }
        Ok(Entry::File(FileMeta::new(dir.join(name.as_str()), endpoint, url, None, checksum)))
    }
}

} // verus!
