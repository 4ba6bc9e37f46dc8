//! Zenodo records.
use vstd::prelude::*;
use crate::error::{permanent, Failure};
use crate::json::Json;
use crate::listing::{
    items_listing_of, list_document, list_reply, listing_of, need_text, need_u64, need_url,
    require_text, require_u64, require_url, HttpReply, ItemSource,
};
use crate::path::join_text;
use crate::repo::{
    checksum_views, entries_result_is, Checksum, ChecksumView, DirMeta, DirMetaView, Endpoint,
    EndpointView, Entry, EntryView, FileMeta, FileMetaView, RepoError,
};
use crate::text::{
    concat, cut_at_first, cut_first, decimal, decimal_string, lowercase, str_eq, to_lowercase,
    views,
};
use crate::weburl::{opt_view, segments_fit, url_extend, url_with_segments};

verus! {

/// A record of Zenodo. All files of a record are listed at once; there are
/// no directories.
#[derive(Debug)]
pub struct Zenodo {
    pub id: String,
}

/// The media type that `mime_guess` gives first for the extension of a file
/// name; `None` where it knows none.
pub uninterp spec fn mime_of_name(name: Seq<char>) -> Option<Seq<char>>;

/// `mime_guess::from_path` and `MimeGuess::first`, the media type as its
/// text. Claimed: the answer depends on the name alone.
#[verifier::external_body]
fn first_mime(name: &str) -> (r: Option<String>)
    ensures
        opt_view(r) == mime_of_name(name@),
{
    mime_guess::from_path(name).first().map(|m| m.as_ref().to_owned())
}

/// The media type that the extension of a file name suggests.
pub fn guess_mime(name: &str) -> (r: Option<String>)
    ensures
        opt_view(r) == mime_of_name(name@),
{
    first_mime(name)
}

/// The URL that lists the files of the record `id`.
pub open spec fn zenodo_root_url(id: Seq<char>) -> Option<Seq<char>> {
    let segments = seq![id, "files"@];
    if segments_fit("https://zenodo.org/api/records"@, segments) {
        url_with_segments("https://zenodo.org/api/records"@, segments)
    } else {
        None
    }
}

/// The checksum that a text of the form `md5:HEX` or `sha256:HEX` denotes,
/// with the digest in lower case. The text is cut at its first colon.
pub open spec fn zenodo_checksum(text: Seq<char>) -> Result<ChecksumView, Failure> {
    let (kind, digest) = cut_first(text, ':');
    if kind == "md5"@ {
        match digest {
            Some(d) => Ok(ChecksumView::Md5(lowercase(d))),
            None => Err(permanent("checksum format is wrong, type md5 but no checksum"@)),
        }
    } else if kind == "sha256"@ {
        match digest {
            Some(d) => Ok(ChecksumView::Sha256(lowercase(d))),
            None => Err(permanent("checksum format is wrong, type sha256 but no checksum"@)),
        }
    } else {
        Err(permanent("checksum field is wrong"@))
    }
}

/// Reads the checksum of an entry of Zenodo.
pub fn parse_checksum(text: &str) -> (r: Result<Checksum, RepoError>)
    ensures
        match zenodo_checksum(text@) {
            Ok(c) => r matches Ok(x) && x@ == c,
            Err(f) => r matches Err(e) && e@ == f,
        },
{
    let (kind, digest) = cut_at_first(text, ':');
    if str_eq(kind.as_str(), "md5") {
        match digest {
            Some(d) => Ok(Checksum::Md5(to_lowercase(d.as_str()))),
            None => Err(
                RepoError::permanent(
                    "checksum format is wrong, type md5 but no checksum".to_owned(),
                ),
            ),
        }
    } else if str_eq(kind.as_str(), "sha256") {
        match digest {
            Some(d) => Ok(Checksum::Sha256(to_lowercase(d.as_str()))),
            None => Err(
                RepoError::permanent(
                    "checksum format is wrong, type sha256 but no checksum".to_owned(),
                ),
            ),
        }
    } else {
        Err(RepoError::permanent("checksum field is wrong".to_owned()))
    }
}

impl Zenodo {
    /// The record with this id.
    #[must_use]
    pub fn new(id: &str) -> (r: Self)
        ensures
            r.id@ == id@,
    {
        Zenodo { id: id.to_owned() }
    }

    /// The URL that lists the files of this record. `None` where the id is
    /// too long to stand in a URL.
    pub fn root_url(&self) -> (r: Option<String>)
        ensures
            opt_view(r) == zenodo_root_url(self.id@),
    {
        let mut segments: Vec<String> = Vec::new();
        segments.push(self.id.clone());
        segments.push("files".to_owned());
        proof {
            assert(views(segments@) =~= seq![self.id@, "files"@]);
        }
        url_extend("https://zenodo.org/api/records", &segments)
    }

    /// The entries that a JSON document of the provider describes for
    /// `dir`: one file for each item of `entries`.
    pub fn entries(&self, dir: &DirMeta, doc: &Json) -> (r: Result<Vec<Entry>, RepoError>)
        ensures
            entries_result_is(
                r,
                items_listing_of(
                    self,
                    dir@,
                    *doc,
                    "entries"@,
                    "field with key 'entries' not resolve to an json array"@,
                ),
            ),
    {
        list_document(
            self,
            dir,
            doc,
            "entries",
            "field with key 'entries' not resolve to an json array",
        )
    }

    /// The listing of `dir` that a reply to the GET of its listing URL
    /// stands for.
    pub open spec fn listing(&self, dir: DirMetaView, status: Option<u16>, body: Seq<u8>) -> Result<
        Seq<EntryView>,
        Failure,
    > {
        listing_of(
            self,
            dir,
            status,
            body,
            None,
            "entries"@,
            "field with key 'entries' not resolve to an json array"@,
        )
    }

    /// The entries of `dir` that the reply to a GET of its listing URL
    /// describes.
    pub fn list(&self, dir: &DirMeta, reply: &HttpReply) -> (r: Result<Vec<Entry>, RepoError>)
        ensures
            entries_result_is(r, self.listing(dir@, reply.status, reply.body@)),
    {
        list_reply(
            self,
            dir,
            reply,
            None,
            "entries",
            "field with key 'entries' not resolve to an json array",
        )
    }
}

impl ItemSource for Zenodo {
    open spec fn entry_of(&self, dir: DirMetaView, item: Json, index: nat) -> Result<
        EntryView,
        Failure,
    > {
        match need_text(item, "key"@, "fail to extracting 'key' as String from json"@) {
            Err(f) => Err(f),
            Ok(name) => match need_u64(
                item,
                "size"@,
                "fail to extracting 'size' as u64 from json"@,
            ) {
                Err(f) => Err(f),
                Ok(size) => match need_text(
                    item,
                    "links.content"@,
                    "fail to extracting 'links.content' as String from json, at parsing "@
                        + dir.api_url,
                ) {
                    Err(f) => Err(f),
                    Ok(link) => match need_url(
                        link,
                        "fail to parse download_url from '"@ + link + "'"@,
                    ) {
                        Err(f) => Err(f),
                        Ok(url) => match need_text(
                            item,
                            "checksum"@,
                            "fail to extracting 'checksum' as String from json"@,
                        ) {
                            Err(f) => Err(f),
                            Ok(sum) => match zenodo_checksum(sum) {
                                Err(f) => Err(f),
                                Ok(checksum) => Ok(
                                    EntryView::File(
                                        FileMetaView {
                                            path: join_text(dir.path, name),
                                            endpoint: EndpointView {
                                                parent_url: dir.api_url,
                                                key: Some("entries."@ + decimal(index)),
                                            },
                                            download_url: url,
                                            size: Some(size),
                                            checksum: seq![checksum],
                                            mime: mime_of_name(name),
                                        },
                                    ),
                                ),
                            },
                        },
                    },
                },
            },
        }
    }

    fn entry(&self, dir: &DirMeta, item: &Json, index: usize) -> (r: Result<Entry, RepoError>) {
        let name = require_text(item, "key", "fail to extracting 'key' as String from json")?;
        let size = require_u64(item, "size", "fail to extracting 'size' as u64 from json")?;
        let message = concat(
            "fail to extracting 'links.content' as String from json, at parsing ",
            dir.api_url.as_str(),
        );
        let link = require_text(item, "links.content", message.as_str())?;
        let mut message = concat("fail to parse download_url from '", link.as_str());
        message.append("'");
        let url = require_url(link.as_str(), message)?;
        let sum = require_text(
            item,
            "checksum",
            "fail to extracting 'checksum' as String from json",
        )?;
        let one = parse_checksum(sum.as_str())?;
        let digits = decimal_string(index as u64);
        let endpoint = Endpoint {
            parent_url: dir.api_url.clone(),
            key: Some(concat("entries.", digits.as_str())),
        };
        let mime = guess_mime(name.as_str());
        let mut checksum: Vec<Checksum> = Vec::new();
        let ghost one_view = one@;
        checksum.push(one);
        proof {
            assert(checksum_views(checksum@) =~= seq![one_view]);
        }
        Ok(
            Entry::File(
                FileMeta {
                    path: dir.join(name.as_str()),
                    endpoint,
                    download_url: url,
                    size: Some(size),
                    checksum,
                    mime,
                },
            ),
        )
    }
}

} // verus!
