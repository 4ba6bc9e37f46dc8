//! Member repositories of DataONE, which describe a dataset in XML.
use vstd::prelude::*;
use crate::error::{permanent, Failure};
use crate::listing::{check_status, status_failure, HttpReply};
use crate::path::join_text;
use crate::repo::{
    checksum_views, entries_result_is, entry_result_is, entry_views, Checksum, ChecksumView,
    DirMeta, DirMetaView, Endpoint, EndpointView, Entry, EntryView, FileMeta, FileMetaView,
    RepoError,
};
use crate::text::{concat, parse_u64, str_eq, unsigned_value};
use crate::weburl::{normalize_url, opt_view, url_href};
use crate::xml::{
    attribute_value, first_child, inner_text, parse_xml, xml_document, XmlElement, XmlNode,
    XmlRefusal,
};

verus! {

/// A dataset of a member repository of DataONE.
#[derive(Debug)]
pub struct Dataone {
    pub base_url: String,
    pub id: String,
}

/// The URL of the XML document that describes the dataset `id`: the id
/// stands behind the address of the catalogue as it is, and the whole is
/// read as one URL.
pub open spec fn dataone_root_url(id: Seq<char>) -> Option<Seq<char>> {
    url_href("https://cn.dataone.org/cn/v2/object/"@ + id)
}

/// The text of the first child called `name`, where `parent` is there and
/// has such a child with text in it.
pub open spec fn child_text(parent: Option<XmlElement>, name: Seq<char>) -> Option<Seq<char>> {
    match parent {
        Some(p) => match first_child(p.children@, name) {
            Some(c) => inner_text(c.children@),
            None => None,
        },
        None => None,
    }
}

/// The first child called `name`, where `parent` is there.
pub open spec fn step(parent: Option<XmlElement>, name: Seq<char>) -> Option<XmlElement> {
    match parent {
        Some(p) => first_child(p.children@, name),
        None => None,
    }
}

/// The download URL that an entity names: the text of
/// `physical/distribution/online/url`, where that element carries the
/// attribute `function` with the value `download`.
pub open spec fn dataone_link(entity: XmlElement) -> Option<Seq<char>> {
    let url = step(step(step(step(Some(entity), "physical"@), "distribution"@), "online"@), "url"@);
    match url {
        Some(u) => if attribute_value(u.attributes@, "function"@) == Some("download"@) {
            inner_text(u.children@)
        } else {
            None
        },
        None => None,
    }
}

/// The size that an entity names in `physical/size`: `None` where it names
/// none, a failure where what it names is no number.
pub open spec fn dataone_size(entity: XmlElement) -> Result<Option<u64>, Failure> {
    match child_text(step(Some(entity), "physical"@), "size"@) {
        None => Ok(None),
        Some(t) => match unsigned_value(t) {
            Some(n) => if n <= u64::MAX {
                Ok(Some(n as u64))
            } else {
                Err(permanent("cannot parse file physical size, '"@ + t + "'"@))
            },
            None => Err(permanent("cannot parse file physical size, '"@ + t + "'"@)),
        },
    }
}

/// The file that an entity of the dataset describes.
pub open spec fn dataone_file(dir: DirMetaView, entity: XmlElement) -> Result<EntryView, Failure> {
    match dataone_link(entity) {
        None => Err(
            permanent(
                "not found download url at "@ + dir.api_url
                    + ", through 'physical.distribution.online.url.function.download'"@,
            ),
        ),
        Some(link) => match url_href(link) {
            None => Err(permanent(link + " is not a valid download url"@)),
            Some(url) => match child_text(Some(entity), "entityName"@) {
                None => Err(permanent("name not found"@)),
                Some(name) => match dataone_size(entity) {
                    Err(f) => Err(f),
                    Ok(size) => Ok(
                        EntryView::File(
                            FileMetaView {
                                path: join_text(dir.path, name),
                                endpoint: EndpointView {
                                    parent_url: dir.api_url,
                                    key: Some(
                                        "dataset.physical.distribution.online.url[@function='download']"@,
                                    ),
                                },
                                download_url: url,
                                size,
                                checksum: Seq::<ChecksumView>::empty(),
                                mime: None,
                            },
                        ),
                    ),
                },
            },
        },
    }
}

/// Whether a node of the dataset describes a file: it is an element called
/// `otherEntity` or `dataTable`.
pub open spec fn is_entity(node: XmlNode) -> bool {
    match node {
        XmlNode::Element(e) => e.name@ == "otherEntity"@ || e.name@ == "dataTable"@,
        _ => false,
    }
}

/// The files that the nodes describe, in their order; the failure of the
/// first entity that describes none.
pub open spec fn dataone_files(dir: DirMetaView, nodes: Seq<XmlNode>) -> Result<
    Seq<EntryView>,
    Failure,
>
    decreases nodes.len(),
{
    if nodes.len() == 0 {
        Ok(Seq::<EntryView>::empty())
    } else {
        match dataone_files(dir, nodes.drop_last()) {
            Err(f) => Err(f),
            Ok(before) => match nodes.last() {
                XmlNode::Element(e) => if is_entity(nodes.last()) {
                    match dataone_file(dir, e) {
                        Ok(file) => Ok(before.push(file)),
                        Err(f) => Err(f),
                    }
                } else {
                    Ok(before)
                },
                _ => Ok(before),
            },
        }
    }
}

/// The listing that an XML document stands for: the files of its child
/// `dataset`, or nothing where it has no such child.
pub open spec fn dataone_listing(dir: DirMetaView, root: XmlElement) -> Result<
    Seq<EntryView>,
    Failure,
> {
    match first_child(root.children@, "dataset"@) {
        Some(dataset) => dataone_files(dir, dataset.children@),
        None => Ok(Seq::<EntryView>::empty()),
    }
}

/// Where the first nodes fail, all of them fail in the same way.
pub proof fn lemma_files_fail_early(dir: DirMetaView, nodes: Seq<XmlNode>, n: int)
    requires
        0 <= n <= nodes.len(),
        dataone_files(dir, nodes.take(n)) is Err,
    ensures
        dataone_files(dir, nodes) == dataone_files(dir, nodes.take(n)),
    decreases nodes.len(),
{
    if n < nodes.len() {
        assert(nodes.drop_last().take(n) =~= nodes.take(n));
        lemma_files_fail_early(dir, nodes.drop_last(), n);
    } else {
        assert(nodes.take(n) =~= nodes);
    }
}

fn link_of(entity: &XmlElement) -> (r: Option<String>)
    ensures
        opt_view(r) == dataone_link(*entity),
{
    let physical = entity.child("physical")?;
    let distribution = physical.child("distribution")?;
    let online = distribution.child("online")?;
    let url = online.child("url")?;
    match url.attribute("function") {
        Some(f) => {
            if str_eq(f.as_str(), "download") {
                url.text()
            } else {
                None
            }
        },
        None => None,
    }
}

fn size_of(entity: &XmlElement) -> (r: Result<Option<u64>, RepoError>)
    ensures
        match dataone_size(*entity) {
            Ok(s) => r matches Ok(x) && x == s,
            Err(f) => r matches Err(e) && e@ == f,
        },
{
    let text = match entity.child("physical") {
        Some(p) => match p.child("size") {
            Some(s) => s.text(),
            None => None,
        },
        None => None,
    };
    match text {
        None => Ok(None),
        Some(t) => match parse_u64(t.as_str()) {
            Some(n) => Ok(Some(n)),
            None => {
                let mut m = concat("cannot parse file physical size, '", t.as_str());
                m.append("'");
                Err(RepoError::permanent(m))
            },
        },
    }
}

/// Turns one entity of the dataset into an entry.
pub fn file_entry(dir: &DirMeta, entity: &XmlElement) -> (r: Result<Entry, RepoError>)
    ensures
        entry_result_is(r, dataone_file(dir@, *entity)),
{
    let link = match link_of(entity) {
        Some(l) => l,
        None => {
            let mut m = concat("not found download url at ", dir.api_url.as_str());
            m.append(", through 'physical.distribution.online.url.function.download'");
            return Err(RepoError::permanent(m));
        },
    };
    let url = match normalize_url(link.as_str()) {
        Some(u) => u,
        None => {
            return Err(
                RepoError::permanent(concat(link.as_str(), " is not a valid download url")),
            );
        },
    };
    let name = match entity.child("entityName") {
        Some(n) => n.text(),
        None => None,
    };
    let name = match name {
        Some(n) => n,
        None => {
            return Err(RepoError::permanent("name not found".to_owned()));
        },
    };
    let size = size_of(entity)?;
    let endpoint = Endpoint {
        parent_url: dir.api_url.clone(),
        key: Some("dataset.physical.distribution.online.url[@function='download']".to_owned()),
    };
    let checksum: Vec<Checksum> = Vec::new();
    proof {
        assert(checksum_views(checksum@) =~= Seq::<ChecksumView>::empty());
    }
    Ok(Entry::File(FileMeta::new(dir.join(name.as_str()), endpoint, url, size, checksum)))
}

/// The message for a document that is not read as XML.
pub open spec fn xml_refusal_text(refusal: XmlRefusal) -> Seq<char> {
    match refusal {
        XmlRefusal::Doctype => "Failed to parse XML: it holds a document type declaration"@,
        XmlRefusal::TooDeep => "Failed to parse XML: its elements nest too deep"@,
        XmlRefusal::Malformed => "Failed to parse XML"@,
    }
}

impl Dataone {
    /// The dataset with the id `id`, found at the repository `base_url`.
    #[must_use]
    pub fn new(base_url: &str, id: &str) -> (r: Self)
        ensures
            r.base_url@ == base_url@,
            r.id@ == id@,
    {
        Dataone { base_url: base_url.to_owned(), id: id.to_owned() }
    }

    /// The URL of the XML document that describes this dataset. `None`
    /// where the id cannot stand in a URL.
    pub fn root_url(&self) -> (r: Option<String>)
        ensures
            opt_view(r) == dataone_root_url(self.id@),
    {
        let text = concat("https://cn.dataone.org/cn/v2/object/", self.id.as_str());
        normalize_url(text.as_str())
    }

    /// The entries that an XML document of the provider describes for
    /// `dir`: one file for each `otherEntity` and `dataTable` of its
    /// `dataset`.
    pub fn entries(&self, dir: &DirMeta, root: &XmlElement) -> (r: Result<Vec<Entry>, RepoError>)
        ensures
            entries_result_is(r, dataone_listing(dir@, *root)),
    {
        let mut out: Vec<Entry> = Vec::new();
        proof {
            assert(entry_views(out@) =~= Seq::<EntryView>::empty());
        }
        let dataset = match root.child("dataset") {
            Some(d) => d,
            None => {
                return Ok(out);
            },
        };
        let nodes = &dataset.children;
        let mut i: usize = 0;
        while i < nodes.len()
            invariant
                i <= nodes.len(),
                first_child(root.children@, "dataset"@) == Some(*dataset),
                *nodes == dataset.children,
                dataone_files(dir@, nodes@.take(i as int)) == Ok::<Seq<EntryView>, Failure>(
                    entry_views(out@),
                ),
            decreases nodes.len() - i,
        {
            proof {
                let now = nodes@.take(i + 1);
                assert(now.drop_last() =~= nodes@.take(i as int));
            }
            match &nodes[i] {
                XmlNode::Element(e) => {
                    if str_eq(e.name.as_str(), "otherEntity") || str_eq(
                        e.name.as_str(),
                        "dataTable",
                    ) {
                        match file_entry(dir, e) {
                            Ok(file) => {
                                let ghost before = out@;
                                out.push(file);
                                proof {
                                    assert(entry_views(out@) =~= entry_views(before).push(file@));
                                }
                            },
                            Err(err) => {
                                proof {
                                    lemma_files_fail_early(dir@, nodes@, i + 1);
                                }
                                return Err(err);
                            },
                        }
                    }
                },
                _ => {},
            }
            i += 1;
        }
        proof {
            assert(nodes@.take(nodes@.len() as int) =~= nodes@);
        }
        Ok(out)
    }

    /// The listing of `dir` that a reply to the GET of its listing URL
    /// stands for: the failure of the status where it stands for one, the
    /// reason for which the body is not read as XML, or the listing of the
    /// document.
    pub open spec fn listing(&self, dir: DirMetaView, status: Option<u16>, body: Seq<u8>) -> Result<
        Seq<EntryView>,
        Failure,
    > {
        match status_failure(dir.api_url, status, None) {
            Some(f) => Err(f),
            None => match xml_document(body) {
                Ok(root) => dataone_listing(dir, root),
                Err(refusal) => Err(permanent(xml_refusal_text(refusal))),
            },
        }
    }

    /// The entries of `dir` that the reply to a GET of its listing URL
    /// describes.
    pub fn list(&self, dir: &DirMeta, reply: &HttpReply) -> (r: Result<Vec<Entry>, RepoError>)
        ensures
            entries_result_is(r, self.listing(dir@, reply.status, reply.body@)),
    {
        check_status(dir.api_url.as_str(), reply.status, None)?;
        match parse_xml(reply.body.as_slice()) {
            Ok(root) => self.entries(dir, &root),
            Err(XmlRefusal::Doctype) => Err(
                RepoError::permanent(
                    "Failed to parse XML: it holds a document type declaration".to_owned(),
                ),
            ),
            Err(XmlRefusal::TooDeep) => Err(
                RepoError::permanent("Failed to parse XML: its elements nest too deep".to_owned()),
            ),
            Err(XmlRefusal::Malformed) => Err(
                RepoError::permanent("Failed to parse XML".to_owned()),
            ),
        }
    }
}

} // verus!
