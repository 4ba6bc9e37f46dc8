//! arXiv papers.
use vstd::prelude::*;
use crate::path::join_text;
use crate::repo::{
    checksum_views, entry_views, Checksum, ChecksumView, DirMeta, DirMetaView, Endpoint,
    EndpointView, Entry, EntryView, FileMeta, FileMetaView,
};
use crate::text::{concat, views};
use crate::weburl::{opt_view, segments_fit, url_extend, url_with_segments};

verus! {

/// A paper of arXiv. It has one file, its PDF.
#[derive(Debug)]
pub struct Arxiv {
    pub id: String,
}

/// The URL of the PDF of the paper `id`.
pub open spec fn arxiv_root_url(id: Seq<char>) -> Option<Seq<char>> {
    let segments = seq!["pdf"@, id];
    if segments_fit("https://arxiv.org"@, segments) {
        url_with_segments("https://arxiv.org"@, segments)
    } else {
        None
    }
}

/// The one file of the paper `id`, seen from `dir`: its PDF, which is
/// downloaded from the root URL. Neither size nor checksum is known.
pub open spec fn arxiv_file(id: Seq<char>, dir: DirMetaView) -> FileMetaView {
    FileMetaView {
        path: join_text(dir.path, id + ".pdf"@),
        endpoint: EndpointView { parent_url: dir.root_url, key: Some(id) },
        download_url: dir.root_url,
        size: None,
        checksum: Seq::<ChecksumView>::empty(),
        mime: None,
    }
}

impl Arxiv {
    /// The paper with this id.
    #[must_use]
    pub fn new(id: &str) -> (r: Self)
        ensures
            r.id@ == id@,
    {
        Arxiv { id: id.to_owned() }
    }

    /// The URL of the PDF of this paper. `None` where the id is too long to
    /// stand in a URL.
    pub fn root_url(&self) -> (r: Option<String>)
        ensures
            opt_view(r) == arxiv_root_url(self.id@),
    {
        let mut segments: Vec<String> = Vec::new();
        segments.push("pdf".to_owned());
        segments.push(self.id.clone());
        proof {
            assert(views(segments@) =~= seq!["pdf"@, self.id@]);
        }
        url_extend("https://arxiv.org", &segments)
    }

    /// The entries of `dir`: the one file of the paper. No request is made
    /// for it.
    pub fn list(&self, dir: &DirMeta) -> (r: Vec<Entry>)
        ensures
            entry_views(r@) == seq![EntryView::File(arxiv_file(self.id@, dir@))],
    {
        let name = concat(self.id.as_str(), ".pdf");
        let endpoint = Endpoint { parent_url: dir.root_url.clone(), key: Some(self.id.clone()) };
        let checksum: Vec<Checksum> = Vec::new();
        proof {
            assert(checksum_views(checksum@) =~= Seq::<ChecksumView>::empty());
        }
        let file = FileMeta::new(
            dir.join(name.as_str()),
            endpoint,
            dir.root_url.clone(),
            None,
            checksum,
        );
        let mut out: Vec<Entry> = Vec::new();
        out.push(Entry::File(file));
        out
    }
}

} // verus!
