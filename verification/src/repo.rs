//! The common vocabulary of all backends: directories, files, checksums,
//! and the error of a listing.
use vstd::prelude::*;
use crate::error::{ErrorStatus, Failure};
use crate::path::{join_text, relative_text, root_marker, CrawlPath};
use crate::text::{concat, decimal, decimal_string, join, join_with, views};
use crate::weburl::opt_view;

verus! {

/// A failed listing.
#[derive(Debug)]
pub struct RepoError {
    pub message: String,
    pub status: ErrorStatus,
}

impl View for RepoError {
    type V = Failure;

    open spec fn view(&self) -> Failure {
        Failure { message: self.message@, status: self.status }
    }
}

/// The text of a failed listing, as it is shown to a user.
pub open spec fn repo_error_text(f: Failure) -> Seq<char> {
    "repo fail: "@ + f.message
}

impl RepoError {
    /// An error that no retry can mend.
    pub fn permanent(message: String) -> (e: RepoError)
        ensures
            e@ == crate::error::permanent(message@),
    {
        RepoError { message, status: ErrorStatus::Permanent }
    }

    /// An error that a retry may mend.
    pub fn temporary(message: String) -> (e: RepoError)
        ensures
            e@ == crate::error::temporary(message@),
    {
        RepoError { message, status: ErrorStatus::Temporary }
    }

    /// The text of this error, as it is shown to a user.
    pub fn to_string(&self) -> (r: String)
        ensures
            r@ == repo_error_text(self@),
    {
        concat("repo fail: ", self.message.as_str())
    }
}

/// The digest that a provider reports for a file, in hexadecimal.
#[derive(Debug)]
pub enum Checksum {
    Md5(String),
    Sha256(String),
}

/// A checksum, as mathematics.
pub enum ChecksumView {
    Md5(Seq<char>),
    Sha256(Seq<char>),
}

impl View for Checksum {
    type V = ChecksumView;

    open spec fn view(&self) -> ChecksumView {
        match self {
            Checksum::Md5(h) => ChecksumView::Md5(h@),
            Checksum::Sha256(h) => ChecksumView::Sha256(h@),
        }
    }
}

impl Clone for Checksum {
    fn clone(&self) -> (r: Self)
        ensures
            r@ == self@,
    {
        match self {
            Checksum::Md5(h) => Checksum::Md5(h.clone()),
            Checksum::Sha256(h) => Checksum::Sha256(h.clone()),
        }
    }
}

/// The text of a checksum, as it is shown to a user.
pub open spec fn checksum_text(c: ChecksumView) -> Seq<char> {
    match c {
        ChecksumView::Md5(h) => "(md5: "@ + h + ")"@,
        ChecksumView::Sha256(h) => "(sha256: "@ + h + ")"@,
    }
}

impl Checksum {
    /// The text of this checksum, as it is shown to a user.
    pub fn to_string(&self) -> (r: String)
        ensures
            r@ == checksum_text(self@),
    {
        match self {
            Checksum::Md5(h) => {
                let mut s = concat("(md5: ", h.as_str());
                s.append(")");
                s
            },
            Checksum::Sha256(h) => {
                let mut s = concat("(sha256: ", h.as_str());
                s.append(")");
                s
            },
        }
    }
}

/// The views of a list of checksums.
pub open spec fn checksum_views(v: Seq<Checksum>) -> Seq<ChecksumView> {
    v.map_values(|c: Checksum| c@)
}

/// Where the metadata of a file came from: the listing that described it
/// and the place in that listing. For diagnostics only.
#[derive(Debug)]
pub struct Endpoint {
    pub parent_url: String,
    pub key: Option<String>,
}

/// An endpoint, as mathematics.
pub struct EndpointView {
    pub parent_url: Seq<char>,
    pub key: Option<Seq<char>>,
}

impl View for Endpoint {
    type V = EndpointView;

    open spec fn view(&self) -> EndpointView {
        EndpointView { parent_url: self.parent_url@, key: opt_view(self.key) }
    }
}

/// The text of an endpoint, as it is shown to a user.
pub open spec fn endpoint_text(e: EndpointView) -> Seq<char> {
    "Endpoint (parent_url: "@ + e.parent_url + ", key: "@ + (match e.key {
        Some(k) => k,
        None => "<Null>"@,
    }) + ")"@
}

impl Endpoint {
    /// The text of this endpoint, as it is shown to a user.
    pub fn to_string(&self) -> (r: String)
        ensures
            r@ == endpoint_text(self@),
    {
        let mut s = concat("Endpoint (parent_url: ", self.parent_url.as_str());
        s.append(", key: ");
        match &self.key {
            Some(k) => s.append(k.as_str()),
            None => s.append("<Null>"),
        }
        s.append(")");
        s
    }
}

impl Clone for Endpoint {
    fn clone(&self) -> (r: Self)
        ensures
            r@ == self@,
    {
        let key = match &self.key {
            Some(k) => Some(k.clone()),
            None => None,
        };
        Endpoint { parent_url: self.parent_url.clone(), key }
    }
}

/// A directory of a dataset: where it lies, the URL that lists its
/// children, and the URL of the dataset's root, which every directory below
/// the root carries unchanged.
#[derive(Debug)]
pub struct DirMeta {
    pub path: CrawlPath,
    pub api_url: String,
    pub root_url: String,
}

/// A directory, as mathematics.
pub struct DirMetaView {
    pub path: Seq<char>,
    pub api_url: Seq<char>,
    pub root_url: Seq<char>,
}

impl View for DirMeta {
    type V = DirMetaView;

    open spec fn view(&self) -> DirMetaView {
        DirMetaView { path: self.path@, api_url: self.api_url@, root_url: self.root_url@ }
    }
}

impl Clone for DirMeta {
    fn clone(&self) -> (r: Self)
        ensures
            r@ == self@,
    {
        DirMeta {
            path: self.path.clone(),
            api_url: self.api_url.clone(),
            root_url: self.root_url.clone(),
        }
    }
}

/// The text of a directory, as it is shown to a user.
pub open spec fn dir_text(d: DirMetaView) -> Seq<char> {
    "DirMeta (at: "@ + d.path + ", src: "@ + d.api_url + ")"@
}

impl DirMeta {
    /// A directory below the root of a dataset.
    #[must_use]
    pub fn new(path: CrawlPath, api_url: String, root_url: String) -> (r: Self)
        ensures
            r@ == (DirMetaView { path: path@, api_url: api_url@, root_url: root_url@ }),
    {
        DirMeta { path, api_url, root_url }
    }

    /// The root directory of a dataset: it lies at the crawl root, and its
    /// listing URL is the dataset's root URL.
    #[must_use]
    pub fn new_root(api_url: String) -> (r: Self)
        ensures
            r@ == (DirMetaView { path: root_marker(), api_url: api_url@, root_url: api_url@ }),
    {
        let root_url = api_url.clone();
        DirMeta { path: CrawlPath::root(), api_url, root_url }
    }

    /// The path of this directory below the crawl root.
    #[must_use]
    pub fn relative(&self) -> (r: CrawlPath)
        ensures
            r@ == relative_text(self@.path),
    {
        self.path.relative()
    }

    /// The path of a child of this directory.
    #[must_use]
    pub fn join(&self, p: &str) -> (r: CrawlPath)
        ensures
            r@ == join_text(self@.path, p@),
    {
        self.path.join(p)
    }

    /// The text of this directory, as it is shown to a user.
    pub fn to_string(&self) -> (r: String)
        ensures
            r@ == dir_text(self@),
    {
        let mut s = concat("DirMeta (at: ", self.path.as_str());
        s.append(", src: ");
        s.append(self.api_url.as_str());
        s.append(")");
        s
    }
}

/// A file of a dataset: where it lies, where to download it from, and what
/// the provider says of its size, digests and media type.
#[derive(Debug)]
pub struct FileMeta {
    pub path: CrawlPath,
    pub endpoint: Endpoint,
    pub download_url: String,
    pub size: Option<u64>,
    pub checksum: Vec<Checksum>,
    pub mime: Option<String>,
}

/// A file, as mathematics.
pub struct FileMetaView {
    pub path: Seq<char>,
    pub endpoint: EndpointView,
    pub download_url: Seq<char>,
    pub size: Option<u64>,
    pub checksum: Seq<ChecksumView>,
    pub mime: Option<Seq<char>>,
}

impl View for FileMeta {
    type V = FileMetaView;

    open spec fn view(&self) -> FileMetaView {
        FileMetaView {
            path: self.path@,
            endpoint: self.endpoint@,
            download_url: self.download_url@,
            size: self.size,
            checksum: checksum_views(self.checksum@),
            mime: opt_view(self.mime),
        }
    }
}

/// The text of a file, as it is shown to a user.
pub open spec fn file_text(f: FileMetaView) -> Seq<char> {
    "FileMeta (at: "@ + f.path + ", endpoint: "@ + endpoint_text(f.endpoint) + ", download_url: "@
        + f.download_url + ", size: "@ + (match f.size {
        Some(n) => decimal(n as nat),
        None => "<Null>"@,
    }) + ", checksum: "@ + join(f.checksum.map_values(|c: ChecksumView| checksum_text(c)), ","@)
        + ")"@
}

impl FileMeta {
    /// A file of which no media type is known.
    pub fn new(
        path: CrawlPath,
        endpoint: Endpoint,
        download_url: String,
        size: Option<u64>,
        checksum: Vec<Checksum>,
    ) -> (r: Self)
        ensures
            r@ == (FileMetaView {
                path: path@,
                endpoint: endpoint@,
                download_url: download_url@,
                size,
                checksum: checksum_views(checksum@),
                mime: None,
            }),
    {
        FileMeta { path, endpoint, download_url, size, checksum, mime: None }
    }

    /// The path of this file below the crawl root.
    pub fn relative(&self) -> (r: CrawlPath)
        ensures
            r@ == relative_text(self@.path),
    {
        self.path.relative()
    }

    /// The text of this file, as it is shown to a user.
    pub fn to_string(&self) -> (r: String)
        ensures
            r@ == file_text(self@),
    {
        let mut sums: Vec<String> = Vec::new();
        let mut i: usize = 0;
        while i < self.checksum.len()
            invariant
                i <= self.checksum.len(),
                sums@.len() == i,
                forall|k: int| 0 <= k < i ==> (#[trigger] sums@[k])@ == checksum_text(
                    self.checksum@[k]@,
                ),
            decreases self.checksum.len() - i,
        {
            sums.push(self.checksum[i].to_string());
            i += 1;
        }
        proof {
            assert(views(sums@) =~= checksum_views(self.checksum@).map_values(
                |c: ChecksumView| checksum_text(c),
            ));
        }
        let mut s = concat("FileMeta (at: ", self.path.as_str());
        s.append(", endpoint: ");
        s.append(self.endpoint.to_string().as_str());
        s.append(", download_url: ");
        s.append(self.download_url.as_str());
        s.append(", size: ");
        match self.size {
            Some(n) => s.append(decimal_string(n).as_str()),
            None => s.append("<Null>"),
        }
        s.append(", checksum: ");
        s.append(join_with(&sums, ",").as_str());
        s.append(")");
        s
    }

    /// Where the metadata of this file came from.
    pub fn endpoint(&self) -> (r: Endpoint)
        ensures
            r@ == self@.endpoint,
    {
        self.endpoint.clone()
    }
}

/// What a listing holds: a directory or a file.
#[derive(Debug)]
pub enum Entry {
    Dir(DirMeta),
    File(FileMeta),
}

/// An entry, as mathematics.
pub enum EntryView {
    Dir(DirMetaView),
    File(FileMetaView),
}

impl View for Entry {
    type V = EntryView;

    open spec fn view(&self) -> EntryView {
        match self {
            Entry::Dir(d) => EntryView::Dir(d@),
            Entry::File(f) => EntryView::File(f@),
        }
    }
}

impl Entry {
    /// The path of this entry.
    pub fn path(&self) -> (r: &CrawlPath)
        ensures
            r@ == entry_path(self@),
    {
        match self {
            Entry::Dir(d) => &d.path,
            Entry::File(f) => &f.path,
        }
    }
}

/// The path of an entry.
pub open spec fn entry_path(e: EntryView) -> Seq<char> {
    match e {
        EntryView::Dir(d) => d.path,
        EntryView::File(f) => f.path,
    }
}

/// The views of a list of entries.
pub open spec fn entry_views(v: Seq<Entry>) -> Seq<EntryView> {
    v.map_values(|e: Entry| e@)
}

/// Whether a result of a listing step is the one that the mathematics asks
/// for.
pub open spec fn entry_result_is(
    r: Result<Entry, RepoError>,
    want: Result<EntryView, Failure>,
) -> bool {
    match want {
        Ok(e) => r matches Ok(x) && x@ == e,
        Err(f) => r matches Err(x) && x@ == f,
    }
}

/// Whether the result of a listing is the one that the mathematics asks
/// for.
pub open spec fn entries_result_is(
    r: Result<Vec<Entry>, RepoError>,
    want: Result<Seq<EntryView>, Failure>,
) -> bool {
    match want {
        Ok(e) => r matches Ok(x) && entry_views(x@) == e,
        Err(f) => r matches Err(x) && x@ == f,
    }
}

} // verus!
