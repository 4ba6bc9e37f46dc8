//! A dataset: a backend together with the record it was resolved to.
use vstd::prelude::*;
use crate::datasets::arxiv::{arxiv_file, arxiv_root_url, Arxiv};
use crate::datasets::dataone::{dataone_root_url, Dataone};
use crate::datasets::dataverse::{dataverse_root_url, DataverseDataset, DataverseFile};
use crate::datasets::dryad::{dryad_root_url, DataDryad};
use crate::datasets::github::{github_root_url, GitHub};
use crate::datasets::hal::{hal_root_url, HalScience};
use crate::datasets::huggingface::{hf_root_url, HuggingFace};
use crate::datasets::osf::{osf_root_url, OSF};
use crate::datasets::zenodo::{zenodo_root_url, Zenodo};
use crate::error::Failure;
use crate::listing::HttpReply;
use crate::path::root_marker;
use crate::repo::{entry_views, DirMeta, DirMetaView, Entry, EntryView, RepoError};
use crate::weburl::opt_view;

verus! {

/// The provider of a dataset, with what identifies the dataset there.
#[derive(Debug)]
pub enum Backend {
    OSF(OSF),
    Zenodo(Zenodo),
    DataverseDataset(DataverseDataset),
    DataverseFile(DataverseFile),
    DataDryad(DataDryad),
    Dataone(Dataone),
    HalScience(HalScience),
    Arxiv(Arxiv),
    HuggingFace(HuggingFace),
    GitHub(GitHub),
}

/// A backend, as mathematics.
pub enum BackendView {
    OSF { id: Seq<char> },
    Zenodo { id: Seq<char> },
    DataverseDataset { id: Seq<char>, base_url: Seq<char>, version: Seq<char> },
    DataverseFile { id: Seq<char>, base_url: Seq<char>, version: Seq<char> },
    DataDryad { id: Seq<char>, base_url: Seq<char> },
    Dataone { base_url: Seq<char>, id: Seq<char> },
    HalScience { id: Seq<char> },
    Arxiv { id: Seq<char> },
    HuggingFace { owner: Seq<char>, repo: Seq<char>, revision: Seq<char> },
    GitHub { owner: Seq<char>, repo: Seq<char>, branch_or_commit: Seq<char> },
}

impl View for Backend {
    type V = BackendView;

    open spec fn view(&self) -> BackendView {
        match self {
            Backend::OSF(b) => BackendView::OSF { id: b.id@ },
            Backend::Zenodo(b) => BackendView::Zenodo { id: b.id@ },
            Backend::DataverseDataset(b) => BackendView::DataverseDataset {
                id: b.id@,
                base_url: b.base_url@,
                version: b.version@,
            },
            Backend::DataverseFile(b) => BackendView::DataverseFile {
                id: b.id@,
                base_url: b.base_url@,
                version: b.version@,
            },
            Backend::DataDryad(b) => BackendView::DataDryad { id: b.id@, base_url: b.base_url@ },
            Backend::Dataone(b) => BackendView::Dataone { base_url: b.base_url@, id: b.id@ },
            Backend::HalScience(b) => BackendView::HalScience { id: b.id@ },
            Backend::Arxiv(b) => BackendView::Arxiv { id: b.id@ },
            Backend::HuggingFace(b) => BackendView::HuggingFace {
                owner: b.owner@,
                repo: b.repo@,
                revision: b.revision@,
            },
            Backend::GitHub(b) => BackendView::GitHub {
                owner: b.owner@,
                repo: b.repo@,
                branch_or_commit: b.branch_or_commit@,
            },
        }
    }
}

/// What a step of a listing gives: the entries, or one more URL to get.
#[derive(Debug)]
pub enum ListStep {
    Entries(Vec<Entry>),
    Follow(String),
}

/// Whether a step gives exactly these entries, or fails in exactly this
/// way.
pub open spec fn gives_entries(
    r: Result<ListStep, RepoError>,
    want: Result<Seq<EntryView>, Failure>,
) -> bool {
    match want {
        Ok(entries) => r matches Ok(ListStep::Entries(v)) && entry_views(v@) == entries,
        Err(f) => r matches Err(e) && e@ == f,
    }
}

/// Whether a step asks for exactly this URL, or fails in exactly this way.
pub open spec fn gives_url(
    r: Result<ListStep, RepoError>,
    want: Result<Seq<char>, Failure>,
) -> bool {
    match want {
        Ok(url) => r matches Ok(ListStep::Follow(u)) && u@ == url,
        Err(f) => r matches Err(e) && e@ == f,
    }
}

impl Backend {
    /// The URL at which the listing of the dataset starts.
    pub open spec fn root_url_text(&self) -> Option<Seq<char>> {
        match self {
            Backend::OSF(b) => osf_root_url(b.id@),
            Backend::Zenodo(b) => zenodo_root_url(b.id@),
            Backend::DataverseDataset(b) => dataverse_root_url(
                "datasets"@,
                b.base_url@,
                b.version@,
                b.id@,
            ),
            Backend::DataverseFile(b) => dataverse_root_url(
                "files"@,
                b.base_url@,
                b.version@,
                b.id@,
            ),
            Backend::DataDryad(b) => dryad_root_url(b.id@),
            Backend::Dataone(b) => dataone_root_url(b.id@),
            Backend::HalScience(b) => hal_root_url(b.id@),
            Backend::Arxiv(b) => arxiv_root_url(b.id@),
            Backend::HuggingFace(b) => hf_root_url(b.owner@, b.repo@, b.revision@),
            Backend::GitHub(b) => github_root_url(b.owner@, b.repo@, b.branch_or_commit@),
        }
    }

    /// What identifies the record at the provider: its id, or for a
    /// repository the revision, branch or commit.
    pub open spec fn record_id_text(&self) -> Seq<char> {
        record_id_of(self@)
    }

    /// Whether a result is what a step of the listing of `dir` gives for a
    /// reply. `followed` is `None` for the reply to the GET of the listing
    /// URL of `dir`, and the URL that an earlier step asked for otherwise.
    pub open spec fn step_is(
        &self,
        dir: DirMetaView,
        followed: Option<&str>,
        reply: &HttpReply,
        r: Result<ListStep, RepoError>,
    ) -> bool {
        match self {
            Backend::OSF(b) => gives_entries(r, b.listing(dir, reply.status, reply.body@)),
            Backend::Zenodo(b) => gives_entries(r, b.listing(dir, reply.status, reply.body@)),
            Backend::DataverseDataset(b) => gives_entries(
                r,
                b.listing(dir, reply.status, reply.body@),
            ),
            Backend::DataverseFile(b) => gives_entries(
                r,
                b.listing(dir, reply.status, reply.body@),
            ),
            Backend::DataDryad(b) => match followed {
                None => gives_url(r, b.next_url(dir, reply.status, reply.body@)),
                Some(url) => gives_entries(r, b.listing(dir, url, reply.status, reply.body@)),
            },
            Backend::Dataone(b) => gives_entries(r, b.listing(dir, reply.status, reply.body@)),
            Backend::HalScience(b) => gives_entries(r, b.listing(dir, reply.status, reply.body@)),
            Backend::Arxiv(b) => r matches Ok(ListStep::Entries(v)) && entry_views(v@)
                == seq![EntryView::File(arxiv_file(b.id@, dir))],
            Backend::HuggingFace(b) => gives_entries(
                r,
                b.listing(dir, reply.status, reply.body@),
            ),
            Backend::GitHub(b) => gives_entries(r, b.listing(dir, reply.status, reply.body@)),
        }
    }

    /// The URL at which the listing of the dataset starts. `None` where
    /// what identifies the dataset cannot stand in a URL.
    pub fn root_url(&self) -> (r: Option<String>)
        ensures
            opt_view(r) == self.root_url_text(),
    {
        match self {
            Backend::OSF(b) => b.root_url(),
            Backend::Zenodo(b) => b.root_url(),
            Backend::DataverseDataset(b) => b.root_url(),
            Backend::DataverseFile(b) => b.root_url(),
            Backend::DataDryad(b) => b.root_url(),
            Backend::Dataone(b) => b.root_url(),
            Backend::HalScience(b) => b.root_url(),
            Backend::Arxiv(b) => b.root_url(),
            Backend::HuggingFace(b) => b.root_url(),
            Backend::GitHub(b) => b.root_url(),
        }
    }

    /// What identifies the record at the provider.
    pub fn record_id(&self) -> (r: &str)
        ensures
            r@ == self.record_id_text(),
    {
        match self {
            Backend::OSF(b) => b.id.as_str(),
            Backend::Zenodo(b) => b.id.as_str(),
            Backend::DataverseDataset(b) => b.id.as_str(),
            Backend::DataverseFile(b) => b.id.as_str(),
            Backend::DataDryad(b) => b.id.as_str(),
            Backend::Dataone(b) => b.id.as_str(),
            Backend::HalScience(b) => b.id.as_str(),
            Backend::Arxiv(b) => b.id.as_str(),
            Backend::HuggingFace(b) => b.revision.as_str(),
            Backend::GitHub(b) => b.branch_or_commit.as_str(),
        }
    }

    /// Whether a listing needs a request at all. Only arXiv needs none: its
    /// one file is known from the id.
    pub fn needs_request(&self) -> (r: bool)
        ensures
            r == !(self is Arxiv),
    {
        match self {
            Backend::Arxiv(_) => false,
            _ => true,
        }
    }

    /// One step of the listing of `dir`: reads the reply to the GET of
    /// the listing URL of `dir` (`followed` is `None`) or of the URL that
    /// the step before asked for (`followed` is that URL). Only Dryad asks
    /// for a second URL. arXiv looks at no reply.
    pub fn list(&self, dir: &DirMeta, followed: Option<&str>, reply: &HttpReply) -> (r: Result<
        ListStep,
        RepoError,
    >)
        ensures
            self.step_is(dir@, followed, reply, r),
    {
        match self {
            Backend::OSF(b) => Ok(ListStep::Entries(b.list(dir, reply)?)),
            Backend::Zenodo(b) => Ok(ListStep::Entries(b.list(dir, reply)?)),
            Backend::DataverseDataset(b) => Ok(ListStep::Entries(b.list(dir, reply)?)),
            Backend::DataverseFile(b) => Ok(ListStep::Entries(b.list(dir, reply)?)),
            Backend::DataDryad(b) => match followed {
                None => Ok(ListStep::Follow(b.files_url(dir, reply)?)),
                Some(url) => Ok(ListStep::Entries(b.list(dir, url, reply)?)),
            },
            Backend::Dataone(b) => Ok(ListStep::Entries(b.list(dir, reply)?)),
            Backend::HalScience(b) => Ok(ListStep::Entries(b.list(dir, reply)?)),
            Backend::Arxiv(b) => Ok(ListStep::Entries(b.list(dir))),
            Backend::HuggingFace(b) => Ok(ListStep::Entries(b.list(dir, reply)?)),
            Backend::GitHub(b) => Ok(ListStep::Entries(b.list(dir, reply)?)),
        }
    }
}

/// What identifies the record of a backend at the provider: its id, or for
/// a repository the revision, branch or commit.
pub open spec fn record_id_of(backend: BackendView) -> Seq<char> {
    match backend {
        BackendView::OSF { id } => id,
        BackendView::Zenodo { id } => id,
        BackendView::DataverseDataset { id, .. } => id,
        BackendView::DataverseFile { id, .. } => id,
        BackendView::DataDryad { id, .. } => id,
        BackendView::Dataone { id, .. } => id,
        BackendView::HalScience { id } => id,
        BackendView::Arxiv { id } => id,
        BackendView::HuggingFace { revision, .. } => revision,
        BackendView::GitHub { branch_or_commit, .. } => branch_or_commit,
    }
}

/// A dataset that a URL was resolved to.
#[derive(Debug)]
pub struct Dataset {
    pub backend: Backend,
    pub record_id: String,
}

/// A dataset, as mathematics.
pub struct DatasetView {
    pub backend: BackendView,
    pub record_id: Seq<char>,
}

impl View for Dataset {
    type V = DatasetView;

    open spec fn view(&self) -> DatasetView {
        DatasetView { backend: self.backend@, record_id: self.record_id@ }
    }
}

/// The dataset of a backend: its record id is that of the backend.
pub open spec fn dataset_of(backend: BackendView) -> DatasetView {
    DatasetView { backend, record_id: record_id_of(backend) }
}

impl Dataset {
    /// The dataset of a backend; its record id is that of the backend.
    pub fn new(backend: Backend) -> (r: Dataset)
        ensures
            r.backend == backend,
            r@ == dataset_of(backend@),
    {
        let record_id = backend.record_id().to_owned();
        Dataset { backend, record_id }
    }

    /// The root directory of the dataset: it lies at the crawl root, and
    /// both its URLs are the root URL of the backend. `None` where the
    /// backend has no root URL.
    pub fn root_dir(&self) -> (r: Option<DirMeta>)
        ensures
            match self.backend.root_url_text() {
                Some(u) => r matches Some(d) && d@ == (DirMetaView {
                    path: root_marker(),
                    api_url: u,
                    root_url: u,
                }),
                None => r is None,
            },
    {
        match self.backend.root_url() {
            Some(u) => Some(DirMeta::new_root(u)),
            None => None,
        }
    }
}

} // verus!
