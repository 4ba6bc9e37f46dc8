//! Resolves the URL of a research dataset to the repository that hosts it,
//! turns the repository's listings into files and directories, walks
//! the file tree, and judges downloaded bytes against the size and digest
//! that the repository reports.
pub mod crawler;
pub mod dataset;
pub mod datasets;
pub mod doi;
pub mod domains;
pub mod download;
pub mod error;
pub mod json;
pub mod listing;
pub mod order;
pub mod path;
pub mod repo;
pub mod resolver;
pub mod text;
pub mod weburl;
pub mod xml;
pub mod xml_bound;

pub use crawler::{CrawlAction, Crawler, CrawlerError};
pub use dataset::{Backend, Dataset, ListStep};
pub use datasets::arxiv::Arxiv;
pub use datasets::dataone::Dataone;
pub use datasets::dataverse::{DataverseDataset, DataverseFile};
pub use datasets::dryad::DataDryad;
pub use datasets::github::GitHub;
pub use datasets::hal::HalScience;
pub use datasets::huggingface::HuggingFace;
pub use datasets::osf::OSF;
pub use datasets::zenodo::Zenodo;
pub use doi::{doi_landing_url, doi_request_url, DoiReply, ResolveError};
pub use download::{select_checksum, DownloadState, FileDownload, Hasher};
pub use error::ErrorStatus;
pub use json::{
    json_extract, json_extract_i64, json_extract_string, json_extract_u64, parse_json, Json,
    JsonErrorKind, JsonExtractError, JsonNumber,
};
pub use listing::HttpReply;
pub use path::CrawlPath;
pub use repo::{Checksum, DirMeta, Endpoint, Entry, FileMeta, RepoError};
pub use resolver::{resolve, DispatchError, Resolution};
