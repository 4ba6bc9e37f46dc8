//! One adapter per provider.
pub mod arxiv;
pub mod dataone;
pub mod dataverse;
pub mod dryad;
pub mod github;
pub mod hal;
pub mod huggingface;
pub mod osf;
pub mod zenodo;
