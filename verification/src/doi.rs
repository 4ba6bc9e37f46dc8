//! From a DOI to the landing page that it redirects to.
use vstd::prelude::*;
use crate::error::{permanent, ErrorStatus, Failure};
use crate::text::{concat, contains_char, has_prefix};

verus! {

/// A DOI that could not be resolved.
#[derive(Debug)]
pub struct ResolveError {
    pub message: String,
    pub status: ErrorStatus,
}

impl View for ResolveError {
    type V = Failure;

    open spec fn view(&self) -> Failure {
        Failure { message: self.message@, status: self.status }
    }
}

impl ResolveError {
    /// The error with this message; no retry mends it.
    pub fn new(message: String) -> (e: ResolveError)
        ensures
            e@ == permanent(message@),
    {
        ResolveError { message, status: ErrorStatus::Permanent }
    }

    /// The text of this error, as it is shown to a user.
    pub fn to_string(&self) -> (r: String)
        ensures
            r@ == self.message@,
    {
        self.message.clone()
    }
}

/// What came back from the one GET that resolves a DOI, made with
/// redirects switched off.
#[derive(Debug)]
pub enum DoiReply {
    /// No response came.
    NoResponse,
    /// The response has no `Location` header.
    NoLocation,
    /// The `Location` header is no text.
    UnreadableLocation,
    /// The value of the `Location` header.
    Location(String),
}

/// Whether a text has the shape of a DOI: it begins with `10.` and holds a
/// slash.
pub open spec fn valid_doi(doi: Seq<char>) -> bool {
    "10."@.is_prefix_of(doi) && doi.contains('/')
}

/// The resolver that is asked where none is named.
pub open spec fn default_resolver() -> Seq<char> {
    "https://doi.org"@
}

/// The URL to get for a DOI at a resolver.
pub open spec fn doi_url(doi: Seq<char>, base_url: Option<Seq<char>>) -> Result<
    Seq<char>,
    Failure,
> {
    if valid_doi(doi) {
        let base = match base_url {
            Some(b) => b,
            None => default_resolver(),
        };
        Ok(base + "/"@ + doi)
    } else {
        Err(permanent("Invalid DOI: '"@ + doi + "'"@))
    }
}

/// The landing page that a reply names.
pub open spec fn landing_url(doi: Seq<char>, reply: DoiReply) -> Result<Seq<char>, Failure> {
    match reply {
        DoiReply::NoResponse => Err(permanent("failed to resolve '"@ + doi + "'"@)),
        DoiReply::NoLocation => Err(permanent("No Location header in response"@)),
        DoiReply::UnreadableLocation => Err(permanent("Invalid Location header value"@)),
        DoiReply::Location(url) => Ok(url@),
    }
}

/// Whether `doi` has the shape of a DOI.
pub fn is_valid_doi(doi: &str) -> (r: bool)
    ensures
        r == valid_doi(doi@),
{
    has_prefix(doi, "10.") && contains_char(doi, '/')
}

/// The URL to get, with redirects switched off, in order to resolve `doi`
/// at the resolver `base_url`, or at `https://doi.org` where none is given.
/// Fails where `doi` has not the shape of a DOI.
pub fn doi_request_url(doi: &str, base_url: Option<&str>) -> (r: Result<String, ResolveError>)
    ensures
        match doi_url(
            doi@,
            match base_url {
                Some(b) => Some(b@),
                None => None,
            },
        ) {
            Ok(u) => r matches Ok(s) && s@ == u,
            Err(f) => r matches Err(e) && e@ == f,
        },
{
    if !is_valid_doi(doi) {
        let mut m = concat("Invalid DOI: '", doi);
        m.append("'");
        return Err(ResolveError::new(m));
    }
    let base = match base_url {
        Some(b) => b,
        None => "https://doi.org",
    };
    let mut url = concat(base, "/");
    url.append(doi);
    Ok(url)
}

/// The landing page of `doi`: the value of the `Location` header of the
/// reply.
pub fn doi_landing_url(doi: &str, reply: DoiReply) -> (r: Result<String, ResolveError>)
    ensures
        match landing_url(doi@, reply) {
            Ok(u) => r matches Ok(s) && s@ == u,
            Err(f) => r matches Err(e) && e@ == f,
        },
{
    match reply {
        DoiReply::NoResponse => {
            let mut m = concat("failed to resolve '", doi);
            m.append("'");
            Err(ResolveError::new(m))
        },
        DoiReply::NoLocation => Err(
            ResolveError::new("No Location header in response".to_owned()),
        ),
        DoiReply::UnreadableLocation => Err(
            ResolveError::new("Invalid Location header value".to_owned()),
        ),
        DoiReply::Location(url) => Ok(url),
    }
}

} // verus!
