//! The rules of a verified download: which checksum counts, how the bytes
//! are digested while they stream, and when a finished file is accepted.
use vstd::prelude::*;
use crate::crawler::CrawlerError;
use crate::error::{permanent, temporary, ErrorStatus, Failure};
use crate::repo::{checksum_views, Checksum, ChecksumView, FileMeta};
use crate::text::{
    concat, decimal, decimal_string, eq_ignore_ascii_case, same_ignoring_ascii_case,
};

verus! {

/// The running state of an MD5 digest of the `md-5` crate.
#[verifier::external_body]
pub struct Md5State {
    inner: md5::Md5,
}

/// The running state of a SHA-256 digest of the `sha2` crate.
#[verifier::external_body]
pub struct Sha256State {
    inner: sha2::Sha256,
}

/// The bytes that an MD5 state has taken in so far, in order.
pub uninterp spec fn md5_absorbed(h: Md5State) -> Seq<u8>;

/// The bytes that a SHA-256 state has taken in so far, in order.
pub uninterp spec fn sha256_absorbed(h: Sha256State) -> Seq<u8>;

/// The MD5 digest of a sequence of bytes, as the `md-5` crate computes it.
pub uninterp spec fn md5_digest(data: Seq<u8>) -> Seq<u8>;

/// The SHA-256 digest of a sequence of bytes, as the `sha2` crate computes
/// it.
pub uninterp spec fn sha256_digest(data: Seq<u8>) -> Seq<u8>;

/// The hexadecimal digit for a number below sixteen, in lower case.
pub open spec fn hex_digit(n: int) -> char {
    "0123456789abcdef"@[n]
}

/// The bytes written in hexadecimal, two lower-case digits for each.
pub open spec fn hex_lower(bytes: Seq<u8>) -> Seq<char>
    decreases bytes.len(),
{
    if bytes.len() == 0 {
        Seq::<char>::empty()
    } else {
        hex_lower(bytes.drop_last()).push(hex_digit(bytes.last() as int / 16)).push(
            hex_digit(bytes.last() as int % 16),
        )
    }
}

/// `Digest::new` for `md5::Md5`: a state that has taken in nothing.
#[verifier::external_body]
fn md5_new() -> (h: Md5State)
    ensures
        md5_absorbed(h) == Seq::<u8>::empty(),
{
    Md5State { inner: <md5::Md5 as digest::Digest>::new() }
}

/// `Digest::update` for `md5::Md5`: the state takes in the bytes behind
/// what it has.
#[verifier::external_body]
fn md5_update(h: &mut Md5State, data: &[u8])
    ensures
        md5_absorbed(*final(h)) == md5_absorbed(*old(h)) + data@,
{
    digest::Digest::update(&mut h.inner, data);
}

/// `Digest::finalize` for `md5::Md5`: the digest of all that the state has
/// taken in. Claimed: it depends on those bytes alone.
#[verifier::external_body]
fn md5_finalize(h: Md5State) -> (r: Vec<u8>)
    ensures
        r@ == md5_digest(md5_absorbed(h)),
{
    digest::Digest::finalize(h.inner).to_vec()
}

/// `Digest::new` for `sha2::Sha256`: a state that has taken in nothing.
#[verifier::external_body]
fn sha256_new() -> (h: Sha256State)
    ensures
        sha256_absorbed(h) == Seq::<u8>::empty(),
{
    Sha256State { inner: <sha2::Sha256 as digest::Digest>::new() }
}

/// `Digest::update` for `sha2::Sha256`: the state takes in the bytes
/// behind what it has.
#[verifier::external_body]
fn sha256_update(h: &mut Sha256State, data: &[u8])
    ensures
        sha256_absorbed(*final(h)) == sha256_absorbed(*old(h)) + data@,
{
    digest::Digest::update(&mut h.inner, data);
}

/// `Digest::finalize` for `sha2::Sha256`: the digest of all that the state
/// has taken in. Claimed: it depends on those bytes alone.
#[verifier::external_body]
fn sha256_finalize(h: Sha256State) -> (r: Vec<u8>)
    ensures
        r@ == sha256_digest(sha256_absorbed(h)),
{
    digest::Digest::finalize(h.inner).to_vec()
}

/// `hex::encode`: two lower-case hexadecimal digits for each byte.
#[verifier::external_body]
fn hex_encode(bytes: &[u8]) -> (r: String)
    ensures
        r@ == hex_lower(bytes@),
{
    hex::encode(bytes)
}

/// The bytes written in hexadecimal, in lower case.
pub fn to_hex(bytes: &[u8]) -> (r: String)
    ensures
        r@ == hex_lower(bytes@),
{
    hex_encode(bytes)
}

/// A digest that is computed while the bytes stream by.
pub enum Hasher {
    Md5(Md5State),
    Sha256(Sha256State),
}

impl Hasher {
    /// The bytes taken in so far.
    pub open spec fn absorbed(&self) -> Seq<u8> {
        match self {
            Hasher::Md5(h) => md5_absorbed(*h),
            Hasher::Sha256(h) => sha256_absorbed(*h),
        }
    }

    /// The digest of `data` with the algorithm of this hasher.
    pub open spec fn digest_of(&self, data: Seq<u8>) -> Seq<u8> {
        match self {
            Hasher::Md5(_) => md5_digest(data),
            Hasher::Sha256(_) => sha256_digest(data),
        }
    }

    /// A hasher for MD5 that has taken in nothing.
    pub fn md5() -> (r: Hasher)
        ensures
            r is Md5,
            r.absorbed() == Seq::<u8>::empty(),
    {
        Hasher::Md5(md5_new())
    }

    /// A hasher for SHA-256 that has taken in nothing.
    pub fn sha256() -> (r: Hasher)
        ensures
            r is Sha256,
            r.absorbed() == Seq::<u8>::empty(),
    {
        Hasher::Sha256(sha256_new())
    }

    /// The hasher for the algorithm of a checksum.
    pub fn for_checksum(checksum: &Checksum) -> (r: Hasher)
        ensures
            r.absorbed() == Seq::<u8>::empty(),
            (r is Sha256) == (checksum is Sha256),
    {
        match checksum {
            Checksum::Md5(_) => Hasher::md5(),
            Checksum::Sha256(_) => Hasher::sha256(),
        }
    }

    /// Takes in more bytes.
    pub fn update(&mut self, data: &[u8])
        ensures
            final(self).absorbed() == old(self).absorbed() + data@,
            (*final(self) is Sha256) == (*old(self) is Sha256),
    {
        match self {
            Hasher::Md5(h) => md5_update(h, data),
            Hasher::Sha256(h) => sha256_update(h, data),
        }
    }

    /// The digest of all the bytes taken in.
    #[must_use]
    pub fn finalize(self) -> (r: Vec<u8>)
        ensures
            r@ == self.digest_of(self.absorbed()),
    {
        match self {
            Hasher::Md5(h) => md5_finalize(h),
            Hasher::Sha256(h) => sha256_finalize(h),
        }
    }
}

/// The position of the first SHA-256 checksum, or the length of the list
/// where it holds none.
pub open spec fn first_sha256(checksums: Seq<ChecksumView>) -> int
    decreases checksums.len(),
{
    if checksums.len() == 0 {
        0
    } else if checksums[0] is Sha256 {
        0
    } else {
        1 + first_sha256(checksums.skip(1))
    }
}

/// The checksum that a download is verified against: the first SHA-256
/// where the file has one, else the first of any kind, else none.
pub open spec fn preferred(checksums: Seq<ChecksumView>) -> Option<ChecksumView> {
    if first_sha256(checksums) < checksums.len() {
        Some(checksums[first_sha256(checksums)])
    } else if checksums.len() > 0 {
        Some(checksums[0])
    } else {
        None
    }
}

/// The first SHA-256 checksum stands where no SHA-256 stands before it.
pub proof fn lemma_first_sha256(checksums: Seq<ChecksumView>)
    ensures
        0 <= first_sha256(checksums) <= checksums.len(),
        forall|k: int| 0 <= k < first_sha256(checksums) ==> !(checksums[k] is Sha256),
        first_sha256(checksums) < checksums.len() ==> checksums[first_sha256(checksums)] is Sha256,
    decreases checksums.len(),
{
    if checksums.len() > 0 && !(checksums[0] is Sha256) {
        let tail = checksums.skip(1);
        lemma_first_sha256(tail);
        assert forall|k: int| 0 <= k < first_sha256(checksums) implies !(checksums[k]
            is Sha256) by {
            if k > 0 {
                assert(checksums[k] == tail[k - 1]);
            }
        }
        if first_sha256(checksums) < checksums.len() {
            assert(checksums[first_sha256(checksums)] == tail[first_sha256(tail)]);
        }
    }
}

/// Where a file has a SHA-256 checksum, a SHA-256 checksum is preferred,
/// whatever else it has and in whatever order.
pub proof fn lemma_sha256_is_preferred(checksums: Seq<ChecksumView>, i: int)
    requires
        0 <= i < checksums.len(),
        checksums[i] is Sha256,
    ensures
        preferred(checksums) matches Some(c) && c is Sha256,
{
    lemma_first_sha256(checksums);
    if first_sha256(checksums) >= checksums.len() {
        assert(!(checksums[i] is Sha256));
    }
}

/// The checksum to verify a download against.
pub fn select_checksum(checksums: &Vec<Checksum>) -> (r: Option<&Checksum>)
    ensures
        match preferred(checksum_views(checksums@)) {
            Some(c) => r matches Some(x) && x@ == c,
            None => r is None,
        },
{
    let ghost all = checksum_views(checksums@);
    let mut i: usize = 0;
    proof {
        lemma_first_sha256(all);
    }
    while i < checksums.len()
        invariant
            i <= checksums.len(),
            all == checksum_views(checksums@),
            forall|k: int| 0 <= k < i ==> !(all[k] is Sha256),
            0 <= first_sha256(all) <= all.len(),
            first_sha256(all) < all.len() ==> all[first_sha256(all)] is Sha256,
            forall|k: int| 0 <= k < first_sha256(all) ==> !(all[k] is Sha256),
        decreases checksums.len() - i,
    {
        assert(all[i as int] == checksums@[i as int]@);
        match &checksums[i] {
            Checksum::Sha256(_) => {
                return Some(&checksums[i]);
            },
            Checksum::Md5(_) => {},
        }
        i += 1;
    }
    if checksums.len() > 0 {
        Some(&checksums[0])
    } else {
        None
    }
}

/// The hexadecimal text of a checksum.
pub open spec fn checksum_hex(c: ChecksumView) -> Seq<char> {
    match c {
        ChecksumView::Md5(h) => h,
        ChecksumView::Sha256(h) => h,
    }
}

/// The digest of `data` with the algorithm of a checksum.
pub open spec fn digest_for(c: ChecksumView, data: Seq<u8>) -> Seq<u8> {
    match c {
        ChecksumView::Md5(_) => md5_digest(data),
        ChecksumView::Sha256(_) => sha256_digest(data),
    }
}

/// The failure that the status of the reply to the GET of a file stands
/// for, if it stands for one: no response and a server error may be
/// retried, a client error may not.
pub open spec fn download_failure(url: Seq<char>, status: Option<u16>) -> Option<Failure> {
    match status {
        None => Some(temporary("fail to send http GET to "@ + url)),
        Some(code) => if 500 <= code < 600 {
            Some(temporary("fail to send http GET to "@ + url))
        } else if 400 <= code < 500 {
            Some(permanent("fail to send http GET to "@ + url))
        } else {
            None
        },
    }
}

/// Why finished bytes are refused, if they are: the size is known and is
/// not the number of bytes; or the size is right or unknown, a checksum is
/// known, and the digest of the bytes, in hexadecimal, differs from it by
/// more than the case of letters.
pub open spec fn refusal(
    size: Option<u64>,
    checksum: Option<ChecksumView>,
    data: Seq<u8>,
) -> Option<Failure> {
    if size is Some && size->0 != data.len() {
        Some(
            permanent(
                "size wrong, expect "@ + decimal(size->0 as nat) + ", got "@ + decimal(data.len()),
            ),
        )
    } else if checksum is Some && !same_ignoring_ascii_case(
        hex_lower(digest_for(checksum->0, data)),
        checksum_hex(checksum->0),
    ) {
        Some(
            permanent(
                "checksum wrong, expect "@ + checksum_hex(checksum->0) + ", got "@ + hex_lower(
                    digest_for(checksum->0, data),
                ),
            ),
        )
    } else {
        None
    }
}

/// Bytes that are accepted have the size that the provider named, and the
/// digest that it named; bytes that miss either are refused for good.
pub proof fn lemma_download_integrity(size: u64, hex: Seq<char>, data: Seq<u8>)
    ensures
        refusal(Some(size), Some(ChecksumView::Sha256(hex)), data) is None <==> (data.len() == size
            && same_ignoring_ascii_case(hex_lower(sha256_digest(data)), hex)),
        refusal(Some(size), Some(ChecksumView::Sha256(hex)), data) matches Some(f) ==> f.status
            == ErrorStatus::Permanent,
{
}

/// What a step reports that comes out of turn: a download that has failed
/// reports its failure again, with the status it failed with; any other
/// says where it stands, for good.
pub open spec fn out_of_turn(state: DownloadState) -> Failure {
    match state {
        DownloadState::Connecting => permanent("the download has not connected"@),
        DownloadState::Streaming => permanent("the download is streaming already"@),
        DownloadState::Verified => permanent("the download is over"@),
        DownloadState::Failed(status) => Failure { message: "the download has failed"@, status },
    }
}

/// Where a download stands.
#[derive(Debug, Clone, Copy, PartialEq, Eq, Structural)]
pub enum DownloadState {
    /// The request is not answered yet.
    Connecting,
    /// The body is arriving.
    Streaming,
    /// All bytes arrived and were accepted.
    Verified,
    /// The download failed, for good or for now.
    Failed(ErrorStatus),
}

/// The download of one file: what is expected of it, and what has arrived.
pub struct FileDownload {
    url: String,
    size: Option<u64>,
    checksum: Option<Checksum>,
    hasher: Option<Hasher>,
    received: u64,
    state: DownloadState,
    seen: Ghost<Seq<u8>>,
}

impl FileDownload {
    /// What holds of every download: it is not yet verified; the digest
    /// runs exactly where a checksum is expected, with its algorithm, over
    /// the bytes that arrived; and the count is their number.
    pub closed spec fn well_formed(&self) -> bool {
        &&& self.state != DownloadState::Verified
        &&& self.received == self.seen@.len()
        &&& match (self.checksum, self.hasher) {
            (Some(c), Some(h)) => h.absorbed() == self.seen@ && (h is Sha256) == (c is Sha256),
            (None, None) => true,
            _ => false,
        }
    }

    /// The URL that the file is downloaded from.
    pub closed spec fn url(&self) -> Seq<char> {
        self.url@
    }

    /// The size that is expected, if one is.
    pub closed spec fn expected_size(&self) -> Option<u64> {
        self.size
    }

    /// The checksum that is expected, if one is.
    pub closed spec fn expected_checksum(&self) -> Option<ChecksumView> {
        match self.checksum {
            Some(c) => Some(c@),
            None => None,
        }
    }

    /// The bytes that have arrived, in order.
    pub closed spec fn data(&self) -> Seq<u8> {
        self.seen@
    }

    /// Where the download stands.
    pub closed spec fn state_of(&self) -> DownloadState {
        self.state
    }

    /// The download of `file`, before the request is answered. It expects
    /// the size that the file names and the checksum that is preferred
    /// among those it names.
    pub fn start(file: &FileMeta) -> (r: FileDownload)
        ensures
            r.well_formed(),
            r.url() == file@.download_url,
            r.expected_size() == file@.size,
            r.expected_checksum() == preferred(file@.checksum),
            r.data() == Seq::<u8>::empty(),
            r.state_of() == DownloadState::Connecting,
    {
        let (checksum, hasher) = match select_checksum(&file.checksum) {
            Some(c) => (Some(c.clone()), Some(Hasher::for_checksum(c))),
            None => (None, None),
        };
        FileDownload {
            url: file.download_url.clone(),
            size: file.size,
            checksum,
            hasher,
            received: 0,
            state: DownloadState::Connecting,
            seen: Ghost(Seq::<u8>::empty()),
        }
    }

    /// Where the download stands.
    pub fn state(&self) -> (r: DownloadState)
        ensures
            r == self.state_of(),
    {
        self.state
    }

    /// The number of bytes that have arrived.
    pub fn received(&self) -> (r: u64)
        requires
            self.well_formed(),
        ensures
            r == self.data().len(),
    {
        self.received
    }

    /// The error of a step that comes out of turn.
    fn refuse(&self) -> (e: CrawlerError)
        ensures
            e@ == out_of_turn(self.state_of()),
    {
        match self.state {
            DownloadState::Connecting => CrawlerError {
                message: "the download has not connected".to_owned(),
                status: ErrorStatus::Permanent,
            },
            DownloadState::Streaming => CrawlerError {
                message: "the download is streaming already".to_owned(),
                status: ErrorStatus::Permanent,
            },
            DownloadState::Verified => CrawlerError {
                message: "the download is over".to_owned(),
                status: ErrorStatus::Permanent,
            },
            DownloadState::Failed(status) => CrawlerError {
                message: "the download has failed".to_owned(),
                status,
            },
        }
    }

    /// The request was answered with `status`, or not at all (`None`). The
    /// body streams from now on, unless the status stands for a failure.
    /// The result is `Ok` exactly when the body streams afterwards because
    /// of this answer; outside `Connecting` the step is refused and nothing
    /// changes.
    pub fn connected(&mut self, status: Option<u16>) -> (r: Result<(), CrawlerError>)
        requires
            old(self).well_formed(),
        ensures
            final(self).well_formed(),
            final(self).url() == old(self).url(),
            final(self).expected_size() == old(self).expected_size(),
            final(self).expected_checksum() == old(self).expected_checksum(),
            final(self).data() == old(self).data(),
            old(self).state_of() != DownloadState::Connecting ==> (r matches Err(e) && e@
                == out_of_turn(old(self).state_of())) && final(self).state_of() == old(
                self,
            ).state_of(),
            old(self).state_of() == DownloadState::Connecting ==> match download_failure(
                old(self).url(),
                status,
            ) {
                Some(f) => r matches Err(e) && e@ == f && final(self).state_of()
                    == DownloadState::Failed(f.status),
                None => r is Ok && final(self).state_of() == DownloadState::Streaming,
            },
    {
        if !matches!(self.state, DownloadState::Connecting) {
            return Err(self.refuse());
        }
        let failed = match status {
            None => Some(ErrorStatus::Temporary),
            Some(code) => if 500 <= code && code < 600 {
                Some(ErrorStatus::Temporary)
            } else if 400 <= code && code < 500 {
                Some(ErrorStatus::Permanent)
            } else {
                None
            },
        };
        match failed {
            Some(status) => {
                self.state = DownloadState::Failed(status);
                Err(
                    CrawlerError {
                        message: concat("fail to send http GET to ", self.url.as_str()),
                        status,
                    },
                )
            },
            None => {
                self.state = DownloadState::Streaming;
                Ok(())
            },
        }
    }

    /// More bytes of the body arrived. The result is `Ok` exactly when they
    /// were counted: outside `Streaming` the step is refused and nothing
    /// changes, and more bytes than 64 bits can count fail the download for
    /// good.
    pub fn chunk(&mut self, bytes: &[u8]) -> (r: Result<(), CrawlerError>)
        requires
            old(self).well_formed(),
        ensures
            final(self).well_formed(),
            final(self).url() == old(self).url(),
            final(self).expected_size() == old(self).expected_size(),
            final(self).expected_checksum() == old(self).expected_checksum(),
            old(self).state_of() != DownloadState::Streaming ==> {
                &&& r matches Err(e) && e@ == out_of_turn(old(self).state_of())
                &&& final(self).state_of() == old(self).state_of()
                &&& final(self).data() == old(self).data()
            },
            old(self).state_of() == DownloadState::Streaming ==> if old(self).data().len()
                + bytes@.len() <= u64::MAX {
                &&& r is Ok
                &&& final(self).state_of() == DownloadState::Streaming
                &&& final(self).data() == old(self).data() + bytes@
            } else {
                &&& r matches Err(e) && e@ == permanent("more bytes than can be counted"@)
                &&& final(self).state_of() == DownloadState::Failed(ErrorStatus::Permanent)
                &&& final(self).data() == old(self).data()
            },
    {
        if !matches!(self.state, DownloadState::Streaming) {
            return Err(self.refuse());
        }
        let n = bytes.len();
        if n as u64 > u64::MAX - self.received {
            self.state = DownloadState::Failed(ErrorStatus::Permanent);
            return Err(
                CrawlerError {
                    message: "more bytes than can be counted".to_owned(),
                    status: ErrorStatus::Permanent,
                },
            );
        }
        let hasher = match self.hasher.take() {
            Some(mut h) => {
                h.update(bytes);
                Some(h)
            },
            None => None,
        };
        let received = self.received + n as u64;
        let ghost seen = self.seen@ + bytes@;
        self.hasher = hasher;
        self.received = received;
        self.seen = Ghost(seen);
        Ok(())
    }

    /// The stream broke, or the bytes could not be written: the download
    /// has failed for good, with this message.
    pub fn broken(&mut self, message: &str) -> (r: CrawlerError)
        requires
            old(self).well_formed(),
        ensures
            final(self).well_formed(),
            r@ == permanent(message@),
            final(self).url() == old(self).url(),
            final(self).expected_size() == old(self).expected_size(),
            final(self).expected_checksum() == old(self).expected_checksum(),
            final(self).data() == old(self).data(),
            final(self).state_of() == DownloadState::Failed(ErrorStatus::Permanent),
    {
        self.state = DownloadState::Failed(ErrorStatus::Permanent);
        CrawlerError { message: message.to_owned(), status: ErrorStatus::Permanent }
    }

    /// The body has ended. The bytes are accepted unless they are refused
    /// for their size or their digest. The result is `Ok` exactly when the
    /// download ends as `Verified`: one that was not streaming stays where
    /// it stood and is refused.
    pub fn finish(self) -> (r: (DownloadState, Result<(), CrawlerError>))
        requires
            self.well_formed(),
        ensures
            r.1 is Ok <==> r.0 == DownloadState::Verified,
            self.state_of() != DownloadState::Streaming ==> r.0 == self.state_of() && (
            r.1 matches Err(e) && e@ == out_of_turn(self.state_of())),
            self.state_of() == DownloadState::Streaming ==> match refusal(
                self.expected_size(),
                self.expected_checksum(),
                self.data(),
            ) {
                Some(f) => r.0 == DownloadState::Failed(ErrorStatus::Permanent) && (r.1 matches Err(
                    e,
                ) && e@ == f),
                None => r.0 == DownloadState::Verified && r.1 is Ok,
            },
    {
        if !matches!(self.state, DownloadState::Streaming) {
            let refused = self.refuse();
            return (self.state, Err(refused));
        }
        if let Some(size) = self.size {
            if size != self.received {
                let mut m = concat("size wrong, expect ", decimal_string(size).as_str());
                m.append(", got ");
                m.append(decimal_string(self.received).as_str());
                return (
                    DownloadState::Failed(ErrorStatus::Permanent),
                    Err(CrawlerError { message: m, status: ErrorStatus::Permanent }),
                );
            }
        }
        match (self.checksum, self.hasher) {
            (Some(checksum), Some(hasher)) => {
                let digest = hasher.finalize();
                let got = to_hex(digest.as_slice());
                let expected = match &checksum {
                    Checksum::Md5(h) => h,
                    Checksum::Sha256(h) => h,
                };
                if eq_ignore_ascii_case(got.as_str(), expected.as_str()) {
                    (DownloadState::Verified, Ok(()))
                } else {
                    let mut m = concat("checksum wrong, expect ", expected.as_str());
                    m.append(", got ");
                    m.append(got.as_str());
                    (
                        DownloadState::Failed(ErrorStatus::Permanent),
                        Err(CrawlerError { message: m, status: ErrorStatus::Permanent }),
                    )
                }
            },
            _ => (DownloadState::Verified, Ok(())),
        }
    }
}

} // verus!
