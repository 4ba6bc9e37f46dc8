//! The walk through the file tree of a dataset, as a machine that says
//! what to do next: list a directory, hand out an entry, or stop.
use vstd::prelude::*;
use crate::error::{ErrorStatus, Failure};
use crate::repo::{
    dir_text, entry_views, repo_error_text, DirMeta, DirMetaView, Entry, EntryView, RepoError,
};
use crate::text::concat;

verus! {

/// A walk that failed.
#[derive(Debug)]
pub struct CrawlerError {
    pub message: String,
    pub status: ErrorStatus,
}

impl View for CrawlerError {
    type V = Failure;

    open spec fn view(&self) -> Failure {
        Failure { message: self.message@, status: self.status }
    }
}

impl CrawlerError {
    /// The text of this error, as it is shown to a user.
    pub fn to_string(&self) -> (r: String)
        ensures
            r@ == "crawler fail: "@ + self.message@,
    {
        concat("crawler fail: ", self.message.as_str())
    }
}

/// What the walk asks for next.
#[derive(Debug)]
pub enum CrawlAction {
    /// List this directory and report what came of it.
    List(DirMeta),
    /// Hand this entry to the consumer.
    Yield(Entry),
    /// Hand this error to the consumer; the walk is over.
    Fail(CrawlerError),
    /// The walk is over.
    Done,
}

/// An action, as mathematics.
pub enum CrawlActionView {
    List(DirMetaView),
    Yield(EntryView),
    Fail(Failure),
    Done,
}

impl View for CrawlAction {
    type V = CrawlActionView;

    open spec fn view(&self) -> CrawlActionView {
        match self {
            CrawlAction::List(d) => CrawlActionView::List(d@),
            CrawlAction::Yield(e) => CrawlActionView::Yield(e@),
            CrawlAction::Fail(e) => CrawlActionView::Fail(e@),
            CrawlAction::Done => CrawlActionView::Done,
        }
    }
}

/// The state of a walk, as mathematics: the entries that are known and not
/// yet handed out, the next one first; the directory whose listing is
/// awaited; the failure that is still to be reported.
pub struct CrawlerView {
    pub pending: Seq<EntryView>,
    pub awaiting: Option<DirMetaView>,
    pub failure: Option<Failure>,
}

/// The failure of the walk when a directory cannot be listed: it names the
/// directory and carries the text of the failed listing behind it.
pub open spec fn listing_failure(dir: DirMetaView, cause: Failure) -> Failure {
    Failure {
        message: "cannot list all entries of '"@ + dir_text(dir) + "', after retry: "@
            + repo_error_text(cause),
        status: ErrorStatus::Persistent,
    }
}

/// The state in which a walk is over.
pub open spec fn finished() -> CrawlerView {
    CrawlerView { pending: Seq::<EntryView>::empty(), awaiting: None, failure: None }
}

/// The directory that an entry is, if it is one.
pub open spec fn as_dir(e: EntryView) -> Option<DirMetaView> {
    match e {
        EntryView::Dir(d) => Some(d),
        EntryView::File(_) => None,
    }
}

/// What a walk does next, and the state it is in afterwards. A failure is
/// reported once, and ends the walk. A directory whose listing is awaited
/// is asked for until the listing is reported. Else the next known entry
/// is handed out; if it is a directory, its listing is awaited from then
/// on, so that its contents come directly behind it.
pub open spec fn step(s: CrawlerView) -> (CrawlerView, CrawlActionView) {
    if s.failure is Some {
        (finished(), CrawlActionView::Fail(s.failure->0))
    } else if s.awaiting is Some {
        (s, CrawlActionView::List(s.awaiting->0))
    } else if s.pending.len() > 0 {
        (
            CrawlerView {
                pending: s.pending.skip(1),
                awaiting: as_dir(s.pending[0]),
                failure: None,
            },
            CrawlActionView::Yield(s.pending[0]),
        )
    } else {
        (s, CrawlActionView::Done)
    }
}

/// The state of a walk after the listing of the awaited directory was
/// reported: its entries stand before all that was known, in their order;
/// or, where the listing failed, nothing is left but the failure, which
/// carries that of the listing. A report
/// that no directory awaited changes nothing.
pub open spec fn after_listing(
    s: CrawlerView,
    listing: Result<Seq<EntryView>, Failure>,
) -> CrawlerView {
    match s.awaiting {
        None => s,
        Some(dir) => match listing {
            Ok(entries) => CrawlerView {
                pending: entries + s.pending,
                awaiting: None,
                failure: s.failure,
            },
            Err(cause) => CrawlerView {
                pending: Seq::<EntryView>::empty(),
                awaiting: None,
                failure: Some(listing_failure(dir, cause)),
            },
        },
    }
}

/// A listing, as mathematics.
pub open spec fn listing_view(listing: Result<Vec<Entry>, RepoError>) -> Result<
    Seq<EntryView>,
    Failure,
> {
    match listing {
        Ok(v) => Ok(entry_views(v@)),
        Err(e) => Err(e@),
    }
}

/// A walk through a dataset, depth first: a directory is handed out before
/// what it holds, and what it holds before what follows it.
#[derive(Debug)]
pub struct Crawler {
    /// The known entries that are not yet handed out, the next one last.
    stack: Vec<Entry>,
    awaiting: Option<DirMeta>,
    failure: Option<CrawlerError>,
}

/// The entries of a stack in the order in which they leave it.
pub open spec fn leaving_order(stack: Seq<Entry>) -> Seq<EntryView> {
    Seq::new(stack.len(), |i: int| stack[stack.len() - 1 - i]@)
}

impl View for Crawler {
    type V = CrawlerView;

    closed spec fn view(&self) -> CrawlerView {
        CrawlerView {
            pending: leaving_order(self.stack@),
            awaiting: match self.awaiting {
                Some(d) => Some(d@),
                None => None,
            },
            failure: match self.failure {
                Some(e) => Some(e@),
                None => None,
            },
        }
    }
}

impl Crawler {
    /// The walk that starts with the listing of `root`.
    pub fn new(root: DirMeta) -> (r: Crawler)
        ensures
            r@ == (CrawlerView {
                pending: Seq::<EntryView>::empty(),
                awaiting: Some(root@),
                failure: None,
            }),
    {
        let r = Crawler { stack: Vec::new(), awaiting: Some(root), failure: None };
        proof {
            assert(leaving_order(r.stack@) =~= Seq::<EntryView>::empty());
        }
        r
    }

    /// Says what to do next.
    pub fn next(&mut self) -> (action: CrawlAction)
        ensures
            (final(self)@, action@) == step(old(self)@),
    {
        if self.failure.is_some() {
            let failure = self.failure.take();
            self.stack = Vec::new();
            self.awaiting = None;
            proof {
                assert(leaving_order(self.stack@) =~= Seq::<EntryView>::empty());
            }
            match failure {
                Some(e) => CrawlAction::Fail(e),
                None => CrawlAction::Done,
            }
        } else if let Some(dir) = &self.awaiting {
            CrawlAction::List(dir.clone())
        } else {
            let ghost before = self.stack@;
            match self.stack.pop() {
                Some(entry) => {
                    proof {
                        assert(leaving_order(self.stack@) =~= leaving_order(before).skip(1));
                    }
                    match &entry {
                        Entry::Dir(d) => {
                            self.awaiting = Some(d.clone());
                        },
                        Entry::File(_) => {},
                    }
                    CrawlAction::Yield(entry)
                },
                None => CrawlAction::Done,
            }
        }
    }

    /// Reports the listing of the directory that the walk asked for.
    pub fn listed(&mut self, listing: Result<Vec<Entry>, RepoError>)
        ensures
            final(self)@ == after_listing(old(self)@, listing_view(listing)),
    {
        let dir = match self.awaiting.take() {
            Some(d) => d,
            None => {
                return ;
            },
        };
        match listing {
            Ok(entries) => {
                let ghost fresh = entry_views(entries@);
                let ghost known = leaving_order(self.stack@);
                let ghost failure = self.failure;
                let mut rest = entries;
                while rest.len() > 0
                    invariant
                        self.awaiting is None,
                        self.failure == failure,
                        rest@.len() <= fresh.len(),
                        entry_views(rest@) == fresh.take(rest@.len() as int),
                        leaving_order(self.stack@) == fresh.skip(rest@.len() as int) + known,
                    decreases rest.len(),
                {
                    let ghost rest_before = rest@;
                    let ghost stack_before = self.stack@;
                    match rest.pop() {
                        Some(e) => {
                            self.stack.push(e);
                            proof {
                                let n = rest@.len() as int;
                                assert(entry_views(rest_before)[n] == e@);
                                assert(leaving_order(self.stack@) =~= seq![e@] + leaving_order(
                                    stack_before,
                                ));
                            }
                        },
                        None => {},
                    }
                }
                proof {
                    assert(fresh.skip(0) =~= fresh);
                }
            },
            Err(cause) => {
                let text = dir.to_string();
                let mut m = concat("cannot list all entries of '", text.as_str());
                m.append("', after retry: ");
                m.append(cause.to_string().as_str());
                self.stack = Vec::new();
                self.failure = Some(CrawlerError { message: m, status: ErrorStatus::Persistent });
                proof {
                    assert(leaving_order(self.stack@) =~= Seq::<EntryView>::empty());
                }
            },
        }
    }
}

} // verus!
