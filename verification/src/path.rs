//! Logical, slash-separated crawl paths with a marker for the crawl root.
use vstd::prelude::*;
use crate::text::{
    concat, ends_with_char, has_prefix, join, join_with, skip_chars, slice_of, split,
    split_at_char, starts_with_char, str_eq, views,
};

verus! {

/// The marker that an absolute crawl path begins with.
pub open spec fn root_marker() -> Seq<char> {
    "__ROOT__"@
}

/// Whether a path text is absolute: it begins with the root marker.
pub open spec fn is_absolute_text(p: Seq<char>) -> bool {
    root_marker().is_prefix_of(p)
}

/// `p` extended by `segment`, with one `/` put between them unless `p`
/// already ends in one.
pub open spec fn join_text(p: Seq<char>, segment: Seq<char>) -> Seq<char> {
    if p.len() > 0 && p.last() == '/' {
        p + segment
    } else {
        p.push('/') + segment
    }
}

/// An absolute path without the root marker and without one `/` behind it;
/// a relative path as it is.
pub open spec fn relative_text(p: Seq<char>) -> Seq<char> {
    if is_absolute_text(p) {
        let rest = p.skip(root_marker().len() as int);
        if rest.len() > 0 && rest[0] == '/' {
            rest.skip(1)
        } else {
            rest
        }
    } else {
        p
    }
}

/// A location in the logical file tree of a dataset. Not a file-system
/// path: the separator is always `/`, and nothing is normalised.
#[derive(Debug)]
pub struct CrawlPath(String);

impl View for CrawlPath {
    type V = Seq<char>;

    closed spec fn view(&self) -> Seq<char> {
        self.0@
    }
}

impl Clone for CrawlPath {
    fn clone(&self) -> (r: Self)
        ensures
            r@ == self@,
    {
        CrawlPath(self.0.clone())
    }
}

impl CrawlPath {
    /// The path whose text is `text`.
    pub fn from_text(text: &str) -> (r: CrawlPath)
        ensures
            r@ == text@,
    {
        CrawlPath(text.to_owned())
    }

    /// This path extended by one segment.
    #[must_use]
    pub fn join(&self, p: &str) -> (r: CrawlPath)
        ensures
            r@ == join_text(self@, p@),
    {
        if ends_with_char(self.0.as_str(), '/') {
            CrawlPath(concat(self.0.as_str(), p))
        } else {
            let with_slash = concat(self.0.as_str(), "/");
            proof {
                reveal_strlit("/");
                assert(with_slash@ =~= self.0@.push('/'));
            }
            CrawlPath(concat(with_slash.as_str(), p))
        }
    }

    /// The text of this path.
    #[must_use]
    pub fn as_str(&self) -> (r: &str)
        ensures
            r@ == self@,
    {
        self.0.as_str()
    }

    /// The root of a crawl: the marker alone.
    #[must_use]
    pub fn root() -> (r: CrawlPath)
        ensures
            r@ == root_marker(),
    {
        CrawlPath("__ROOT__".to_owned())
    }

    /// Whether this path starts from the crawl root.
    #[must_use]
    pub fn is_absolute(&self) -> (r: bool)
        ensures
            r == is_absolute_text(self@),
    {
        has_prefix(self.0.as_str(), "__ROOT__")
    }

    /// This path as a relative one: the text below the crawl root. The root
    /// itself gives the empty path.
    #[must_use]
    pub fn relative(&self) -> (r: CrawlPath)
        ensures
            r@ == relative_text(self@),
    {
        if !self.is_absolute() {
            return self.clone();
        }
        proof {
            reveal_strlit("__ROOT__");
        }
        let rest = skip_chars(self.0.as_str(), 8);
        if starts_with_char(rest.as_str(), '/') {
            CrawlPath(skip_chars(rest.as_str(), 1))
        } else {
            CrawlPath(rest)
        }
    }
}

/// Joining a segment to the root and taking the relative path gives the
/// segment back.
pub proof fn lemma_root_join_relative(segment: Seq<char>)
    ensures
        relative_text(join_text(root_marker(), segment)) == segment,
{
    reveal_strlit("__ROOT__");
    let joined = join_text(root_marker(), segment);
    assert(joined.skip(8) =~= seq!['/'] + segment);
}

/// The relative path of the root is empty.
pub proof fn lemma_root_relative_is_empty()
    ensures
        relative_text(root_marker()) == Seq::<char>::empty(),
{
    reveal_strlit("__ROOT__");
}

/// Joining a segment changes neither an absolute path into a relative one
/// nor a relative path into an absolute one.
pub proof fn lemma_join_keeps_absolute(p: Seq<char>, segment: Seq<char>)
    ensures
        is_absolute_text(join_text(p, segment)) == is_absolute_text(p),
{
    reveal_strlit("__ROOT__");
    let j = join_text(p, segment);
    if p.len() >= 8 {
        assert(j.subrange(0, 8) =~= p.subrange(0, 8));
    } else {
        // the joined text has a `/` among its first eight characters, or is shorter
        if j.len() >= 8 {
            if p.len() > 0 && p.last() == '/' {
                assert(j.subrange(0, 8)[p.len() - 1] == '/');
            } else {
                assert(j.subrange(0, 8)[p.len() as int] == '/');
            }
        }
    }
}

/// The relative path of an absolute path is relative, unless what stands
/// behind the root marker, or behind the marker and one `/`, begins with the
/// marker again. A relative path is its own relative path.
pub proof fn lemma_relative_is_relative(p: Seq<char>)
    requires
        is_absolute_text(p) ==> {
            let rest = p.skip(root_marker().len() as int);
            &&& !is_absolute_text(rest)
            &&& !(rest.len() > 0 && rest[0] == '/' && is_absolute_text(rest.skip(1)))
        },
    ensures
        !is_absolute_text(relative_text(p)),
        !is_absolute_text(p) ==> relative_text(p) == p,
{
}

/// The segments that count when a path is shown: those that are neither
/// empty nor a single dot.
pub open spec fn shown_segments(pieces: Seq<Seq<char>>) -> Seq<Seq<char>>
    decreases pieces.len(),
{
    if pieces.len() == 0 {
        pieces
    } else {
        let before = shown_segments(pieces.drop_last());
        if pieces.last().len() == 0 || pieces.last() == "."@ {
            before
        } else {
            before.push(pieces.last())
        }
    }
}

/// The segments with all but the last cut down to their first character.
pub open spec fn cut_short(names: Seq<Seq<char>>) -> Seq<Seq<char>> {
    Seq::new(
        names.len(),
        |i: int|
            if i + 1 < names.len() {
                names[i].take(1)
            } else {
                names[i]
            },
    )
}

/// A path as it is shown where room is short: every directory by its first
/// character, the name of the file in full.
pub open spec fn compact_text(path: Seq<char>) -> Seq<char> {
    join(cut_short(shown_segments(split(path, '/'))), "/"@)
}

/// A path made short for display: `data/raw/table.csv` becomes
/// `d/r/table.csv`. Empty segments and single dots are left out.
pub fn compact_path(full_path: &str) -> (r: String)
    ensures
        r@ == compact_text(full_path@),
{
    let pieces = split_at_char(full_path, '/');
    let ghost all = views(pieces@);
    let mut names: Vec<String> = Vec::new();
    let mut i: usize = 0;
    while i < pieces.len()
        invariant
            i <= pieces.len(),
            all == views(pieces@),
            views(names@) == shown_segments(all.take(i as int)),
            forall|k: int| 0 <= k < names@.len() ==> (#[trigger] names@[k])@.len() > 0,
        decreases pieces.len() - i,
    {
        proof {
            let now = all.take(i + 1);
            assert(now.drop_last() =~= all.take(i as int));
        }
        let piece = pieces[i].as_str();
        if piece.unicode_len() > 0 && !str_eq(piece, ".") {
            names.push(pieces[i].clone());
        }
        i += 1;
    }
    proof {
        assert(all.take(all.len() as int) =~= all);
    }
    let ghost shown = views(names@);
    let mut out: Vec<String> = Vec::new();
    let mut j: usize = 0;
    while j < names.len()
        invariant
            j <= names.len(),
            shown == views(names@),
            forall|k: int| 0 <= k < names@.len() ==> (#[trigger] names@[k])@.len() > 0,
            out@.len() == j,
            forall|k: int| 0 <= k < j ==> (#[trigger] out@[k])@ == cut_short(shown)[k],
        decreases names.len() - j,
    {
        if j + 1 < names.len() {
            out.push(slice_of(names[j].as_str(), 0, 1));
        } else {
            out.push(names[j].clone());
        }
        j += 1;
    }
    proof {
        assert(views(out@) =~= cut_short(shown));
    }
    join_with(&out, "/")
}

} // verus!
