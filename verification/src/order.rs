//! The order in which a walk hands out the entries of a file tree, and what
//! follows from it for paths.
use vstd::prelude::*;
use crate::crawler::{after_listing, step, CrawlActionView, CrawlerView};
use crate::error::Failure;
use crate::path::join_text;
use crate::repo::{entry_path, DirMetaView, EntryView, FileMetaView};

verus! {

/// A file tree as a provider describes it: a file, or a directory with
/// what its listing holds, in the order of the listing.
pub enum Tree {
    File(FileMetaView),
    Dir(DirMetaView, Seq<Tree>),
}

/// The entry at the root of a tree.
pub open spec fn root_entry(t: Tree) -> EntryView {
    match t {
        Tree::File(f) => EntryView::File(f),
        Tree::Dir(d, _) => EntryView::Dir(d),
    }
}

/// The entries at the roots of the trees: what the listing of their
/// directory holds.
pub open spec fn roots(ts: Seq<Tree>) -> Seq<EntryView> {
    ts.map_values(|t: Tree| root_entry(t))
}

/// The entries of the trees, depth first: each tree in turn, its root
/// first, then what the root holds.
pub open spec fn preorder(ts: Seq<Tree>) -> Seq<EntryView>
    decreases ts,
{
    if ts.len() == 0 {
        Seq::<EntryView>::empty()
    } else {
        let inside = match ts[0] {
            Tree::File(_) => Seq::<EntryView>::empty(),
            Tree::Dir(_, held) => preorder(held),
        };
        seq![root_entry(ts[0])] + inside + preorder(ts.skip(1))
    }
}

/// The number of entries in the trees.
pub open spec fn count(ts: Seq<Tree>) -> nat
    decreases ts,
{
    if ts.len() == 0 {
        0
    } else {
        let inside = match ts[0] {
            Tree::File(_) => 0nat,
            Tree::Dir(_, held) => count(held),
        };
        1 + inside + count(ts.skip(1))
    }
}

/// Whether the listings of a provider are those of the trees: every
/// directory in them is listed as the roots of what it holds.
pub open spec fn describes(
    world: spec_fn(DirMetaView) -> Result<Seq<EntryView>, Failure>,
    ts: Seq<Tree>,
) -> bool
    decreases ts,
{
    forall|i: int|
        0 <= i < ts.len() ==> match #[trigger] ts[i] {
            Tree::File(_) => true,
            Tree::Dir(d, held) => world(d) == Ok::<Seq<EntryView>, Failure>(roots(held))
                && describes(world, held),
        }
}

/// The entries that a walk hands out from the state `s` on, within `fuel`
/// steps, when every directory that it asks for is listed as `world` says.
pub open spec fn walk(
    s: CrawlerView,
    world: spec_fn(DirMetaView) -> Result<Seq<EntryView>, Failure>,
    fuel: nat,
) -> Seq<EntryView>
    decreases fuel,
{
    if fuel == 0 {
        Seq::<EntryView>::empty()
    } else {
        let (after, action) = step(s);
        match action {
            CrawlActionView::List(dir) => walk(
                after_listing(after, world(dir)),
                world,
                (fuel - 1) as nat,
            ),
            CrawlActionView::Yield(e) => seq![e] + walk(after, world, (fuel - 1) as nat),
            _ => Seq::<EntryView>::empty(),
        }
    }
}

/// The state of a walk that knows the roots of the trees and awaits no
/// listing.
pub open spec fn knowing(ts: Seq<Tree>) -> CrawlerView {
    CrawlerView { pending: roots(ts), awaiting: None, failure: None }
}

/// The state in which the walk of a dataset starts.
pub open spec fn starting(root: DirMetaView) -> CrawlerView {
    CrawlerView { pending: Seq::<EntryView>::empty(), awaiting: Some(root), failure: None }
}

/// The entries of two runs of trees are those of the first, then those of
/// the second; and so are their numbers.
pub proof fn lemma_preorder_of_both(a: Seq<Tree>, b: Seq<Tree>)
    ensures
        preorder(a + b) == preorder(a) + preorder(b),
        count(a + b) == count(a) + count(b),
    decreases a.len(),
{
    if a.len() == 0 {
        assert(a + b =~= b);
        assert(preorder(a) + preorder(b) =~= preorder(b));
    } else {
        assert((a + b)[0] == a[0]);
        assert((a + b).skip(1) =~= a.skip(1) + b);
        lemma_preorder_of_both(a.skip(1), b);
        let inside = match a[0] {
            Tree::File(_) => Seq::<EntryView>::empty(),
            Tree::Dir(_, held) => preorder(held),
        };
        assert(seq![root_entry(a[0])] + inside + (preorder(a.skip(1)) + preorder(b)) =~= (
            seq![root_entry(a[0])] + inside + preorder(a.skip(1))) + preorder(b));
    }
}

/// Listings that are those of two runs of trees are those of both
/// together.
pub proof fn lemma_describes_both(
    world: spec_fn(DirMetaView) -> Result<Seq<EntryView>, Failure>,
    a: Seq<Tree>,
    b: Seq<Tree>,
)
    requires
        describes(world, a),
        describes(world, b),
    ensures
        describes(world, a + b),
{
    assert forall|i: int| 0 <= i < (a + b).len() implies match #[trigger] (a + b)[i] {
        Tree::File(_) => true,
        Tree::Dir(d, held) => world(d) == Ok::<Seq<EntryView>, Failure>(roots(held)) && describes(
            world,
            held,
        ),
    } by {
        if i < a.len() {
            assert((a + b)[i] == a[i]);
        } else {
            assert((a + b)[i] == b[i - a.len()]);
        }
    }
}

/// A walk that knows the roots of some trees hands out the entries of the
/// trees depth first, each directory directly before what it holds,
/// provided it is given two steps for each entry and one to stop.
pub proof fn lemma_walk_is_preorder(
    world: spec_fn(DirMetaView) -> Result<Seq<EntryView>, Failure>,
    ts: Seq<Tree>,
    fuel: nat,
)
    requires
        describes(world, ts),
        fuel > 2 * count(ts),
    ensures
        walk(knowing(ts), world, fuel) == preorder(ts),
    decreases fuel,
{
    let s = knowing(ts);
    if ts.len() == 0 {
        assert(roots(ts).len() == 0);
    } else {
        let rest = ts.skip(1);
        assert(roots(ts)[0] == root_entry(ts[0]));
        assert(roots(ts).skip(1) =~= roots(rest));
        assert(describes(world, rest)) by {
            assert forall|i: int| 0 <= i < rest.len() implies match #[trigger] rest[i] {
                Tree::File(_) => true,
                Tree::Dir(d, held) => world(d) == Ok::<Seq<EntryView>, Failure>(roots(held))
                    && describes(world, held),
            } by {
                assert(rest[i] == ts[i + 1]);
            }
        }
        match ts[0] {
            Tree::File(f) => {
                let after = step(s).0;
                assert(after == knowing(rest));
                lemma_walk_is_preorder(world, rest, (fuel - 1) as nat);
                assert(seq![root_entry(ts[0])] + Seq::<EntryView>::empty() + preorder(rest)
                    =~= seq![root_entry(ts[0])] + preorder(rest));
            },
            Tree::Dir(d, held) => {
                let asked = step(s).0;
                assert(asked == CrawlerView {
                    pending: roots(rest),
                    awaiting: Some(d),
                    failure: None,
                });
                assert(step(asked) == (asked, CrawlActionView::List(d)));
                let told = after_listing(asked, world(d));
                assert(roots(held) + roots(rest) =~= roots(held + rest));
                assert(told == knowing(held + rest));
                lemma_preorder_of_both(held, rest);
                lemma_describes_both(world, held, rest);
                lemma_walk_is_preorder(world, held + rest, (fuel - 2) as nat);
                assert(walk(asked, world, (fuel - 1) as nat) == preorder(held + rest));
                assert(seq![root_entry(ts[0])] + preorder(held) + preorder(rest) =~= seq![
                    root_entry(ts[0]),
                ] + (preorder(held) + preorder(rest)));
            },
        }
    }
}

/// The walk of a dataset hands out the entries of its tree depth first:
/// every directory before what it holds, and what it holds before what
/// follows the directory in its listing.
pub proof fn lemma_crawl_is_preorder(
    world: spec_fn(DirMetaView) -> Result<Seq<EntryView>, Failure>,
    root: DirMetaView,
    held: Seq<Tree>,
    fuel: nat,
)
    requires
        describes(world, seq![Tree::Dir(root, held)]),
        fuel > 2 * count(held) + 1,
    ensures
        walk(starting(root), world, fuel) == preorder(held),
{
    let top = seq![Tree::Dir(root, held)];
    assert(top[0] == Tree::Dir(root, held));
    let s = starting(root);
    assert(step(s) == (s, CrawlActionView::List(root)));
    assert(roots(held) + Seq::<EntryView>::empty() =~= roots(held));
    assert(after_listing(s, world(root)) == knowing(held));
    lemma_walk_is_preorder(world, held, (fuel - 1) as nat);
}

/// The path of the entry at the root of a tree.
pub open spec fn tree_path(t: Tree) -> Seq<char> {
    entry_path(root_entry(t))
}

/// Whether `child` is the path of something that lies directly in the
/// directory at `parent`: the parent's path, a slash, and a name that is not
/// empty and holds no slash.
pub open spec fn child_of(parent: Seq<char>, child: Seq<char>) -> bool {
    &&& child.len() > parent.len() + 1
    &&& forall|k: int| 0 <= k < parent.len() ==> child[k] == parent[k]
    &&& child[parent.len() as int] == '/'
    &&& forall|k: int| parent.len() < k < child.len() ==> child[k] != '/'
}

/// Joining a name to the path of a directory gives the path of a child of
/// the directory, provided the name is not empty and holds no slash, and the
/// path of the directory does not end in one.
pub proof fn lemma_join_names_a_child(parent: Seq<char>, name: Seq<char>)
    requires
        name.len() > 0,
        !name.contains('/'),
        parent.len() == 0 || parent.last() != '/',
    ensures
        child_of(parent, join_text(parent, name)),
        join_text(parent, name).last() != '/',
{
    let child = join_text(parent, name);
    assert(child =~= parent.push('/') + name);
    assert forall|k: int| parent.len() < k < child.len() implies child[k] != '/' by {
        assert(child[k] == name[k - parent.len() - 1]);
        assert(name.contains(name[k - parent.len() - 1]));
    }
    assert(child.last() == name.last());
    assert(name.contains(name.last()));
}

/// Whether the trees are named as the entries of the directory at
/// `parent`, and what they hold in turn: each path is the path of its
/// directory, a slash and a name without slash; and no two entries of one
/// directory have the same path.
pub open spec fn well_named(parent: Seq<char>, ts: Seq<Tree>) -> bool
    decreases ts,
{
    &&& forall|i: int|
        0 <= i < ts.len() ==> child_of(parent, tree_path(#[trigger] ts[i])) && match ts[i] {
            Tree::File(_) => true,
            Tree::Dir(d, held) => well_named(d.path, held),
        }
    &&& forall|i: int, j: int|
        0 <= i < j < ts.len() ==> tree_path(#[trigger] ts[i]) != tree_path(#[trigger] ts[j])
}

/// Whether the path `x` is `p` itself or lies below `p`.
pub open spec fn at_or_below(p: Seq<char>, x: Seq<char>) -> bool {
    x == p || p.push('/').is_prefix_of(x)
}

/// A path that is the child of a directory begins with the path of the
/// directory and a slash.
proof fn lemma_child_begins(parent: Seq<char>, child: Seq<char>)
    requires
        child_of(parent, child),
    ensures
        parent.push('/').is_prefix_of(child),
{
    assert(child.subrange(0, parent.len() + 1 as int) =~= parent.push('/'));
}

/// What begins with `b` begins with every beginning of `b`.
proof fn lemma_begins_with_beginning(a: Seq<char>, b: Seq<char>, x: Seq<char>)
    requires
        a.is_prefix_of(b),
        b.is_prefix_of(x),
    ensures
        a.is_prefix_of(x),
{
    assert(x.subrange(0, a.len() as int) =~= b.subrange(0, a.len() as int));
}

/// Below one child of a directory lies nothing that is another child of
/// it, or lies below another child.
proof fn lemma_children_are_apart(parent: Seq<char>, a: Seq<char>, b: Seq<char>, x: Seq<char>)
    requires
        child_of(parent, a),
        child_of(parent, b),
        a.push('/').is_prefix_of(x),
        at_or_below(b, x),
    ensures
        a == b,
{
    let head = x.subrange(0, a.len() + 1 as int);
    assert(head == a.push('/'));
    assert(x[a.len() as int] == head[a.len() as int]);
    assert forall|k: int| 0 <= k < a.len() implies x[k] == a[k] by {
        assert(x[k] == head[k]);
    }
    if x == b {
        assert(b[a.len() as int] == '/');
    } else {
        let other = x.subrange(0, b.len() + 1 as int);
        assert(other == b.push('/'));
        assert(x[b.len() as int] == other[b.len() as int]);
        assert forall|k: int| 0 <= k < b.len() implies x[k] == b[k] by {
            assert(x[k] == other[k]);
        }
        if a.len() < b.len() {
            assert(b[a.len() as int] == '/');
        } else if b.len() < a.len() {
            assert(a[b.len() as int] == '/');
        } else {
            assert(a =~= b);
        }
    }
}

/// The trees without the first are named as well as all of them.
proof fn lemma_rest_is_well_named(parent: Seq<char>, ts: Seq<Tree>)
    requires
        well_named(parent, ts),
        ts.len() > 0,
    ensures
        well_named(parent, ts.skip(1)),
{
    let rest = ts.skip(1);
    assert forall|i: int| 0 <= i < rest.len() implies child_of(
        parent,
        tree_path(#[trigger] rest[i]),
    ) && match rest[i] {
        Tree::File(_) => true,
        Tree::Dir(d, held) => well_named(d.path, held),
    } by {
        assert(rest[i] == ts[i + 1]);
    }
    assert forall|i: int, j: int| 0 <= i < j < rest.len() implies tree_path(#[trigger] rest[i])
        != tree_path(#[trigger] rest[j]) by {
        assert(rest[i] == ts[i + 1]);
        assert(rest[j] == ts[j + 1]);
    }
}

/// What the first tree holds.
pub open spec fn first_holds(ts: Seq<Tree>) -> Seq<Tree> {
    match ts[0] {
        Tree::File(_) => Seq::<Tree>::empty(),
        Tree::Dir(_, held) => held,
    }
}

/// The entries of trees are the root of the first, what it holds, and the
/// entries of the others.
proof fn lemma_preorder_parts(ts: Seq<Tree>)
    requires
        ts.len() > 0,
    ensures
        preorder(ts) == seq![root_entry(ts[0])] + preorder(first_holds(ts)) + preorder(ts.skip(1)),
        preorder(ts).len() == 1 + preorder(first_holds(ts)).len() + preorder(ts.skip(1)).len(),
{
    match ts[0] {
        Tree::File(_) => {
            assert(preorder(Seq::<Tree>::empty()) =~= Seq::<EntryView>::empty());
        },
        Tree::Dir(_, held) => {},
    }
}

/// Every entry of well-named trees lies at or below the root of one of
/// them; the result says which.
proof fn lemma_owner(parent: Seq<char>, ts: Seq<Tree>, k: int) -> (b: int)
    requires
        well_named(parent, ts),
        0 <= k < preorder(ts).len(),
    ensures
        0 <= b < ts.len(),
        child_of(parent, tree_path(ts[b])),
        at_or_below(tree_path(ts[b]), entry_path(preorder(ts)[k])),
        b == 0 <==> k < 1 + preorder(first_holds(ts)).len(),
    decreases ts,
{
    lemma_preorder_parts(ts);
    let held = first_holds(ts);
    let inside = preorder(held);
    if k == 0 {
        0
    } else if k < 1 + inside.len() {
        match ts[0] {
            Tree::File(_) => {
                assert(false);
            },
            Tree::Dir(d, h) => {
                assert(preorder(ts)[k] == inside[k - 1]);
                let c = lemma_owner(d.path, held, k - 1);
                let x = entry_path(inside[k - 1]);
                lemma_child_begins(d.path, tree_path(held[c]));
                if x != tree_path(held[c]) {
                    lemma_begins_with_beginning(
                        d.path.push('/'),
                        tree_path(held[c]).push('/'),
                        x,
                    );
                }
            },
        }
        0
    } else {
        let rest = ts.skip(1);
        lemma_rest_is_well_named(parent, ts);
        let shift = 1 + inside.len();
        assert(preorder(ts)[k] == preorder(rest)[k - shift]);
        let c = lemma_owner(parent, rest, k - shift);
        assert(rest[c] == ts[c + 1]);
        c + 1
    }
}

/// In the entries of well-named trees, depth first, a directory stands
/// before every entry whose path begins with the path of the directory and
/// a slash.
pub proof fn lemma_directory_comes_first(parent: Seq<char>, ts: Seq<Tree>, i: int, j: int)
    requires
        well_named(parent, ts),
        0 <= i < preorder(ts).len(),
        0 <= j < preorder(ts).len(),
        preorder(ts)[i] is Dir,
        entry_path(preorder(ts)[i]).push('/').is_prefix_of(entry_path(preorder(ts)[j])),
    ensures
        i < j,
    decreases ts,
{
    lemma_preorder_parts(ts);
    let out = preorder(ts);
    let held = first_holds(ts);
    let inside = preorder(held);
    let rest = ts.skip(1);
    let shift = 1 + inside.len();
    let dir = entry_path(out[i]);
    let x = entry_path(out[j]);
    if i < shift && j < shift {
        if i == 0 {
            // the path of the first root does not begin with itself and a slash
        } else {
            match ts[0] {
                Tree::File(_) => {
                    assert(false);
                },
                Tree::Dir(d, h) => {
                    assert(out[i] == inside[i - 1]);
                    if j == 0 {
                        let c = lemma_owner(d.path, held, i - 1);
                        lemma_child_begins(d.path, tree_path(held[c]));
                        if dir != tree_path(held[c]) {
                            lemma_begins_with_beginning(
                                d.path.push('/'),
                                tree_path(held[c]).push('/'),
                                dir,
                            );
                        }
                        assert(dir.len() > d.path.len());
                        assert(x == d.path);
                    } else {
                        assert(out[j] == inside[j - 1]);
                        lemma_directory_comes_first(d.path, held, i - 1, j - 1);
                    }
                },
            }
        }
    } else if i >= shift && j >= shift {
        lemma_rest_is_well_named(parent, ts);
        assert(out[i] == preorder(rest)[i - shift]);
        assert(out[j] == preorder(rest)[j - shift]);
        lemma_directory_comes_first(parent, rest, i - shift, j - shift);
    } else if j < shift {
        // the two lie in different trees, which keeps their paths apart
        let a = lemma_owner(parent, ts, i);
        let b = lemma_owner(parent, ts, j);
        let pa = tree_path(ts[a]);
        let pb = tree_path(ts[b]);
        assert(a != 0 && b == 0);
        assert(pa.push('/').is_prefix_of(x)) by {
            if dir != pa {
                assert(dir.subrange(0, pa.len() + 1 as int) =~= dir.push('/').subrange(
                    0,
                    pa.len() + 1 as int,
                ));
                lemma_begins_with_beginning(pa.push('/'), dir.push('/'), x);
            }
        }
        lemma_children_are_apart(parent, pa, pb, x);
    }
}

/// The walk of a dataset whose entries are well named hands out every
/// directory before every entry whose path begins with the path of the
/// directory and a slash.
pub proof fn lemma_crawl_order(
    world: spec_fn(DirMetaView) -> Result<Seq<EntryView>, Failure>,
    root: DirMetaView,
    held: Seq<Tree>,
    fuel: nat,
    i: int,
    j: int,
)
    requires
        describes(world, seq![Tree::Dir(root, held)]),
        well_named(root.path, held),
        fuel > 2 * count(held) + 1,
        0 <= i < walk(starting(root), world, fuel).len(),
        0 <= j < walk(starting(root), world, fuel).len(),
        walk(starting(root), world, fuel)[i] is Dir,
        entry_path(walk(starting(root), world, fuel)[i]).push('/').is_prefix_of(
            entry_path(walk(starting(root), world, fuel)[j]),
        ),
    ensures
        i < j,
{
    lemma_crawl_is_preorder(world, root, held, fuel);
    lemma_directory_comes_first(root.path, held, i, j);
}

} // verus!
