//! What holds of every mirror.
//!
//! The theorems here speak of [`mirror_of`], the function that
//! [`crate::replica::mirror`] computes, for every source tree, every rule set
//! and every destination.

use vstd::prelude::*;
use crate::matcher::path_denied;
use crate::mirror::{EntryKind, WalkItemView};
use crate::replica::{mirror_of, perform_of};
use crate::source::{
    has_parent_before, hidden, is_prefix, item_of, shut_out, source_at, walk_of, well_formed,
    SourceEntryView, SourceNodeView,
};
use crate::tree::{make_dirs, put_refusal, NodeView};

verus! {

/// What a mirror leaves in the destination for a node of the source: its
/// directory or its file, and nothing for what it cannot bring over.
pub open spec fn replica_of(node: SourceNodeView) -> Option<NodeView> {
    match node {
        SourceNodeView::Directory => Some(NodeView::Directory),
        SourceNodeView::File(content) => Some(NodeView::File(content)),
        _ => None,
    }
}

/// Whether a mirror fails on a node of the source: on a file whose bytes
/// cannot be read, and on what the walk cannot read.
pub open spec fn unreadable(node: SourceNodeView) -> bool {
    node is SealedFile || node is Broken
}

/// How many of the first `n` entries of the source a walk does not leave
/// out and a mirror fails on.
pub open spec fn unreadable_walked(
    denylist: Seq<Seq<char>>,
    source: Seq<SourceEntryView>,
    n: nat,
) -> nat
    decreases n,
{
    if n == 0 || n > source.len() {
        0
    } else {
        let before = unreadable_walked(denylist, source, (n - 1) as nat);
        if !hidden(denylist, source, source[n - 1].path) && unreadable(source[n - 1].node) {
            before + 1
        } else {
            before
        }
    }
}

/// Whether `tree` holds exactly the replicas of those of the first `n`
/// entries of the source that a walk does not leave out.
pub open spec fn holds_replicas(
    denylist: Seq<Seq<char>>,
    source: Seq<SourceEntryView>,
    n: int,
    tree: Map<Seq<Seq<char>>, NodeView>,
) -> bool {
    &&& forall|i: int|
        0 <= i < n && !hidden(denylist, source, (#[trigger] source[i]).path) && replica_of(
            source[i].node,
        ) is Some ==> tree.contains_key(source[i].path) && Some(tree[source[i].path])
            == replica_of(source[i].node)
    &&& forall|path: Seq<Seq<char>>| #[trigger]
        tree.contains_key(path) ==> exists|i: int|
            0 <= i < n && (#[trigger] source[i]).path == path && !hidden(
                denylist,
                source,
                source[i].path,
            ) && replica_of(source[i].node) is Some
}

/// In a well-formed source, every name on the way to an entry leads to an
/// entry that is listed no later, and every proper one to a directory that
/// is listed before.
pub proof fn ancestor_listed(source: Seq<SourceEntryView>, i: int, k: int) -> (j: int)
    requires
        well_formed(source),
        0 <= i < source.len(),
        1 <= k <= source[i].path.len(),
    ensures
        0 <= j <= i,
        source[j].path == source[i].path.take(k),
        k < source[i].path.len() ==> j < i && source[j].node is Directory,
    decreases i,
{
    let path = source[i].path;
    if k == path.len() {
        assert(path.take(k) =~= path);
        i
    } else {
        assert(has_parent_before(source, i));
        let p = choose|p: int|
            0 <= p < i && (#[trigger] source[p]).path == path.drop_last() && source[p].node
                is Directory;
        if k == path.len() - 1 {
            assert(path.take(k) =~= path.drop_last());
            p
        } else {
            let j = ancestor_listed(source, p, k);
            assert(path.drop_last().take(k) =~= path.take(k));
            j
        }
    }
}

/// In a well-formed source, an entry that a walk does not leave out has no
/// denied name on its path.
pub proof fn walked_path_not_denied(denylist: Seq<Seq<char>>, source: Seq<SourceEntryView>, i: int)
    requires
        well_formed(source),
        0 <= i < source.len(),
        !hidden(denylist, source, source[i].path),
    ensures
        !path_denied(denylist, source[i].path),
{
    let path = source[i].path;
    if path_denied(denylist, path) {
        let k = choose|k: int| 0 <= k < path.len() && denylist.contains(#[trigger] path[k]);
        let j = ancestor_listed(source, i, k + 1);
        assert(path.take(k + 1).last() == path[k]);
        assert(path.take(path.take(k + 1).len() as int) =~= path.take(k + 1));
        assert(is_prefix(source[j].path, path));
        assert(shut_out(denylist, source[j]));
    }
}

/// What leads to a path that a walk does not leave out is not left out
/// either.
pub proof fn prefix_not_hidden(
    denylist: Seq<Seq<char>>,
    source: Seq<SourceEntryView>,
    path: Seq<Seq<char>>,
    k: int,
)
    requires
        !hidden(denylist, source, path),
        0 <= k <= path.len(),
    ensures
        !hidden(denylist, source, path.take(k)),
{
    if hidden(denylist, source, path.take(k)) {
        let j = choose|j: int|
            0 <= j < source.len() && is_prefix((#[trigger] source[j]).path, path.take(k))
                && shut_out(denylist, source[j]);
        let short = source[j].path;
        assert(path.take(short.len() as int) =~= path.take(k).take(short.len() as int));
        assert(is_prefix(source[j].path, path));
    }
}

/// Creating directories that are all there changes nothing.
pub proof fn make_dirs_present(tree: Map<Seq<Seq<char>>, NodeView>, path: Seq<Seq<char>>, done: nat)
    requires
        done <= path.len(),
        forall|k: int|
            done < k <= path.len() ==> tree.contains_key(#[trigger] path.take(k)) && tree[path.take(
                k,
            )] is Directory,
    ensures
        make_dirs(tree, path, done) == (tree, true),
    decreases path.len() - done,
{
    if done < path.len() {
        assert(tree.contains_key(path.take(done as int + 1)));
        make_dirs_present(tree, path, done + 1);
    }
}

/// Creating a directory that is not there, below directories that are, adds
/// that directory and nothing else.
pub proof fn make_dirs_new(tree: Map<Seq<Seq<char>>, NodeView>, path: Seq<Seq<char>>, done: nat)
    requires
        done < path.len(),
        !tree.contains_key(path),
        forall|k: int|
            done < k < path.len() ==> tree.contains_key(#[trigger] path.take(k)) && tree[path.take(
                k,
            )] is Directory,
    ensures
        make_dirs(tree, path, done) == (tree.insert(path, NodeView::Directory), true),
    decreases path.len() - done,
{
    if done + 1 == path.len() {
        assert(path.take(done as int + 1) =~= path);
        let made = tree.insert(path, NodeView::Directory);
        assert(make_dirs(made, path, done + 1) == (made, true));
    } else {
        assert(tree.contains_key(path.take(done as int + 1)));
        make_dirs_new(tree, path, done + 1);
    }
}

/// In a source without two entries at one path, an entry is what the source
/// holds at its path.
pub proof fn source_at_entry(source: Seq<SourceEntryView>, i: int)
    requires
        0 <= i < source.len(),
        forall|a: int, b: int|
            0 <= a < b < source.len() ==> (#[trigger] source[a]).path != (#[trigger] source[b]).path,
    ensures
        source_at(source, source[i].path) == Some(source[i].node),
    decreases source.len(),
{
    if i == source.len() - 1 {
    } else {
        assert(source.last().path != source[i].path);
        let shorter = source.drop_last();
        assert(forall|a: int, b: int|
            0 <= a < b < shorter.len() ==> (#[trigger] shorter[a]).path != (
            #[trigger] shorter[b]).path) by {
            assert(forall|a: int| 0 <= a < shorter.len() ==> shorter[a] == source[a]);
        }
        source_at_entry(shorter, i);
    }
}

/// Dealing with one more entry of a well-formed source keeps the
/// destination at exactly the replicas of what the walk does not leave out.
proof fn replicas_step(
    denylist: Seq<Seq<char>>,
    source: Seq<SourceEntryView>,
    n: int,
    tree: Map<Seq<Seq<char>>, NodeView>,
)
    requires
        well_formed(source),
        0 <= n < source.len(),
        holds_replicas(denylist, source, n, tree),
        !hidden(denylist, source, source[n].path),
    ensures
        holds_replicas(
            denylist,
            source,
            n + 1,
            perform_of(denylist, source, tree, item_of(source[n])).0,
        ),
        perform_of(denylist, source, tree, item_of(source[n])).1 is Some <==> unreadable(
            source[n].node,
        ),
{
    let entry = source[n];
    let path = entry.path;
    let after = perform_of(denylist, source, tree, item_of(entry)).0;
    walked_path_not_denied(denylist, source, n);
    // Nothing is at the entry's own path yet.
    assert(!tree.contains_key(path)) by {
        if tree.contains_key(path) {
            let i = choose|i: int| 0 <= i < n && (#[trigger] source[i]).path == path;
            assert(source[i].path != source[n].path);
        }
    }
    // Every directory on the way to the entry is there.
    assert forall|k: int| 0 < k < path.len() implies tree.contains_key(#[trigger] path.take(k))
        && tree[path.take(k)] is Directory by {
        let j = ancestor_listed(source, n, k);
        prefix_not_hidden(denylist, source, path, k);
        assert(replica_of(source[j].node) is Some);
    }
    match entry.node {
        SourceNodeView::Directory => {
            make_dirs_new(tree, path, 0);
            assert(after == tree.insert(path, NodeView::Directory));
        },
        SourceNodeView::File(content) => {
            let parent = path.drop_last();
            assert forall|k: int| 0 < k <= parent.len() implies tree.contains_key(
                #[trigger] parent.take(k),
            ) && tree[parent.take(k)] is Directory by {
                assert(parent.take(k) =~= path.take(k));
            }
            make_dirs_present(tree, parent, 0);
            source_at_entry(source, n);
            if path.len() > 1 {
                assert(parent =~= path.take(path.len() - 1));
            }
            assert(put_refusal(tree, path) is None);
            assert(after == tree.insert(path, NodeView::File(content)));
        },
        SourceNodeView::SealedFile => {
            let parent = path.drop_last();
            assert forall|k: int| 0 < k <= parent.len() implies tree.contains_key(
                #[trigger] parent.take(k),
            ) && tree[parent.take(k)] is Directory by {
                assert(parent.take(k) =~= path.take(k));
            }
            make_dirs_present(tree, parent, 0);
            source_at_entry(source, n);
            assert(after == tree);
        },
        SourceNodeView::Other => {
            assert(after == tree);
        },
        SourceNodeView::Broken(_) => {
            assert(after == tree);
        },
    }
    assert forall|i: int|
        0 <= i < n + 1 && !hidden(denylist, source, (#[trigger] source[i]).path) && replica_of(
            source[i].node,
        ) is Some implies after.contains_key(source[i].path) && Some(after[source[i].path])
        == replica_of(source[i].node) by {
        if i < n {
            assert(source[i].path != source[n].path);
        }
    }
    assert forall|p: Seq<Seq<char>>| #[trigger] after.contains_key(p) implies exists|i: int|
        0 <= i < n + 1 && (#[trigger] source[i]).path == p && !hidden(
            denylist,
            source,
            source[i].path,
        ) && replica_of(source[i].node) is Some by {
        if tree.contains_key(p) {
            let i = choose|i: int|
                0 <= i < n && (#[trigger] source[i]).path == p && !hidden(
                    denylist,
                    source,
                    source[i].path,
                ) && replica_of(source[i].node) is Some;
            assert(0 <= i < n + 1);
        } else {
            assert(p == path);
            assert(source[n].path == p);
        }
    }
}

/// Mirroring the first `n` entries of a well-formed source into an empty
/// destination leaves exactly their replicas there.
proof fn replicas_upto(denylist: Seq<Seq<char>>, source: Seq<SourceEntryView>, n: nat)
    requires
        well_formed(source),
        n <= source.len(),
    ensures
        holds_replicas(
            denylist,
            source,
            n as int,
            mirror_of(denylist, source, Map::empty(), walk_of(denylist, source, n)).0,
        ),
        mirror_of(denylist, source, Map::empty(), walk_of(denylist, source, n)).1.len()
            == unreadable_walked(denylist, source, n),
    decreases n,
{
    let empty = Map::<Seq<Seq<char>>, NodeView>::empty();
    if n == 0 {
        let items = walk_of(denylist, source, 0);
        assert(items.drop_last() =~= Seq::<WalkItemView>::empty());
        assert(mirror_of(denylist, source, empty, items.drop_last()).0 == empty);
        assert(mirror_of(denylist, source, empty, items.drop_last()).1.len() == 0);
        assert(mirror_of(denylist, source, empty, items).0 == empty);
        assert(mirror_of(denylist, source, empty, items).1.len() == 0);
    } else {
        replicas_upto(denylist, source, (n - 1) as nat);
        let before = walk_of(denylist, source, (n - 1) as nat);
        let tree = mirror_of(denylist, source, empty, before).0;
        if hidden(denylist, source, source[n - 1].path) {
            assert(holds_replicas(denylist, source, n as int, tree));
        } else {
            let items = before.push(item_of(source[n - 1]));
            assert(items.drop_last() =~= before);
            replicas_step(denylist, source, n - 1, tree);
        }
    }
}

/// Mirroring a well-formed source into an empty destination brings over
/// every directory and every readable file that the walk does not leave out,
/// each at its own path and each file with its bytes, and nothing else: what
/// a rule file matches or the denylist names, and what lies below it, is
/// absent. What cannot be read stops nothing: it adds one failure each, and
/// nothing else fails.
pub proof fn mirror_into_empty(denylist: Seq<Seq<char>>, source: Seq<SourceEntryView>)
    requires
        well_formed(source),
    ensures
        ({
            let tree = mirror_of(
                denylist,
                source,
                Map::empty(),
                walk_of(denylist, source, source.len()),
            ).0;
            &&& forall|i: int|
                0 <= i < source.len() && hidden(denylist, source, (#[trigger] source[i]).path)
                    ==> !tree.contains_key(source[i].path)
            &&& forall|i: int|
                0 <= i < source.len() && !hidden(denylist, source, (#[trigger] source[i]).path)
                    ==> match source[i].node {
                    SourceNodeView::Directory => tree.contains_key(source[i].path)
                        && tree[source[i].path] is Directory,
                    SourceNodeView::File(content) => tree.contains_key(source[i].path)
                        && tree[source[i].path] == NodeView::File(content),
                    _ => !tree.contains_key(source[i].path),
                }
            &&& forall|path: Seq<Seq<char>>| #[trigger]
                tree.contains_key(path) ==> exists|i: int|
                    0 <= i < source.len() && (#[trigger] source[i]).path == path
        }),
        mirror_of(
            denylist,
            source,
            Map::empty(),
            walk_of(denylist, source, source.len()),
        ).1.len() == unreadable_walked(denylist, source, source.len()),
{
    let tree = mirror_of(denylist, source, Map::empty(), walk_of(denylist, source, source.len())).0;
    replicas_upto(denylist, source, source.len());
    assert forall|i: int|
        0 <= i < source.len() && (hidden(denylist, source, (#[trigger] source[i]).path)
            || replica_of(source[i].node) is None) implies !tree.contains_key(source[i].path) by {
        if tree.contains_key(source[i].path) {
            let j = choose|j: int|
                0 <= j < source.len() && (#[trigger] source[j]).path == source[i].path && !hidden(
                    denylist,
                    source,
                    source[j].path,
                ) && replica_of(source[j].node) is Some;
            if j < i {
                assert(source[j].path != source[i].path);
            } else if i < j {
                assert(source[i].path != source[j].path);
            }
        }
    }
}

/// Whether no path of the tree has a denied name on it.
pub open spec fn free_of_denied(denylist: Seq<Seq<char>>, tree: Map<Seq<Seq<char>>, NodeView>) -> bool {
    forall|path: Seq<Seq<char>>| #[trigger] tree.contains_key(path) ==> !path_denied(denylist, path)
}

/// What leads to a path without a denied name has no denied name either.
pub proof fn prefix_not_denied(denylist: Seq<Seq<char>>, path: Seq<Seq<char>>, k: int)
    requires
        !path_denied(denylist, path),
        0 <= k <= path.len(),
    ensures
        !path_denied(denylist, path.take(k)),
{
    if path_denied(denylist, path.take(k)) {
        let m = choose|m: int| 0 <= m < path.take(k).len() && denylist.contains(#[trigger] path.take(k)[m]);
        assert(path.take(k)[m] == path[m]);
    }
}

/// Creating the directories of a path without a denied name brings no
/// denied name into the tree.
pub proof fn make_dirs_free_of_denied(
    denylist: Seq<Seq<char>>,
    tree: Map<Seq<Seq<char>>, NodeView>,
    path: Seq<Seq<char>>,
    done: nat,
)
    requires
        free_of_denied(denylist, tree),
        !path_denied(denylist, path),
    ensures
        free_of_denied(denylist, make_dirs(tree, path, done).0),
    decreases path.len() - done,
{
    if done < path.len() {
        let prefix = path.take(done as int + 1);
        prefix_not_denied(denylist, path, done as int + 1);
        if tree.contains_key(prefix) {
            if tree[prefix] is Directory {
                make_dirs_free_of_denied(denylist, tree, path, done + 1);
            }
        } else {
            let made = tree.insert(prefix, NodeView::Directory);
            assert(free_of_denied(denylist, made));
            make_dirs_free_of_denied(denylist, made, path, done + 1);
        }
    }
}

/// A name on the denylist never arrives in the destination: whatever the
/// source holds, whatever the rule files say and whatever a walk yields, a
/// mirror adds no path with a denied name on it.
pub proof fn denied_names_never_arrive(
    denylist: Seq<Seq<char>>,
    source: Seq<SourceEntryView>,
    tree: Map<Seq<Seq<char>>, NodeView>,
    items: Seq<WalkItemView>,
)
    requires
        free_of_denied(denylist, tree),
    ensures
        free_of_denied(denylist, mirror_of(denylist, source, tree, items).0),
    decreases items.len(),
{
    if items.len() > 0 {
        denied_names_never_arrive(denylist, source, tree, items.drop_last());
        let before = mirror_of(denylist, source, tree, items.drop_last()).0;
        match items.last() {
            WalkItemView::Unreadable(_) => {},
            WalkItemView::Entry(entry) => {
                let path = entry.relative;
                if entry.relative.len() > 0 && !path_denied(denylist, path) {
                    match entry.kind {
                        EntryKind::Directory => {
                            make_dirs_free_of_denied(denylist, before, path, 0);
                        },
                        EntryKind::File => {
                            prefix_not_denied(denylist, path, path.len() - 1);
                            assert(path.drop_last() =~= path.take(path.len() - 1));
                            make_dirs_free_of_denied(denylist, before, path.drop_last(), 0);
                        },
                        EntryKind::Other => {},
                    }
                }
            },
        }
    }
}

} // verus!
