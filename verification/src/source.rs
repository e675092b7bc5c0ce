//! A project tree as a walk sees it, held in memory.
//!
//! A [`SourceTree`] lists the entries below a project root in the order in
//! which a walk meets them, each with the verdict of the ignore rule files
//! on it. [`SourceTree::walk`] yields what a walk of that tree yields under a
//! rule set: an entry is left out, and with it everything below it, as soon
//! as a rule file matches it or its name is on the denylist.

use vstd::prelude::*;
use crate::matcher::IgnoreRuleSet;
use crate::mirror::{EntryKind, WalkEntry, WalkEntryView, WalkItem, WalkItemView};
use crate::paths::{clone_names, names_of, prefix_is, same_names};

verus! {

/// What a project tree holds at one path.
#[derive(Debug)]
pub enum SourceNode {
    Directory,
    /// A regular file with its bytes.
    File(Vec<u8>),
    /// A regular file whose bytes cannot be read.
    SealedFile,
    /// Neither a directory nor a regular file.
    Other,
    /// Something that a walk fails to read, with the reason it gives.
    Broken(String),
}

/// What a [`SourceNode`] stands for.
pub enum SourceNodeView {
    Directory,
    File(Seq<u8>),
    SealedFile,
    Other,
    Broken(Seq<char>),
}

impl View for SourceNode {
    type V = SourceNodeView;

    open spec fn view(&self) -> SourceNodeView {
        match self {
            SourceNode::Directory => SourceNodeView::Directory,
            SourceNode::File(content) => SourceNodeView::File(content@),
            SourceNode::SealedFile => SourceNodeView::SealedFile,
            SourceNode::Other => SourceNodeView::Other,
            SourceNode::Broken(detail) => SourceNodeView::Broken(detail@),
        }
    }
}

/// One entry of a project tree.
#[derive(Debug)]
pub struct SourceEntry {
    /// The names that lead from the root to the entry.
    pub path: Vec<String>,
    pub node: SourceNode,
    /// Whether some layer of ignore rule files matches the entry.
    pub matched: bool,
}

/// What a [`SourceEntry`] stands for.
pub struct SourceEntryView {
    pub path: Seq<Seq<char>>,
    pub node: SourceNodeView,
    pub matched: bool,
}

impl View for SourceEntry {
    type V = SourceEntryView;

    open spec fn view(&self) -> SourceEntryView {
        SourceEntryView { path: names_of(self.path@), node: self.node@, matched: self.matched }
    }
}

/// The entries below a project root, in the order of a walk.
#[derive(Debug)]
pub struct SourceTree {
    pub entries: Vec<SourceEntry>,
}

impl View for SourceTree {
    type V = Seq<SourceEntryView>;

    open spec fn view(&self) -> Seq<SourceEntryView> {
        Seq::new(self.entries@.len(), |i: int| self.entries@[i]@)
    }
}

/// Whether `a` leads to `b` or is `b`.
pub open spec fn is_prefix(a: Seq<Seq<char>>, b: Seq<Seq<char>>) -> bool {
    a.len() <= b.len() && b.take(a.len() as int) == a
}

/// Whether the entry is itself left out: a rule file matches it, or its
/// name is on the denylist.
pub open spec fn shut_out(denylist: Seq<Seq<char>>, entry: SourceEntryView) -> bool {
    entry.matched || (entry.path.len() > 0 && denylist.contains(entry.path.last()))
}

/// Whether a walk leaves `path` out: some entry on the way to it, or the
/// entry at it, is shut out.
pub open spec fn hidden(
    denylist: Seq<Seq<char>>,
    tree: Seq<SourceEntryView>,
    path: Seq<Seq<char>>,
) -> bool {
    exists|j: int|
        0 <= j < tree.len() && is_prefix((#[trigger] tree[j]).path, path) && shut_out(
            denylist,
            tree[j],
        )
}

/// Whether the list describes a tree: no entry is the root, no two entries
/// share a path, and an entry below the top level comes after the directory
/// that holds it.
pub open spec fn well_formed(tree: Seq<SourceEntryView>) -> bool {
    &&& forall|i: int| 0 <= i < tree.len() ==> (#[trigger] tree[i]).path.len() > 0
    &&& forall|i: int, j: int|
        0 <= i < j < tree.len() ==> (#[trigger] tree[i]).path != (#[trigger] tree[j]).path
    &&& forall|i: int|
        0 <= i < tree.len() && (#[trigger] tree[i]).path.len() > 1 ==> has_parent_before(tree, i)
}

/// Whether the directory that holds entry `i` is listed before it.
pub open spec fn has_parent_before(tree: Seq<SourceEntryView>, i: int) -> bool {
    exists|j: int|
        0 <= j < i && (#[trigger] tree[j]).path == tree[i].path.drop_last() && tree[j].node
            is Directory
}

/// What a walk yields for an entry that it does not leave out.
pub open spec fn item_of(entry: SourceEntryView) -> WalkItemView {
    match entry.node {
        SourceNodeView::Directory => WalkItemView::Entry(
            WalkEntryView { relative: entry.path, kind: EntryKind::Directory },
        ),
        SourceNodeView::File(_) => WalkItemView::Entry(
            WalkEntryView { relative: entry.path, kind: EntryKind::File },
        ),
        SourceNodeView::SealedFile => WalkItemView::Entry(
            WalkEntryView { relative: entry.path, kind: EntryKind::File },
        ),
        SourceNodeView::Other => WalkItemView::Entry(
            WalkEntryView { relative: entry.path, kind: EntryKind::Other },
        ),
        SourceNodeView::Broken(detail) => WalkItemView::Unreadable(detail),
    }
}

/// What a walk of the first `n` entries yields: the root, then each entry
/// that is not hidden, in order.
pub open spec fn walk_of(denylist: Seq<Seq<char>>, tree: Seq<SourceEntryView>, n: nat) -> Seq<
    WalkItemView,
>
    decreases n,
{
    if n == 0 || n > tree.len() {
        seq![
            WalkItemView::Entry(
                WalkEntryView { relative: Seq::empty(), kind: EntryKind::Directory },
            ),
        ]
    } else {
        let before = walk_of(denylist, tree, (n - 1) as nat);
        if hidden(denylist, tree, tree[n - 1].path) {
            before
        } else {
            before.push(item_of(tree[n - 1]))
        }
    }
}

/// What the tree holds at `path`: the node of the last entry with that path.
pub open spec fn source_at(tree: Seq<SourceEntryView>, path: Seq<Seq<char>>) -> Option<
    SourceNodeView,
>
    decreases tree.len(),
{
    if tree.len() == 0 {
        None
    } else if tree.last().path == path {
        Some(tree.last().node)
    } else {
        source_at(tree.drop_last(), path)
    }
}

/// What each item of a list stands for.
pub open spec fn items_of(list: Seq<WalkItem>) -> Seq<WalkItemView> {
    Seq::new(list.len(), |i: int| list[i]@)
}

impl SourceTree {
    /// The tree with nothing below its root.
    pub fn new() -> (r: SourceTree)
        ensures
            r@ == Seq::<SourceEntryView>::empty(),
    {
        let r = SourceTree { entries: Vec::new() };
        assert(r@ =~= Seq::<SourceEntryView>::empty());
        r
    }

    /// Adds an entry at the end of the list.
    pub fn add(&mut self, path: Vec<String>, node: SourceNode, matched: bool)
        ensures
            final(self)@ == old(self)@.push(
                SourceEntryView { path: names_of(path@), node: node@, matched },
            ),
    {
        let entry = SourceEntry { path, node, matched };
        proof {
            assert(Seq::new(self.entries@.push(entry).len(), |i: int| self.entries@.push(entry)[i]@)
                =~= self@.push(entry@));
        }
        self.entries.push(entry);
    }

    /// Whether entry `at` is itself left out under `rules`.
    fn shuts_out(&self, rules: &IgnoreRuleSet, at: usize) -> (r: bool)
        requires
            at < self.entries.len(),
        ensures
            r == shut_out(rules@.denylist, self@[at as int]),
    {
        let entry = &self.entries[at];
        if entry.matched {
            return true;
        }
        if entry.path.len() == 0 {
            return false;
        }
        let last = &entry.path[entry.path.len() - 1];
        assert(last@ == names_of(entry.path@).last());
        rules.denies(last.as_str())
    }

    /// Whether a walk under `rules` leaves `path` out.
    pub fn hides(&self, rules: &IgnoreRuleSet, path: &Vec<String>) -> (r: bool)
        ensures
            r == hidden(rules@.denylist, self@, names_of(path@)),
    {
        let mut j: usize = 0;
        while j < self.entries.len()
            invariant
                j <= self.entries.len(),
                forall|k: int|
                    0 <= k < j ==> !(is_prefix((#[trigger] self@[k]).path, names_of(path@))
                        && shut_out(rules@.denylist, self@[k])),
            decreases self.entries.len() - j,
        {
            let candidate = &self.entries[j].path;
            assert(names_of(candidate@) == self@[j as int].path);
            if candidate.len() <= path.len() && prefix_is(path, candidate.len(), candidate)
                && self.shuts_out(rules, j) {
                return true;
            }
            j += 1;
        }
        false
    }

    /// What the tree holds at `path`, if anything.
    pub fn find(&self, path: &Vec<String>) -> (r: Option<&SourceNode>)
        ensures
            match r {
                Some(node) => source_at(self@, names_of(path@)) == Some(node@),
                None => source_at(self@, names_of(path@)) is None,
            },
    {
        let mut i: usize = self.entries.len();
        assert(self@.take(i as int) =~= self@);
        while i > 0
            invariant
                i <= self.entries.len(),
                source_at(self@, names_of(path@)) == source_at(
                    self@.take(i as int),
                    names_of(path@),
                ),
            decreases i,
        {
            i -= 1;
            assert(self@.take(i as int + 1).drop_last() =~= self@.take(i as int));
            assert(self@.take(i as int + 1).last() == self@[i as int]);
            if same_names(&self.entries[i].path, path) {
                return Some(&self.entries[i].node);
            }
        }
        None
    }

    /// What a walk of the tree yields under `rules`.
    pub fn walk(&self, rules: &IgnoreRuleSet) -> (r: Vec<WalkItem>)
        ensures
            items_of(r@) == walk_of(rules@.denylist, self@, self@.len()),
    {
        let mut out: Vec<WalkItem> = Vec::new();
        out.push(WalkItem::Entry(WalkEntry { relative: Vec::new(), kind: EntryKind::Directory }));
        assert(items_of(out@) =~= walk_of(rules@.denylist, self@, 0)) by {
            assert(names_of(Seq::<String>::empty()) =~= Seq::<Seq<char>>::empty());
        }
        let mut i: usize = 0;
        while i < self.entries.len()
            invariant
                i <= self.entries.len(),
                items_of(out@) == walk_of(rules@.denylist, self@, i as nat),
            decreases self.entries.len() - i,
        {
            let entry = &self.entries[i];
            assert(entry@ == self@[i as int]);
            if !self.hides(rules, &entry.path) {
                let item = match &entry.node {
                    SourceNode::Directory => WalkItem::Entry(
                        WalkEntry { relative: clone_names(&entry.path), kind: EntryKind::Directory },
                    ),
                    SourceNode::File(_) => WalkItem::Entry(
                        WalkEntry { relative: clone_names(&entry.path), kind: EntryKind::File },
                    ),
                    SourceNode::SealedFile => WalkItem::Entry(
                        WalkEntry { relative: clone_names(&entry.path), kind: EntryKind::File },
                    ),
                    SourceNode::Other => WalkItem::Entry(
                        WalkEntry { relative: clone_names(&entry.path), kind: EntryKind::Other },
                    ),
                    SourceNode::Broken(detail) => WalkItem::Unreadable(detail.clone()),
                };
                assert(item@ == item_of(self@[i as int]));
                proof {
                    assert(items_of(out@.push(item)) =~= items_of(out@).push(item@));
                }
                out.push(item);
            }
            i += 1;
        }
        out
    }

    /// Whether the list describes a tree.
    pub fn is_well_formed(&self) -> (r: bool)
        ensures
            r == well_formed(self@),
    {
        let mut i: usize = 0;
        while i < self.entries.len()
            invariant
                i <= self.entries.len(),
                forall|a: int| 0 <= a < i ==> (#[trigger] self@[a]).path.len() > 0,
                forall|a: int, b: int|
                    0 <= a < b < i ==> (#[trigger] self@[a]).path != (#[trigger] self@[b]).path,
                forall|a: int|
                    0 <= a < i && (#[trigger] self@[a]).path.len() > 1 ==> has_parent_before(
                        self@,
                        a,
                    ),
            decreases self.entries.len() - i,
        {
            let path = &self.entries[i].path;
            assert(names_of(path@) == self@[i as int].path);
            if path.len() == 0 {
                return false;
            }
            let mut parent_seen = path.len() == 1;
            let mut j: usize = 0;
            while j < i
                invariant
                    j <= i,
                    i < self.entries.len(),
                    names_of(path@) == self@[i as int].path,
                    path.len() > 0,
                    forall|a: int|
                        0 <= a < j ==> (#[trigger] self@[a]).path != self@[i as int].path,
                    path.len() == 1 ==> parent_seen,
                    path.len() > 1 ==> (parent_seen <==> exists|a: int|
                        0 <= a < j && (#[trigger] self@[a]).path == self@[i as int].path.drop_last()
                            && self@[a].node is Directory),
                decreases i - j,
            {
                let other = &self.entries[j];
                assert(names_of(other.path@) == self@[j as int].path);
                assert(other.node@ == self@[j as int].node);
                if same_names(&other.path, path) {
                    return false;
                }
                if path.len() > 1 && other.path.len() == path.len() - 1 && prefix_is(
                    path,
                    other.path.len(),
                    &other.path,
                ) {
                    assert(self@[i as int].path.drop_last() =~= self@[i as int].path.take(
                        other.path.len() as int,
                    ));
                    match other.node {
                        SourceNode::Directory => {
                            parent_seen = true;
                        },
                        _ => {},
                    }
                }
                j += 1;
            }
            if !parent_seen {
                assert(!has_parent_before(self@, i as int));
                return false;
            }
            i += 1;
        }
        true
    }
}

} // verus!
