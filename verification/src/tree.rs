//! A directory tree held in memory.
//!
//! A [`Tree`] is what lies below one root directory: a finite map from paths
//! to directories and files. It obeys the rules of a file system that matter
//! to a publish: a directory has to exist before anything is written into
//! it, nothing can be created below a file, and a file cannot replace a
//! directory.

use vstd::prelude::*;
use crate::paths::{clone_names, names_of, names_of_push, same_names};

verus! {

/// What a tree holds at one path.
#[derive(Debug)]
pub enum Node {
    Directory,
    File(Vec<u8>),
}

/// What a [`Node`] stands for.
pub enum NodeView {
    Directory,
    File(Seq<u8>),
}

impl View for Node {
    type V = NodeView;

    open spec fn view(&self) -> NodeView {
        match self {
            Node::Directory => NodeView::Directory,
            Node::File(content) => NodeView::File(content@),
        }
    }
}

/// Why a tree refused a change.
#[derive(Clone, Copy, Debug, PartialEq, Eq, Structural)]
pub enum TreeError {
    /// A name on the way to the target is a file.
    NotADirectory,
    /// The target is a directory, or the root itself.
    IsADirectory,
    /// The directory that is to hold the target does not exist.
    NoParent,
}

/// One path of a tree with what it holds.
#[derive(Debug)]
pub struct TreeEntry {
    pub path: Vec<String>,
    pub node: Node,
}

/// The map that a list of entries builds: a later entry replaces an earlier
/// one with the same path.
pub open spec fn tree_of(entries: Seq<TreeEntry>) -> Map<Seq<Seq<char>>, NodeView>
    decreases entries.len(),
{
    if entries.len() == 0 {
        Map::empty()
    } else {
        tree_of(entries.drop_last()).insert(names_of(entries.last().path@), entries.last().node@)
    }
}

/// The tree after `create_dir_all` on `path`, of which the first `done`
/// names are known to lead through directories, and whether it succeeded.
/// Directories are created from the outermost inwards; the first name that
/// is a file stops the work and leaves what was created before it.
pub open spec fn make_dirs(
    tree: Map<Seq<Seq<char>>, NodeView>,
    path: Seq<Seq<char>>,
    done: nat,
) -> (Map<Seq<Seq<char>>, NodeView>, bool)
    decreases path.len() - done,
{
    if done >= path.len() {
        (tree, true)
    } else {
        let prefix = path.take(done as int + 1);
        if tree.contains_key(prefix) {
            if tree[prefix] is Directory {
                make_dirs(tree, path, done + 1)
            } else {
                (tree, false)
            }
        } else {
            make_dirs(tree.insert(prefix, NodeView::Directory), path, done + 1)
        }
    }
}

/// Why `put_file` refuses to write `path`, if it does.
pub open spec fn put_refusal(tree: Map<Seq<Seq<char>>, NodeView>, path: Seq<Seq<char>>) -> Option<
    TreeError,
> {
    if path.len() == 0 {
        Some(TreeError::IsADirectory)
    } else if path.len() > 1 && !tree.contains_key(path.drop_last()) {
        Some(TreeError::NoParent)
    } else if path.len() > 1 && !(tree[path.drop_last()] is Directory) {
        Some(TreeError::NotADirectory)
    } else if tree.contains_key(path) && tree[path] is Directory {
        Some(TreeError::IsADirectory)
    } else {
        None
    }
}

/// The tree after writing a file at `path`: unchanged where the write is
/// refused, else with the file in place of whatever file was there.
pub open spec fn put_file(
    tree: Map<Seq<Seq<char>>, NodeView>,
    path: Seq<Seq<char>>,
    content: Seq<u8>,
) -> Map<Seq<Seq<char>>, NodeView> {
    if put_refusal(tree, path) is Some {
        tree
    } else {
        tree.insert(path, NodeView::File(content))
    }
}

/// An entry with a given path, after which no entry has that path, decides
/// what the map holds there.
pub proof fn tree_of_found(entries: Seq<TreeEntry>, path: Seq<Seq<char>>, at: int)
    requires
        0 <= at < entries.len(),
        names_of(entries[at].path@) == path,
        forall|k: int| at < k < entries.len() ==> names_of(#[trigger] entries[k].path@) != path,
    ensures
        tree_of(entries).contains_key(path),
        tree_of(entries)[path] == entries[at].node@,
    decreases entries.len(),
{
    if at == entries.len() - 1 {
    } else {
        tree_of_found(entries.drop_last(), path, at);
    }
}

/// A path that no entry has is not in the map.
pub proof fn tree_of_absent(entries: Seq<TreeEntry>, path: Seq<Seq<char>>)
    requires
        forall|k: int| 0 <= k < entries.len() ==> names_of(#[trigger] entries[k].path@) != path,
    ensures
        !tree_of(entries).contains_key(path),
    decreases entries.len(),
{
    if entries.len() > 0 {
        tree_of_absent(entries.drop_last(), path);
    }
}

/// A directory tree in memory.
#[derive(Debug)]
pub struct Tree {
    entries: Vec<TreeEntry>,
}

impl View for Tree {
    type V = Map<Seq<Seq<char>>, NodeView>;

    closed spec fn view(&self) -> Map<Seq<Seq<char>>, NodeView> {
        tree_of(self.entries@)
    }
}

/// A copy of a sequence of bytes.
pub fn clone_bytes(bytes: &Vec<u8>) -> (r: Vec<u8>)
    ensures
        r@ == bytes@,
{
    let mut out: Vec<u8> = Vec::new();
    let mut i: usize = 0;
    while i < bytes.len()
        invariant
            i <= bytes.len(),
            out@ == bytes@.take(i as int),
        decreases bytes.len() - i,
    {
        out.push(bytes[i]);
        assert(bytes@.take(i as int).push(bytes@[i as int]) =~= bytes@.take(i as int + 1));
        i += 1;
    }
    assert(bytes@.take(bytes.len() as int) =~= bytes@);
    out
}

impl Tree {
    /// The tree that holds nothing.
    pub fn new() -> (r: Tree)
        ensures
            r@ == Map::<Seq<Seq<char>>, NodeView>::empty(),
    {
        Tree { entries: Vec::new() }
    }

    /// What the tree holds at `path`, if anything.
    pub fn get(&self, path: &Vec<String>) -> (r: Option<&Node>)
        ensures
            match r {
                Some(node) => self@.contains_key(names_of(path@)) && self@[names_of(path@)]
                    == node@,
                None => !self@.contains_key(names_of(path@)),
            },
    {
        let mut i: usize = self.entries.len();
        while i > 0
            invariant
                i <= self.entries.len(),
                forall|k: int|
                    i <= k < self.entries.len() ==> names_of(#[trigger] self.entries@[k].path@)
                        != names_of(path@),
            decreases i,
        {
            i -= 1;
            if same_names(&self.entries[i].path, path) {
                proof {
                    tree_of_found(self.entries@, names_of(path@), i as int);
                }
                return Some(&self.entries[i].node);
            }
        }
        proof {
            tree_of_absent(self.entries@, names_of(path@));
        }
        None
    }

    /// Whether the tree holds a file at `path` with exactly these bytes.
    pub fn holds_file(&self, path: &Vec<String>, content: &Vec<u8>) -> (r: bool)
        ensures
            r == (self@.contains_key(names_of(path@)) && self@[names_of(path@)] == NodeView::File(
                content@,
            )),
    {
        match self.get(path) {
            Some(Node::File(bytes)) => {
                if bytes.len() != content.len() {
                    return false;
                }
                let mut i: usize = 0;
                while i < bytes.len()
                    invariant
                        i <= bytes.len(),
                        bytes.len() == content.len(),
                        forall|k: int| 0 <= k < i ==> bytes@[k] == content@[k],
                        self@.contains_key(names_of(path@)),
                        self@[names_of(path@)] == NodeView::File(bytes@),
                    decreases bytes.len() - i,
                {
                    if bytes[i] != content[i] {
                        assert(bytes@ != content@);
                        return false;
                    }
                    i += 1;
                }
                assert(bytes@ =~= content@);
                true
            },
            _ => false,
        }
    }

    /// Whether the tree holds a directory at `path`.
    pub fn holds_directory(&self, path: &Vec<String>) -> (r: bool)
        ensures
            r == (self@.contains_key(names_of(path@)) && self@[names_of(path@)] is Directory),
    {
        match self.get(path) {
            Some(Node::Directory) => true,
            _ => false,
        }
    }

    /// Places `node` at `path`, whatever was there.
    fn place(&mut self, path: Vec<String>, node: Node)
        ensures
            final(self)@ == old(self)@.insert(names_of(path@), node@),
    {
        let entry = TreeEntry { path, node };
        proof {
            assert(self.entries@.push(entry).drop_last() =~= self.entries@);
        }
        self.entries.push(entry);
    }

    /// Creates the directory at `path` and every missing directory on the
    /// way to it. A directory that exists already is no error.
    pub fn create_dir_all(&mut self, path: &Vec<String>) -> (r: Result<(), TreeError>)
        ensures
            final(self)@ == make_dirs(old(self)@, names_of(path@), 0).0,
            r is Ok == make_dirs(old(self)@, names_of(path@), 0).1,
            r is Err ==> r == Err::<(), TreeError>(TreeError::NotADirectory),
    {
        let mut prefix: Vec<String> = Vec::new();
        let mut k: usize = 0;
        assert(names_of(prefix@) =~= names_of(path@).take(0));
        while k < path.len()
            invariant
                k <= path.len(),
                names_of(prefix@) == names_of(path@).take(k as int),
                make_dirs(old(self)@, names_of(path@), 0) == make_dirs(
                    self@,
                    names_of(path@),
                    k as nat,
                ),
            decreases path.len() - k,
        {
            let name = path[k].clone();
            proof {
                names_of_push(prefix@, name);
                assert(names_of(path@).take(k as int).push(name@) =~= names_of(path@).take(
                    k as int + 1,
                ));
            }
            prefix.push(name);
            match self.get(&prefix) {
                Some(Node::Directory) => {},
                Some(Node::File(_)) => {
                    return Err(TreeError::NotADirectory);
                },
                None => {
                    self.place(clone_names(&prefix), Node::Directory);
                },
            }
            k += 1;
        }
        Ok(())
    }

    /// Writes a file at `path`, in place of a file that was there. The
    /// directory that holds it must exist.
    pub fn write_file(&mut self, path: &Vec<String>, content: &Vec<u8>) -> (r: Result<
        (),
        TreeError,
    >)
        ensures
            final(self)@ == put_file(old(self)@, names_of(path@), content@),
            match put_refusal(old(self)@, names_of(path@)) {
                Some(e) => r == Err::<(), TreeError>(e),
                None => r is Ok,
            },
    {
        if path.len() == 0 {
            return Err(TreeError::IsADirectory);
        }
        if path.len() > 1 {
            let mut parent = clone_names(path);
            parent.pop();
            assert(names_of(parent@) =~= names_of(path@).drop_last());
            match self.get(&parent) {
                Some(Node::Directory) => {},
                Some(Node::File(_)) => {
                    return Err(TreeError::NotADirectory);
                },
                None => {
                    return Err(TreeError::NoParent);
                },
            }
        }
        match self.get(path) {
            Some(Node::Directory) => {
                return Err(TreeError::IsADirectory);
            },
            _ => {},
        }
        self.place(clone_names(path), Node::File(clone_bytes(content)));
        Ok(())
    }
}

} // verus!
