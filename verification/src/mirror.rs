//! Mirroring a walked tree below a destination.
//!
//! A walk hands over its entries one by one, each with its path below the
//! source root and its kind. [`plan_entry`] decides what one entry asks for;
//! whoever runs the walk performs it and tells a [`MirrorReport`] how it
//! went. One entry that fails never stops the rest.

use vstd::prelude::*;
use crate::matcher::{path_denied, IgnoreRuleSet};
use crate::paths::{clone_names, names_of};

verus! {

/// What kind of thing a walk found.
#[derive(Clone, Copy, Debug, PartialEq, Eq, Structural)]
pub enum EntryKind {
    Directory,
    File,
    /// Neither a directory nor a regular file.
    Other,
}

/// One entry of a walk: its path below the source root, and its kind. The
/// root itself has the empty path.
#[derive(Debug)]
pub struct WalkEntry {
    pub relative: Vec<String>,
    pub kind: EntryKind,
}

/// What a [`WalkEntry`] stands for.
pub struct WalkEntryView {
    pub relative: Seq<Seq<char>>,
    pub kind: EntryKind,
}

impl View for WalkEntry {
    type V = WalkEntryView;

    open spec fn view(&self) -> WalkEntryView {
        WalkEntryView { relative: names_of(self.relative@), kind: self.kind }
    }
}

/// What a walk yields at one step: an entry, or the reason why it could not
/// read one.
#[derive(Debug)]
pub enum WalkItem {
    Entry(WalkEntry),
    Unreadable(String),
}

/// What a [`WalkItem`] stands for.
pub enum WalkItemView {
    Entry(WalkEntryView),
    Unreadable(Seq<char>),
}

impl View for WalkItem {
    type V = WalkItemView;

    open spec fn view(&self) -> WalkItemView {
        match self {
            WalkItem::Entry(entry) => WalkItemView::Entry(entry@),
            WalkItem::Unreadable(detail) => WalkItemView::Unreadable(detail@),
        }
    }
}

/// What one entry of a walk asks for. The paths lie below the destination
/// root, and are the entry's own path below the source root.
#[derive(Debug)]
pub enum MirrorAction {
    /// Nothing is created or copied.
    Skip,
    /// The directory is created, with every missing directory above it.
    CreateDirectory(Vec<String>),
    /// Every missing directory above the file is created, then the file's
    /// bytes are copied over whatever file is there.
    CopyFile(Vec<String>),
}

/// What a [`MirrorAction`] stands for.
pub enum MirrorActionView {
    Skip,
    CreateDirectory(Seq<Seq<char>>),
    CopyFile(Seq<Seq<char>>),
}

impl View for MirrorAction {
    type V = MirrorActionView;

    open spec fn view(&self) -> MirrorActionView {
        match self {
            MirrorAction::Skip => MirrorActionView::Skip,
            MirrorAction::CreateDirectory(path) => MirrorActionView::CreateDirectory(
                names_of(path@),
            ),
            MirrorAction::CopyFile(path) => MirrorActionView::CopyFile(names_of(path@)),
        }
    }
}

/// What an entry asks for: nothing for the root, for an entry with a denied
/// name on its path, and for what is neither directory nor file; else its
/// directory or its file at the same path below the destination.
pub open spec fn plan_of(denylist: Seq<Seq<char>>, entry: WalkEntryView) -> MirrorActionView {
    if entry.relative.len() == 0 || path_denied(denylist, entry.relative) {
        MirrorActionView::Skip
    } else {
        match entry.kind {
            EntryKind::Directory => MirrorActionView::CreateDirectory(entry.relative),
            EntryKind::File => MirrorActionView::CopyFile(entry.relative),
            EntryKind::Other => MirrorActionView::Skip,
        }
    }
}

/// Decides what one entry of a walk asks for.
pub fn plan_entry(rules: &IgnoreRuleSet, entry: &WalkEntry) -> (r: MirrorAction)
    ensures
        r@ == plan_of(rules@.denylist, entry@),
{
    if entry.relative.len() == 0 || rules.denies_path(&entry.relative) {
        return MirrorAction::Skip;
    }
    match entry.kind {
        EntryKind::Directory => MirrorAction::CreateDirectory(clone_names(&entry.relative)),
        EntryKind::File => MirrorAction::CopyFile(clone_names(&entry.relative)),
        EntryKind::Other => MirrorAction::Skip,
    }
}

/// One entry that a mirror could not bring over.
#[derive(Debug)]
pub enum MirrorFailure {
    /// The walk could not read an entry.
    Walk(String),
    /// A directory could not be created or a file not copied.
    Filesystem { path: Vec<String>, detail: String },
}

/// What a [`MirrorFailure`] stands for.
pub enum MirrorFailureView {
    Walk(Seq<char>),
    Filesystem { path: Seq<Seq<char>>, detail: Seq<char> },
}

impl View for MirrorFailure {
    type V = MirrorFailureView;

    open spec fn view(&self) -> MirrorFailureView {
        match self {
            MirrorFailure::Walk(detail) => MirrorFailureView::Walk(detail@),
            MirrorFailure::Filesystem { path, detail } => MirrorFailureView::Filesystem {
                path: names_of(path@),
                detail: detail@,
            },
        }
    }
}

/// What each failure of a list stands for.
pub open spec fn failures_of(list: Seq<MirrorFailure>) -> Seq<MirrorFailureView> {
    Seq::new(list.len(), |i: int| list[i]@)
}

/// How a mirror ended.
#[derive(Clone, Copy, Debug, PartialEq, Eq, Structural)]
pub enum MirrorOutcome {
    /// Every entry was brought over.
    Clean,
    /// At least one entry failed; the others were brought over.
    WithErrors,
}

/// The failures of a mirror so far, in the order in which they came.
#[derive(Debug)]
pub struct MirrorReport {
    pub failures: Vec<MirrorFailure>,
}

impl View for MirrorReport {
    type V = Seq<MirrorFailureView>;

    open spec fn view(&self) -> Seq<MirrorFailureView> {
        failures_of(self.failures@)
    }
}

impl MirrorReport {
    /// The report of a mirror in which nothing has failed yet.
    pub fn new() -> (r: MirrorReport)
        ensures
            r@ == Seq::<MirrorFailureView>::empty(),
    {
        let r = MirrorReport { failures: Vec::new() };
        assert(r@ =~= Seq::<MirrorFailureView>::empty());
        r
    }

    /// Adds one failure; what was recorded before stays.
    pub fn record(&mut self, failure: MirrorFailure)
        ensures
            final(self)@ == old(self)@.push(failure@),
    {
        proof {
            assert(failures_of(self.failures@.push(failure)) =~= failures_of(self.failures@).push(
                failure@,
            ));
        }
        self.failures.push(failure);
    }

    /// Takes note of what a walk yielded that was no entry.
    pub fn record_unreadable(&mut self, detail: &str)
        ensures
            final(self)@ == old(self)@.push(MirrorFailureView::Walk(detail@)),
    {
        self.record(MirrorFailure::Walk(detail.to_owned()));
    }

    /// Takes note of how performing an action went: `None` where it went
    /// well, else the reason why it did not.
    pub fn record_performed(&mut self, action: &MirrorAction, failed: Option<&str>)
        ensures
            final(self)@ == match (action@, failed) {
                (MirrorActionView::CreateDirectory(path), Some(detail)) => old(self)@.push(
                    MirrorFailureView::Filesystem { path, detail: detail@ },
                ),
                (MirrorActionView::CopyFile(path), Some(detail)) => old(self)@.push(
                    MirrorFailureView::Filesystem { path, detail: detail@ },
                ),
                _ => old(self)@,
            },
    {
        match failed {
            Some(detail) => match action {
                MirrorAction::CreateDirectory(path) => {
                    self.record(
                        MirrorFailure::Filesystem {
                            path: clone_names(path),
                            detail: detail.to_owned(),
                        },
                    );
                },
                MirrorAction::CopyFile(path) => {
                    self.record(
                        MirrorFailure::Filesystem {
                            path: clone_names(path),
                            detail: detail.to_owned(),
                        },
                    );
                },
                MirrorAction::Skip => {},
            },
            None => {},
        }
    }

    /// How the mirror ended: clean exactly if nothing failed.
    pub fn outcome(&self) -> (r: MirrorOutcome)
        ensures
            r == if self@.len() == 0 {
                MirrorOutcome::Clean
            } else {
                MirrorOutcome::WithErrors
            },
    {
        if self.failures.len() == 0 {
            MirrorOutcome::Clean
        } else {
            MirrorOutcome::WithErrors
        }
    }

    /// The result of the mirror: `Ok` exactly if nothing failed, else every
    /// failure in the order in which it came.
    pub fn finish(self) -> (r: Result<(), Vec<MirrorFailure>>)
        ensures
            match r {
                Ok(_) => self@.len() == 0,
                Err(list) => self@.len() > 0 && failures_of(list@) == self@,
            },
    {
        if self.failures.len() == 0 {
            Ok(())
        } else {
            Err(self.failures)
        }
    }
}

} // verus!
