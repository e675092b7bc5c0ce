//! Mirroring in memory.
//!
//! [`mirror`] brings a [`SourceTree`] over into a [`Tree`] the way a publish
//! brings a project folder over into its destination: it walks the source
//! under a rule set, plans every entry with [`plan_entry`], performs the plan
//! on the destination, and collects what fails without stopping.

use vstd::prelude::*;
use crate::matcher::IgnoreRuleSet;
use crate::mirror::{
    failures_of, plan_entry, plan_of, MirrorAction, MirrorActionView, MirrorFailure,
    MirrorFailureView, MirrorReport, WalkItem, WalkItemView,
};
use crate::paths::{clone_names, names_of};
use crate::source::{items_of, source_at, walk_of, SourceEntryView, SourceNode, SourceNodeView, SourceTree};
use crate::tree::{make_dirs, put_file, put_refusal, NodeView, Tree, TreeError};

verus! {

/// What is reported of a file whose bytes cannot be read.
pub const UNREADABLE_SOURCE: &'static str = "the file cannot be read";

/// What is reported of a refusal of the destination.
pub open spec fn fault_text(error: TreeError) -> Seq<char> {
    match error {
        TreeError::NotADirectory => "a file is in the way of a directory"@,
        TreeError::IsADirectory => "a directory is in the way of the file"@,
        TreeError::NoParent => "the directory for the file does not exist"@,
    }
}

/// Puts a refusal of the destination in words.
pub fn describe(error: TreeError) -> (r: String)
    ensures
        r@ == fault_text(error),
{
    match error {
        TreeError::NotADirectory => "a file is in the way of a directory".to_owned(),
        TreeError::IsADirectory => "a directory is in the way of the file".to_owned(),
        TreeError::NoParent => "the directory for the file does not exist".to_owned(),
    }
}

/// The destination after a file of the source is copied to the same path,
/// and what went wrong, if anything: the directories above the file are
/// created first, then the bytes are read and written.
pub open spec fn copy_of(
    source: Seq<SourceEntryView>,
    tree: Map<Seq<Seq<char>>, NodeView>,
    path: Seq<Seq<char>>,
) -> (Map<Seq<Seq<char>>, NodeView>, Option<Seq<char>>) {
    let (made, ok) = make_dirs(tree, path.drop_last(), 0);
    if !ok {
        (made, Some(fault_text(TreeError::NotADirectory)))
    } else {
        match source_at(source, path) {
            Some(SourceNodeView::File(content)) => (
                put_file(made, path, content),
                match put_refusal(made, path) {
                    Some(error) => Some(fault_text(error)),
                    None => None,
                },
            ),
            _ => (made, Some(UNREADABLE_SOURCE@)),
        }
    }
}

/// The destination after one item of a walk is dealt with, and the failure
/// that it adds to the report, if any.
pub open spec fn perform_of(
    denylist: Seq<Seq<char>>,
    source: Seq<SourceEntryView>,
    tree: Map<Seq<Seq<char>>, NodeView>,
    item: WalkItemView,
) -> (Map<Seq<Seq<char>>, NodeView>, Option<MirrorFailureView>) {
    match item {
        WalkItemView::Unreadable(detail) => (tree, Some(MirrorFailureView::Walk(detail))),
        WalkItemView::Entry(entry) => match plan_of(denylist, entry) {
            MirrorActionView::Skip => (tree, None),
            MirrorActionView::CreateDirectory(path) => {
                let (made, ok) = make_dirs(tree, path, 0);
                (
                    made,
                    if ok {
                        None
                    } else {
                        Some(
                            MirrorFailureView::Filesystem {
                                path,
                                detail: fault_text(TreeError::NotADirectory),
                            },
                        )
                    },
                )
            },
            MirrorActionView::CopyFile(path) => {
                let (copied, fault) = copy_of(source, tree, path);
                (
                    copied,
                    match fault {
                        Some(detail) => Some(MirrorFailureView::Filesystem { path, detail }),
                        None => None,
                    },
                )
            },
        },
    }
}

/// The destination after every item of a walk is dealt with in order, and
/// the failures in the order in which they came.
pub open spec fn mirror_of(
    denylist: Seq<Seq<char>>,
    source: Seq<SourceEntryView>,
    tree: Map<Seq<Seq<char>>, NodeView>,
    items: Seq<WalkItemView>,
) -> (Map<Seq<Seq<char>>, NodeView>, Seq<MirrorFailureView>)
    decreases items.len(),
{
    if items.len() == 0 {
        (tree, Seq::empty())
    } else {
        let (before, failures) = mirror_of(denylist, source, tree, items.drop_last());
        let (after, failure) = perform_of(denylist, source, before, items.last());
        (
            after,
            match failure {
                Some(f) => failures.push(f),
                None => failures,
            },
        )
    }
}

/// Copies the file at `path` of the source to the same path of the
/// destination.
fn copy_file(source: &SourceTree, destination: &mut Tree, path: &Vec<String>) -> (r: Option<
    String,
>)
    requires
        path.len() > 0,
    ensures
        final(destination)@ == copy_of(source@, old(destination)@, names_of(path@)).0,
        match (r, copy_of(source@, old(destination)@, names_of(path@)).1) {
            (Some(said), Some(detail)) => said@ == detail,
            (None, None) => true,
            _ => false,
        },
{
    let mut parent = clone_names(path);
    parent.pop();
    assert(names_of(parent@) =~= names_of(path@).drop_last());
    match destination.create_dir_all(&parent) {
        Err(error) => {
            return Some(describe(error));
        },
        Ok(_) => {},
    }
    match source.find(path) {
        Some(SourceNode::File(content)) => match destination.write_file(path, content) {
            Ok(_) => None,
            Err(error) => Some(describe(error)),
        },
        _ => Some(UNREADABLE_SOURCE.to_owned()),
    }
}

/// Deals with one item of a walk: plans it, performs the plan on the
/// destination, and adds to the report what failed.
pub fn perform(
    rules: &IgnoreRuleSet,
    source: &SourceTree,
    destination: &mut Tree,
    report: &mut MirrorReport,
    item: &WalkItem,
)
    ensures
        final(destination)@ == perform_of(rules@.denylist, source@, old(destination)@, item@).0,
        final(report)@ == match perform_of(rules@.denylist, source@, old(destination)@, item@).1 {
            Some(failure) => old(report)@.push(failure),
            None => old(report)@,
        },
{
    match item {
        WalkItem::Unreadable(detail) => {
            report.record_unreadable(detail.as_str());
        },
        WalkItem::Entry(entry) => {
            let action = plan_entry(rules, entry);
            match &action {
                MirrorAction::Skip => {},
                MirrorAction::CreateDirectory(path) => {
                    match destination.create_dir_all(path) {
                        Ok(_) => {},
                        Err(error) => {
                            let said = describe(error);
                            report.record_performed(&action, Some(said.as_str()));
                        },
                    }
                },
                MirrorAction::CopyFile(path) => {
                    match copy_file(source, destination, path) {
                        None => {},
                        Some(said) => {
                            report.record_performed(&action, Some(said.as_str()));
                        },
                    }
                },
            }
        },
    }
}

/// Deals with every item of a walk in order. One item that fails does not
/// stop the others; the result is `Ok` exactly if none failed.
pub fn mirror_items(
    items: &Vec<WalkItem>,
    source: &SourceTree,
    destination: &mut Tree,
    rules: &IgnoreRuleSet,
) -> (r: Result<(), Vec<MirrorFailure>>)
    ensures
        final(destination)@ == mirror_of(
            rules@.denylist,
            source@,
            old(destination)@,
            items_of(items@),
        ).0,
        match r {
            Ok(_) => mirror_of(rules@.denylist, source@, old(destination)@, items_of(items@)).1.len()
                == 0,
            Err(list) => list.len() > 0 && failures_of(list@) == mirror_of(
                rules@.denylist,
                source@,
                old(destination)@,
                items_of(items@),
            ).1,
        },
{
    let mut report = MirrorReport::new();
    let mut i: usize = 0;
    assert(items_of(items@).take(0) =~= Seq::<WalkItemView>::empty());
    while i < items.len()
        invariant
            i <= items.len(),
            (destination@, report@) == mirror_of(
                rules@.denylist,
                source@,
                old(destination)@,
                items_of(items@).take(i as int),
            ),
        decreases items.len() - i,
    {
        proof {
            let upto = items_of(items@).take(i as int + 1);
            assert(upto.drop_last() =~= items_of(items@).take(i as int));
            assert(upto.last() == items@[i as int]@);
        }
        perform(rules, source, destination, &mut report, &items[i]);
        i += 1;
    }
    assert(items_of(items@).take(items.len() as int) =~= items_of(items@));
    report.finish()
}

/// Brings the source over into the destination: walks it under `rules` and
/// deals with every item. The destination keeps what it held at paths that
/// the walk does not touch.
pub fn mirror(source: &SourceTree, destination: &mut Tree, rules: &IgnoreRuleSet) -> (r: Result<
    (),
    Vec<MirrorFailure>,
>)
    ensures
        final(destination)@ == mirror_of(
            rules@.denylist,
            source@,
            old(destination)@,
            walk_of(rules@.denylist, source@, source@.len()),
        ).0,
        match r {
            Ok(_) => mirror_of(
                rules@.denylist,
                source@,
                old(destination)@,
                walk_of(rules@.denylist, source@, source@.len()),
            ).1.len() == 0,
            Err(list) => list.len() > 0 && failures_of(list@) == mirror_of(
                rules@.denylist,
                source@,
                old(destination)@,
                walk_of(rules@.denylist, source@, source@.len()),
            ).1,
        },
{
    let items = source.walk(rules);
    mirror_items(&items, source, destination, rules)
}

} // verus!
