//! A whole publish, run in memory.
//!
//! A [`World`] holds everything that a publish would find on disk and hear
//! from the operator. [`rehearse`] plays the caller's part against it: it
//! performs each action that the [`Publisher`] names and hands back what
//! happened, until the publish is over.

use vstd::prelude::*;
use crate::config::Config;
use crate::matcher::{standard_denylist, IgnoreRuleSet};
use crate::mirror::MirrorOutcome;
use crate::project::FileProbe;
use crate::publish::{
    start_of, Phase, PublishArgs, PublishConf, PublishEvent, Publisher, PublisherView,
};
use crate::text::text_of;
use crate::replica::{mirror, mirror_of};
use crate::source::{walk_of, SourceTree};
use crate::tree::{NodeView, Tree};
use crate::trigger::{BuildRun, DirItem};
use crate::util::TextEncoding;

verus! {

/// What a publish finds and hears.
#[derive(Debug)]
pub struct World {
    /// The project's directory.
    pub working_directory: String,
    /// What is found where the project's configuration file is expected.
    pub conf: FileProbe<PublishConf>,
    /// The name of the project's directory, if it has one.
    pub directory_name: Option<String>,
    /// The listing of the project's directory, or why it cannot be listed.
    pub listing: Result<Vec<DirItem>, String>,
    /// How the build ends, if it is run.
    pub build: BuildRun,
    /// Whether the operator agrees, if asked.
    pub answer: bool,
    /// The project's tree.
    pub source: SourceTree,
    /// What is at the destination, if it exists.
    pub destination: Option<Tree>,
}

/// What a tree that may be absent holds.
pub open spec fn held(tree: Option<Tree>) -> Option<Map<Seq<Seq<char>>, NodeView>> {
    match tree {
        Some(t) => Some(t@),
        None => None,
    }
}

/// The state of a publish once everything is done that comes before the
/// destination is touched: the name is resolved, the build has run where
/// there is one, the destination is known and the operator has answered
/// where that was needed.
pub open spec fn settled(start: PublisherView, world: World) -> PublisherView {
    let read = start.next(
        PublishEvent::ProjectRead { conf: world.conf, directory_name: world.directory_name },
    );
    let scanned = if read.phase is ConfigResolved {
        read.next(PublishEvent::Scanned(world.listing))
    } else {
        read
    };
    let built = if scanned.phase is Building {
        scanned.next(PublishEvent::BuildFinished(world.build))
    } else {
        scanned
    };
    let probed = if built.phase is Built {
        built.next(PublishEvent::DestinationProbed { exists: world.destination is Some })
    } else {
        built
    };
    if probed.phase is Confirming {
        probed.next(PublishEvent::Answered { yes: world.answer })
    } else {
        probed
    }
}

/// What a mirror of the world's project into an empty destination leaves
/// there, and what fails.
pub open spec fn published(world: World) -> (
    Map<Seq<Seq<char>>, NodeView>,
    Seq<crate::mirror::MirrorFailureView>,
) {
    mirror_of(
        standard_denylist(),
        world.source@,
        Map::empty(),
        walk_of(standard_denylist(), world.source@, world.source@.len()),
    )
}

/// How a mirror ends that fails on these entries.
pub open spec fn outcome_of(failures: Seq<crate::mirror::MirrorFailureView>) -> MirrorOutcome {
    if failures.len() == 0 {
        MirrorOutcome::Clean
    } else {
        MirrorOutcome::WithErrors
    }
}

/// The state in which a publish ends in this world, and what is at the
/// destination then. A publish that gets as far as the destination removes
/// what is there, creates it anew and mirrors the project into it; one that
/// stops before leaves the destination as it was.
pub open spec fn rehearsal_of(start: PublisherView, world: World) -> (
    PublisherView,
    Option<Map<Seq<Seq<char>>, NodeView>>,
) {
    let ready = settled(start, world);
    if ready.phase is Clearing || ready.phase is Creating {
        let cleared = if ready.phase is Clearing {
            ready.next(PublishEvent::Removed(Ok(())))
        } else {
            ready
        };
        let created = cleared.next(PublishEvent::Created(Ok(())));
        let (tree, failures) = published(world);
        (created.next(PublishEvent::Mirrored(outcome_of(failures))), Some(tree))
    } else {
        (ready, held(world.destination))
    }
}

/// Runs a whole publish in this world, and gives the state in which it ends
/// and what is at the destination then.
pub fn rehearse(args: &PublishArgs, config: &Config, world: World, encoding: TextEncoding) -> (r: (
    Publisher,
    Option<Tree>,
))
    requires
        world.build.decodable(),
    ensures
        r.0@.phase.terminal(),
        (r.0@, held(r.1)) == rehearsal_of(
            start_of(text_of(args.target_dir), config@, world.working_directory@, encoding),
            world,
        ),
{
    let (mut state, _) = args.run(config, world.working_directory.as_str(), encoding);
    let mut destination = world.destination;
    state.step(PublishEvent::ProjectRead { conf: world.conf, directory_name: world.directory_name });
    if state.phase() == Phase::ConfigResolved {
        state.step(PublishEvent::Scanned(world.listing));
    }
    if state.phase() == Phase::Building {
        state.step(PublishEvent::BuildFinished(world.build));
    }
    if state.phase() == Phase::Built {
        state.step(PublishEvent::DestinationProbed { exists: destination.is_some() });
    }
    if state.phase() == Phase::Confirming {
        state.step(PublishEvent::Answered { yes: world.answer });
    }
    if state.phase() == Phase::Clearing || state.phase() == Phase::Creating {
        if state.phase() == Phase::Clearing {
            state.step(PublishEvent::Removed(Ok(())));
        }
        state.step(PublishEvent::Created(Ok(())));
        let mut tree = Tree::new();
        let rules = IgnoreRuleSet::publishing();
        let outcome = match mirror(&world.source, &mut tree, &rules) {
            Ok(_) => MirrorOutcome::Clean,
            Err(list) => {
                assert(crate::mirror::failures_of(list@).len() == list.len());
                MirrorOutcome::WithErrors
            },
        };
        state.step(PublishEvent::Mirrored(outcome));
        destination = Some(tree);
    }
    (state, destination)
}

/// The world with something else at the destination.
pub open spec fn with_destination(world: World, destination: Option<Tree>) -> World {
    World { destination, ..world }
}

/// The destination is removed only with consent: a publish that has not
/// touched the destination yet goes on to remove it only when the
/// destination exists and the settings allow to replace without asking, or
/// when the operator was asked and agreed.
pub proof fn removal_needs_consent(state: PublisherView, event: PublishEvent)
    requires
        state.phase.before_mutation(),
        state.next(event).phase is Clearing,
    ensures
        match event {
            PublishEvent::DestinationProbed { exists } => state.phase is Built && state.no_ask
                && exists,
            PublishEvent::Answered { yes } => state.phase is Confirming && yes,
            _ => false,
        },
{
}

/// Before the operator has agreed or the destination is found absent, no
/// action that changes the destination is named.
pub proof fn nothing_touched_before_consent(state: PublisherView)
    requires
        state.phase.before_mutation(),
    ensures
        !state.pending().mutates(),
{
}

/// Where the destination exists and the settings ask for confirmation, the
/// operator is asked; the answer "no" ends the publish as cancelled, without
/// a failure and without another action, and the answer "yes" has the
/// destination removed.
pub proof fn confirmation_decides(state: PublisherView, yes: bool)
    requires
        state.phase is Built,
        state.destination is Some,
        !state.no_ask,
    ensures
        ({
            let asked = state.next(PublishEvent::DestinationProbed { exists: true });
            let answered = asked.next(PublishEvent::Answered { yes });
            &&& asked.phase is Confirming
            &&& asked.pending() == crate::publish::PublishActionView::AskToReplace(
                state.destination->0,
            )
            &&& !yes ==> answered.phase is Cancelled && answered.error == state.error
                && answered.pending() is Finish
            &&& yes ==> answered.phase is Clearing && answered.pending()
                == crate::publish::PublishActionView::RemoveDestination(state.destination->0)
        }),
{
}

/// Whatever is handed to a publish, it stays in a state that a publish can
/// be in: from the phase `Built` on the destination is known, and a publish
/// has failed exactly if it has a reason.
pub proof fn stays_consistent(state: PublisherView, event: PublishEvent)
    requires
        state.consistent(),
    ensures
        state.next(event).consistent(),
{
}

/// An event that a publish does not wait for changes nothing.
pub proof fn out_of_turn_changes_nothing(state: PublisherView, event: PublishEvent)
    requires
        !state.expects(event),
    ensures
        state.next(event) == state,
{
}

/// A publish that is over stays as it is, whatever is handed to it.
pub proof fn over_is_over(state: PublisherView, event: PublishEvent)
    requires
        state.phase.terminal(),
    ensures
        state.next(event) == state,
        state.pending() is Finish,
{
}

/// A failure of the build, of the listing or of the name ends the publish
/// before the destination is touched.
pub proof fn failure_before_destination(state: PublisherView, event: PublishEvent)
    requires
        state.phase is Start || state.phase is ConfigResolved || state.phase is Building,
    ensures
        !state.next(event).pending().mutates(),
        state.next(event).phase.before_mutation() || state.next(event).phase is Failed,
{
}

/// In a world where the destination exists, the settings ask for
/// confirmation and the operator declines, the publish leaves the
/// destination exactly as it was, and ends cancelled unless it failed
/// before it came to ask.
pub proof fn declined_publish_changes_nothing(start: PublisherView, world: World)
    requires
        start.phase is Start,
        !start.no_ask,
        world.destination is Some,
        !world.answer,
    ensures
        rehearsal_of(start, world).1 == held(world.destination),
        rehearsal_of(start, world).0.phase is Cancelled || rehearsal_of(start, world).0.phase
            is Failed,
{
}

/// In a world where the operator agrees, or the settings allow to replace
/// without asking, a publish that does not fail before leaves at the
/// destination exactly what a mirror into an empty directory leaves, whatever
/// was there.
pub proof fn confirmed_publish_replaces(start: PublisherView, world: World)
    requires
        start.phase is Start,
        world.answer || start.no_ask,
    ensures
        ({
            let (end, destination) = rehearsal_of(start, world);
            if end.phase is Failed {
                destination == held(world.destination)
            } else {
                &&& destination == Some(published(world).0)
                &&& end.phase is Success <==> published(world).1.len() == 0
                &&& end.phase is CompletedWithErrors <==> published(world).1.len() > 0
            }
        }),
{
}

/// Publishing twice is publishing once: in a world where the operator
/// agrees each time, or is not asked, a second publish of the same project,
/// begun with what the first one left at the destination, leaves the
/// destination as the first one left it, and ends as the first one did.
pub proof fn publish_twice_is_publish_once(start: PublisherView, world: World, left: Option<Tree>)
    requires
        start.phase is Start,
        world.answer || start.no_ask,
        held(left) == rehearsal_of(start, world).1,
    ensures
        rehearsal_of(start, with_destination(world, left)).1 == rehearsal_of(start, world).1,
        rehearsal_of(start, with_destination(world, left)).0.phase == rehearsal_of(
            start,
            world,
        ).0.phase,
{
    confirmed_publish_replaces(start, world);
    confirmed_publish_replaces(start, with_destination(world, left));
}

/// A publish replaces, it does not merge: whatever was at the destination
/// at a path that the project does not have is gone after a publish that
/// came as far as the mirror.
pub proof fn stale_content_is_gone(start: PublisherView, world: World, path: Seq<Seq<char>>)
    requires
        crate::source::well_formed(world.source@),
        forall|i: int| 0 <= i < world.source@.len() ==> (#[trigger] world.source@[i]).path != path,
        rehearsal_of(start, world).0.phase is Success || rehearsal_of(start, world).0.phase
            is CompletedWithErrors,
        start.phase is Start,
    ensures
        rehearsal_of(start, world).1 is Some,
        !rehearsal_of(start, world).1->0.contains_key(path),
{
    crate::theorems::mirror_into_empty(standard_denylist(), world.source@);
}

/// The tool's own files are never published: whatever the project holds
/// and whatever the rule files say, no path at the destination of a publish
/// has the version control directory, an ignore file or a configuration file
/// of the tool on it.
pub proof fn own_files_never_published(world: World, path: Seq<Seq<char>>, k: int)
    requires
        published(world).0.contains_key(path),
        0 <= k < path.len(),
    ensures
        path[k] != crate::matcher::VCS_DIRECTORY_NAME@,
        path[k] != crate::matcher::VCS_IGNORE_FILE_NAME@,
        path[k] != crate::matcher::PUBLISH_IGNORE_FILE_NAME@,
        path[k] != crate::matcher::PUBLISH_CONFIG_FILE_NAME@,
        path[k] != crate::matcher::PROJECT_CONFIG_FILE_NAME@,
{
    crate::matcher::standard_denylist_names();
    crate::theorems::denied_names_never_arrive(
        standard_denylist(),
        world.source@,
        Map::empty(),
        walk_of(standard_denylist(), world.source@, world.source@.len()),
    );
    assert(!crate::matcher::path_denied(standard_denylist(), path));
}

} // verus!
