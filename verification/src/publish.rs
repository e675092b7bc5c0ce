//! The order of a publish.
//!
//! A publish resolves the project's name, builds the project where it has a
//! solution, works out the destination, clears what is there once the
//! operator agrees, creates the destination anew and mirrors the project
//! into it. [`Publisher`] holds how far a publish has come. It never touches
//! the disk: it names the next [`PublishAction`], the caller performs it and
//! hands back what happened as a [`PublishEvent`].

use vstd::prelude::*;
use vstd::string::*;
use crate::config::Config;
use crate::error::{Error, ErrorKind, ErrorView};
use crate::matcher::{publishing_rules, IgnoreRuleSet, IgnoreRuleSetView, PUBLISH_CONFIG_FILE_NAME};
use crate::mirror::MirrorOutcome;
use crate::paths::{names_of, Location, LocationView};
use crate::project::{parse_failure, parse_failure_message, resolve, resolved_name, FileProbe};
use crate::text::{clone_text, joined3, text_of};
use crate::trigger::{
    build_arguments, build_arguments_of, build_verdict, execute_dotnet_build, find_sln_file,
    first_solution, BuildRun, DirItem,
};
use crate::util::TextEncoding;

verus! {

/// The arguments of the `publish` command.
#[derive(Debug)]
pub struct PublishArgs {
    /// A directory to publish into, in place of the configured one.
    pub target_dir: Option<String>,
}

/// The configuration that a publish reads in the project's directory.
#[derive(Debug)]
pub struct PublishConf {
    /// The name under which the project is published; empty where the
    /// directory's name is to be used.
    pub name: String,
}

impl Default for PublishConf {
    fn default() -> (r: PublishConf)
        ensures
            r.name@ == Seq::<char>::empty(),
    {
        PublishConf { name: String::new() }
    }
}

/// What a publish is going to do: mirror `source_root` into
/// `destination_root`, which ends in `project_name`.
#[derive(Debug)]
pub struct PublishPlan {
    pub source_root: String,
    pub destination_root: Location,
    pub project_name: String,
}

/// How far a publish has come.
#[derive(Clone, Copy, Debug, PartialEq, Eq, Structural)]
pub enum Phase {
    /// Nothing is known yet; the project's configuration is being read.
    Start,
    /// The project's name is known; its directory is being listed.
    ConfigResolved,
    /// A solution was found; the build is running.
    Building,
    /// The build is over or was not needed, and the destination is known;
    /// whether it exists is being found out.
    Built,
    /// The destination exists; the operator is being asked.
    Confirming,
    /// The destination is being removed.
    Clearing,
    /// The destination is being created.
    Creating,
    /// The destination is there and empty; the mirror is running.
    DestinationPrepared,
    /// Everything was brought over.
    Success,
    /// The mirror ran to its end, and some entries failed.
    CompletedWithErrors,
    /// The operator declined; nothing was touched.
    Cancelled,
    /// A step failed; the publish stopped there.
    Failed,
}

impl Phase {
    /// Whether the publish is over.
    pub open spec fn terminal(self) -> bool {
        self is Success || self is CompletedWithErrors || self is Cancelled || self is Failed
    }

    /// Whether the destination has not been touched when this phase is
    /// reached.
    pub open spec fn before_mutation(self) -> bool {
        self is Start || self is ConfigResolved || self is Building || self is Built
            || self is Confirming
    }
}

/// What happened when the caller performed an action.
#[derive(Debug)]
pub enum PublishEvent {
    /// The project's configuration was looked for, and the name of the
    /// project's directory.
    ProjectRead { conf: FileProbe<PublishConf>, directory_name: Option<String> },
    /// The project's directory was listed, or could not be.
    Scanned(Result<Vec<DirItem>, String>),
    /// The build ended.
    BuildFinished(BuildRun),
    /// Whether the destination exists.
    DestinationProbed { exists: bool },
    /// Whether the operator agreed to replace the destination.
    Answered { yes: bool },
    /// The destination was removed, or could not be.
    Removed(Result<(), String>),
    /// The destination was created, or could not be.
    Created(Result<(), String>),
    /// The mirror ran to its end.
    Mirrored(MirrorOutcome),
}

/// What the caller is to do next.
#[derive(Debug)]
pub enum PublishAction {
    /// Look for the project's configuration file and parse it, and take the
    /// name of the project's directory.
    ReadProject,
    /// List the project's directory.
    ScanDirectory,
    /// Run the build program with these arguments, in the directory that
    /// holds the solution.
    RunBuild { descriptor: String, arguments: Vec<String>, directory: String },
    /// Find out whether the destination exists.
    ProbeDestination(Location),
    /// Ask the operator whether the destination may be replaced.
    AskToReplace(Location),
    /// Remove the destination with everything in it.
    RemoveDestination(Location),
    /// Create the destination and every missing directory above it.
    CreateDestination(Location),
    /// Mirror the project's directory into the destination, leaving out
    /// what the rules exclude.
    Mirror { source_root: String, destination: Location, rules: IgnoreRuleSet },
    /// Nothing: the publish is over.
    Finish,
}

/// What a [`PublishAction`] stands for.
pub enum PublishActionView {
    ReadProject,
    ScanDirectory,
    RunBuild { descriptor: Seq<char>, arguments: Seq<Seq<char>>, directory: Seq<char> },
    ProbeDestination(LocationView),
    AskToReplace(LocationView),
    RemoveDestination(LocationView),
    CreateDestination(LocationView),
    Mirror { source_root: Seq<char>, destination: LocationView, rules: IgnoreRuleSetView },
    Finish,
}

impl View for PublishAction {
    type V = PublishActionView;

    open spec fn view(&self) -> PublishActionView {
        match self {
            PublishAction::ReadProject => PublishActionView::ReadProject,
            PublishAction::ScanDirectory => PublishActionView::ScanDirectory,
            PublishAction::RunBuild { descriptor, arguments, directory } =>
                PublishActionView::RunBuild {
                    descriptor: descriptor@,
                    arguments: names_of(arguments@),
                    directory: directory@,
                },
            PublishAction::ProbeDestination(place) => PublishActionView::ProbeDestination(place@),
            PublishAction::AskToReplace(place) => PublishActionView::AskToReplace(place@),
            PublishAction::RemoveDestination(place) => PublishActionView::RemoveDestination(
                place@,
            ),
            PublishAction::CreateDestination(place) => PublishActionView::CreateDestination(
                place@,
            ),
            PublishAction::Mirror { source_root, destination, rules } => PublishActionView::Mirror {
                source_root: source_root@,
                destination: destination@,
                rules: rules@,
            },
            PublishAction::Finish => PublishActionView::Finish,
        }
    }
}

impl PublishActionView {
    /// Whether the action changes what is on disk at the destination.
    pub open spec fn mutates(self) -> bool {
        self is RemoveDestination || self is CreateDestination || self is Mirror
    }
}

/// How a publish ended.
#[derive(Debug)]
pub enum PublishOutcome {
    Success,
    CompletedWithErrors,
    Cancelled,
    Failed(Error),
}

/// The state of a publish.
#[derive(Debug)]
pub struct Publisher {
    phase: Phase,
    target_dir: Option<String>,
    mods: Option<Location>,
    no_ask: bool,
    encoding: TextEncoding,
    working_directory: String,
    name: String,
    descriptor: String,
    destination: Option<Location>,
    error: Option<Error>,
}

/// What a [`Publisher`] stands for.
pub struct PublisherView {
    pub phase: Phase,
    /// The directory that the arguments name, if any.
    pub target_dir: Option<Seq<char>>,
    /// The directory of mods that the settings give, if any.
    pub mods: Option<LocationView>,
    /// Whether the settings allow to replace without asking.
    pub no_ask: bool,
    /// How the build's output is read.
    pub encoding: TextEncoding,
    /// The project's directory.
    pub working_directory: Seq<char>,
    /// The project's name, once it is resolved.
    pub name: Seq<char>,
    /// The solution that is being built, while a build runs.
    pub descriptor: Seq<char>,
    /// The destination, once it is known.
    pub destination: Option<LocationView>,
    /// Why the publish failed, if it did.
    pub error: Option<ErrorView>,
}

/// The message for a publish without a destination.
pub const NO_TARGET_MESSAGE: &'static str =
    "Cannot determine target directory from config or args";

/// The name under which a project is published: the one that its
/// configuration gives, else the name of its directory. A configuration
/// that cannot be read or parsed, and a project that has neither name, are
/// failures.
pub open spec fn publish_name(conf: FileProbe<PublishConf>, directory_name: Option<String>) -> Result<
    Seq<char>,
    ErrorView,
> {
    match conf {
        FileProbe::Unreadable(detail) => Err(
            ErrorView { kind: ErrorKind::Filesystem, message: detail@ },
        ),
        FileProbe::Malformed(detail) => Err(
            ErrorView {
                kind: ErrorKind::Config,
                message: parse_failure_message(PUBLISH_CONFIG_FILE_NAME@, detail@),
            },
        ),
        _ => {
            let configured = match conf {
                FileProbe::Parsed(c) => c.name@,
                _ => Seq::<char>::empty(),
            };
            resolved_name(configured, text_of(directory_name))
        },
    }
}

/// Where a project called `name` is published: below the directory that
/// the arguments name, else below the directory of mods of the settings;
/// nowhere if there is neither.
pub open spec fn destination_of(
    target_dir: Option<Seq<char>>,
    mods: Option<LocationView>,
    name: Seq<char>,
) -> Option<LocationView> {
    match target_dir {
        Some(base) => Some(LocationView { base, below: seq![name] }),
        None => match mods {
            Some(place) => Some(place.join(name)),
            None => None,
        },
    }
}

/// The state in which a publish begins: nothing is resolved, and the
/// directory of mods is the one that lies below the game's directory of the
/// settings.
pub open spec fn start_of(
    target_dir: Option<Seq<char>>,
    config: crate::config::ConfigView,
    working_directory: Seq<char>,
    encoding: TextEncoding,
) -> PublisherView {
    PublisherView {
        phase: Phase::Start,
        target_dir,
        mods: match config.path_game {
            Some(game) => Some(
                LocationView { base: game, below: seq![crate::config::PATH_SEG_MODS@] },
            ),
            None => None,
        },
        no_ask: config.no_ask,
        encoding,
        working_directory,
        name: Seq::<char>::empty(),
        descriptor: Seq::<char>::empty(),
        destination: None,
        error: None,
    }
}

impl PublisherView {
    /// The state after a failure.
    pub open spec fn failed(self, error: ErrorView) -> PublisherView {
        PublisherView { phase: Phase::Failed, error: Some(error), ..self }
    }

    /// The state in another phase.
    pub open spec fn at(self, phase: Phase) -> PublisherView {
        PublisherView { phase, ..self }
    }

    /// The action that the caller is to perform in this state.
    pub open spec fn pending(self) -> PublishActionView {
        match self.phase {
            Phase::Start => PublishActionView::ReadProject,
            Phase::ConfigResolved => PublishActionView::ScanDirectory,
            Phase::Building => PublishActionView::RunBuild {
                descriptor: self.descriptor,
                arguments: build_arguments_of(self.descriptor),
                directory: self.working_directory,
            },
            Phase::Built => match self.destination {
                Some(place) => PublishActionView::ProbeDestination(place),
                None => PublishActionView::Finish,
            },
            Phase::Confirming => match self.destination {
                Some(place) => PublishActionView::AskToReplace(place),
                None => PublishActionView::Finish,
            },
            Phase::Clearing => match self.destination {
                Some(place) => PublishActionView::RemoveDestination(place),
                None => PublishActionView::Finish,
            },
            Phase::Creating => match self.destination {
                Some(place) => PublishActionView::CreateDestination(place),
                None => PublishActionView::Finish,
            },
            Phase::DestinationPrepared => match self.destination {
                Some(place) => PublishActionView::Mirror {
                    source_root: self.working_directory,
                    destination: place,
                    rules: publishing_rules(),
                },
                None => PublishActionView::Finish,
            },
            _ => PublishActionView::Finish,
        }
    }

    /// Whether the state is one that a publish can be in: the destination
    /// is known from the phase `Built` on, and a failed publish has its
    /// reason.
    pub open spec fn consistent(self) -> bool {
        &&& (self.phase is Built || self.phase is Confirming || self.phase is Clearing
            || self.phase is Creating || self.phase is DestinationPrepared)
            ==> self.destination is Some
        &&& self.phase is Failed <==> self.error is Some
    }

    /// The state once the build is over or was not needed: the destination
    /// is worked out, and the publish fails if there is none.
    pub open spec fn built(self) -> PublisherView {
        match destination_of(self.target_dir, self.mods, self.name) {
            Some(place) => PublisherView {
                phase: Phase::Built,
                destination: Some(place),
                ..self
            },
            None => self.failed(ErrorView { kind: ErrorKind::Config, message: NO_TARGET_MESSAGE@ }),
        }
    }

    /// Whether the state waits for this kind of event.
    pub open spec fn expects(self, event: PublishEvent) -> bool {
        match (self.phase, event) {
            (Phase::Start, PublishEvent::ProjectRead { .. }) => true,
            (Phase::ConfigResolved, PublishEvent::Scanned(_)) => true,
            (Phase::Building, PublishEvent::BuildFinished(_)) => true,
            (Phase::Built, PublishEvent::DestinationProbed { .. }) => true,
            (Phase::Confirming, PublishEvent::Answered { .. }) => true,
            (Phase::Clearing, PublishEvent::Removed(_)) => true,
            (Phase::Creating, PublishEvent::Created(_)) => true,
            (Phase::DestinationPrepared, PublishEvent::Mirrored(_)) => true,
            _ => false,
        }
    }

    /// The state after an event. An event that the state does not wait for
    /// changes nothing.
    pub open spec fn next(self, event: PublishEvent) -> PublisherView {
        match (self.phase, event) {
            (Phase::Start, PublishEvent::ProjectRead { conf, directory_name }) => match publish_name(
                conf,
                directory_name,
            ) {
                Ok(name) => PublisherView { phase: Phase::ConfigResolved, name, ..self },
                Err(e) => self.failed(e),
            },
            (Phase::ConfigResolved, PublishEvent::Scanned(listing)) => match listing {
                Err(detail) => self.failed(
                    ErrorView { kind: ErrorKind::Filesystem, message: detail@ },
                ),
                Ok(items) => match first_solution(items@) {
                    Some(descriptor) => PublisherView {
                        phase: Phase::Building,
                        descriptor,
                        ..self
                    },
                    None => self.built(),
                },
            },
            (Phase::Building, PublishEvent::BuildFinished(run)) => match build_verdict(
                run,
                self.encoding,
            ) {
                Ok(_) => self.built(),
                Err(e) => self.failed(e),
            },
            (Phase::Built, PublishEvent::DestinationProbed { exists }) => if !exists {
                self.at(Phase::Creating)
            } else if self.no_ask {
                self.at(Phase::Clearing)
            } else {
                self.at(Phase::Confirming)
            },
            (Phase::Confirming, PublishEvent::Answered { yes }) => if yes {
                self.at(Phase::Clearing)
            } else {
                self.at(Phase::Cancelled)
            },
            (Phase::Clearing, PublishEvent::Removed(result)) => match result {
                Ok(_) => self.at(Phase::Creating),
                Err(detail) => self.failed(
                    ErrorView {
                        kind: ErrorKind::Filesystem,
                        message: "Failed to remove existing target directory: "@ + detail@,
                    },
                ),
            },
            (Phase::Creating, PublishEvent::Created(result)) => match result {
                Ok(_) => self.at(Phase::DestinationPrepared),
                Err(detail) => self.failed(
                    ErrorView {
                        kind: ErrorKind::Filesystem,
                        message: "Failed to create target directory: "@ + detail@,
                    },
                ),
            },
            (Phase::DestinationPrepared, PublishEvent::Mirrored(outcome)) => match outcome {
                MirrorOutcome::Clean => self.at(Phase::Success),
                MirrorOutcome::WithErrors => self.at(Phase::CompletedWithErrors),
            },
            _ => self,
        }
    }
}

impl PublishEvent {
    /// Whether what a build wrote, if this is the end of one, can be
    /// decoded.
    pub open spec fn decodable(self) -> bool {
        match self {
            PublishEvent::BuildFinished(run) => run.decodable(),
            _ => true,
        }
    }

    /// Whether what a build wrote, if this is the end of one, can be
    /// decoded.
    pub fn is_decodable(&self) -> (r: bool)
        ensures
            r == self.decodable(),
    {
        match self {
            PublishEvent::BuildFinished(run) => run.is_decodable(),
            _ => true,
        }
    }
}

impl View for Publisher {
    type V = PublisherView;

    closed spec fn view(&self) -> PublisherView {
        PublisherView {
            phase: self.phase,
            target_dir: text_of(self.target_dir),
            mods: match self.mods {
                Some(place) => Some(place@),
                None => None,
            },
            no_ask: self.no_ask,
            encoding: self.encoding,
            working_directory: self.working_directory@,
            name: self.name@,
            descriptor: self.descriptor@,
            destination: match self.destination {
                Some(place) => Some(place@),
                None => None,
            },
            error: match self.error {
                Some(e) => Some(e@),
                None => None,
            },
        }
    }
}

/// The name under which a project is published.
pub fn resolve_publish_name(conf: FileProbe<PublishConf>, directory_name: Option<String>) -> (r:
    Result<String, Error>)
    ensures
        match publish_name(conf, directory_name) {
            Ok(name) => r matches Ok(n) && n@ == name && n@.len() > 0,
            Err(e) => r matches Err(failure) && failure@ == e,
        },
{
    let configured = match conf {
        FileProbe::Unreadable(detail) => {
            return Err(Error::of(ErrorKind::Filesystem, detail));
        },
        FileProbe::Malformed(detail) => {
            return Err(parse_failure(PUBLISH_CONFIG_FILE_NAME, detail.as_str()));
        },
        FileProbe::Parsed(c) => c.name,
        FileProbe::Absent => String::new(),
    };
    resolve(configured, directory_name)
}

/// Where a project called `name` is published.
pub fn resolve_destination(target_dir: &Option<String>, mods: &Option<Location>, name: &str) -> (r:
    Option<Location>)
    ensures
        match destination_of(
            text_of(*target_dir),
            match *mods {
                Some(place) => Some(place@),
                None => None,
            },
            name@,
        ) {
            Some(place) => r matches Some(p) && p@ == place,
            None => r is None,
        },
{
    match target_dir {
        Some(base) => {
            let place = Location::new(base.as_str()).join(name);
            assert(place@.below =~= seq![name@]);
            Some(place)
        },
        None => match mods {
            Some(place) => Some(place.join(name)),
            None => None,
        },
    }
}

/// The question that is put to the operator before a destination, shown
/// as `shown`, is replaced.
pub fn replace_question(shown: &str) -> (r: String)
    ensures
        r@ == "Target directory '"@ + shown@
            + "' already exists. Do you want to delete it and continue? (y/N): "@,
{
    joined3(
        "Target directory '",
        shown,
        "' already exists. Do you want to delete it and continue? (y/N): ",
    )
}

impl PublishArgs {
    /// Begins a publish of the project in `working_directory` with the
    /// settings as they are now. Nothing has been done yet; the first
    /// action is to read the project's configuration.
    pub fn run(&self, config: &Config, working_directory: &str, encoding: TextEncoding) -> (r: (
        Publisher,
        PublishAction,
    ))
        ensures
            r.0@ == start_of(text_of(self.target_dir), config@, working_directory@, encoding),
            r.0@.consistent(),
            r.1@ == PublishActionView::ReadProject,
    {
        let mods = match config.get_path_mods() {
            Ok(found) => found,
            Err(_) => None,
        };
        let state = Publisher {
            phase: Phase::Start,
            target_dir: clone_text(&self.target_dir),
            mods,
            no_ask: config.no_ask,
            encoding,
            working_directory: working_directory.to_owned(),
            name: String::new(),
            descriptor: String::new(),
            destination: None,
            error: None,
        };
        (state, PublishAction::ReadProject)
    }
}

impl Publisher {
    /// How far the publish has come.
    pub fn phase(&self) -> (r: Phase)
        ensures
            r == self@.phase,
    {
        self.phase
    }

    /// Whether the publish is over.
    pub fn is_over(&self) -> (r: bool)
        ensures
            r == self@.phase.terminal(),
    {
        match self.phase {
            Phase::Success | Phase::CompletedWithErrors | Phase::Cancelled | Phase::Failed => true,
            _ => false,
        }
    }

    /// What the publish is going to do, once the destination is known.
    pub fn plan(&self) -> (r: Option<PublishPlan>)
        ensures
            match self@.destination {
                Some(place) => r matches Some(plan) && plan.destination_root@ == place
                    && plan.source_root@ == self@.working_directory && plan.project_name@
                    == self@.name,
                None => r is None,
            },
    {
        match &self.destination {
            Some(place) => Some(
                PublishPlan {
                    source_root: self.working_directory.clone(),
                    destination_root: place.duplicate(),
                    project_name: self.name.clone(),
                },
            ),
            None => None,
        }
    }

    /// How the publish ended, once it is over.
    pub fn outcome(&self) -> (r: Option<PublishOutcome>)
        ensures
            match self@.phase {
                Phase::Success => r matches Some(PublishOutcome::Success),
                Phase::CompletedWithErrors => r matches Some(PublishOutcome::CompletedWithErrors),
                Phase::Cancelled => r matches Some(PublishOutcome::Cancelled),
                Phase::Failed => match self@.error {
                    Some(e) => r matches Some(PublishOutcome::Failed(failure)) && failure@ == e,
                    None => r is None,
                },
                _ => r is None,
            },
    {
        match self.phase {
            Phase::Success => Some(PublishOutcome::Success),
            Phase::CompletedWithErrors => Some(PublishOutcome::CompletedWithErrors),
            Phase::Cancelled => Some(PublishOutcome::Cancelled),
            Phase::Failed => match &self.error {
                Some(e) => Some(PublishOutcome::Failed(e.duplicate())),
                None => None,
            },
            _ => None,
        }
    }

    /// The action that the caller is to perform now.
    pub fn pending(&self) -> (r: PublishAction)
        ensures
            r@ == self@.pending(),
    {
        match self.phase {
            Phase::Start => PublishAction::ReadProject,
            Phase::ConfigResolved => PublishAction::ScanDirectory,
            Phase::Building => PublishAction::RunBuild {
                descriptor: self.descriptor.clone(),
                arguments: build_arguments(self.descriptor.as_str()),
                directory: self.working_directory.clone(),
            },
            Phase::Built => match &self.destination {
                Some(place) => PublishAction::ProbeDestination(place.duplicate()),
                None => PublishAction::Finish,
            },
            Phase::Confirming => match &self.destination {
                Some(place) => PublishAction::AskToReplace(place.duplicate()),
                None => PublishAction::Finish,
            },
            Phase::Clearing => match &self.destination {
                Some(place) => PublishAction::RemoveDestination(place.duplicate()),
                None => PublishAction::Finish,
            },
            Phase::Creating => match &self.destination {
                Some(place) => PublishAction::CreateDestination(place.duplicate()),
                None => PublishAction::Finish,
            },
            Phase::DestinationPrepared => match &self.destination {
                Some(place) => PublishAction::Mirror {
                    source_root: self.working_directory.clone(),
                    destination: place.duplicate(),
                    rules: IgnoreRuleSet::publishing(),
                },
                None => PublishAction::Finish,
            },
            _ => PublishAction::Finish,
        }
    }

    /// Stops the publish with a failure.
    fn fail(&mut self, error: Error)
        ensures
            final(self)@ == old(self)@.failed(error@),
    {
        self.phase = Phase::Failed;
        self.error = Some(error);
    }

    /// Moves on once the build is over or was not needed.
    fn enter_built(&mut self)
        ensures
            final(self)@ == old(self)@.built(),
    {
        match resolve_destination(&self.target_dir, &self.mods, self.name.as_str()) {
            Some(place) => {
                self.destination = Some(place);
                self.phase = Phase::Built;
            },
            None => {
                self.fail(Error::of(ErrorKind::Config, NO_TARGET_MESSAGE.to_owned()));
            },
        }
    }

    /// Takes in what happened and names the next action. An event that the
    /// publish does not wait for changes nothing, and the same action is
    /// named again.
    pub fn step(&mut self, event: PublishEvent) -> (r: PublishAction)
        requires
            event.decodable(),
        ensures
            final(self)@ == old(self)@.next(event),
            r@ == final(self)@.pending(),
    {
        match (self.phase, event) {
            (Phase::Start, PublishEvent::ProjectRead { conf, directory_name }) => {
                match resolve_publish_name(conf, directory_name) {
                    Ok(name) => {
                        self.name = name;
                        self.phase = Phase::ConfigResolved;
                    },
                    Err(e) => {
                        self.fail(e);
                    },
                }
            },
            (Phase::ConfigResolved, PublishEvent::Scanned(listing)) => {
                match listing {
                    Err(detail) => {
                        self.fail(Error::of(ErrorKind::Filesystem, detail));
                    },
                    Ok(items) => match find_sln_file(&items) {
                        Some(descriptor) => {
                            self.descriptor = descriptor;
                            self.phase = Phase::Building;
                        },
                        None => {
                            self.enter_built();
                        },
                    },
                }
            },
            (Phase::Building, PublishEvent::BuildFinished(run)) => {
                match execute_dotnet_build(&run, self.encoding) {
                    Ok(_) => {
                        self.enter_built();
                    },
                    Err(e) => {
                        self.fail(e);
                    },
                }
            },
            (Phase::Built, PublishEvent::DestinationProbed { exists }) => {
                if !exists {
                    self.phase = Phase::Creating;
                } else if self.no_ask {
                    self.phase = Phase::Clearing;
                } else {
                    self.phase = Phase::Confirming;
                }
            },
            (Phase::Confirming, PublishEvent::Answered { yes }) => {
                if yes {
                    self.phase = Phase::Clearing;
                } else {
                    self.phase = Phase::Cancelled;
                }
            },
            (Phase::Clearing, PublishEvent::Removed(result)) => {
                match result {
                    Ok(_) => {
                        self.phase = Phase::Creating;
                    },
                    Err(detail) => {
                        self.fail(
                            Error::new(
                                ErrorKind::Filesystem,
                                "Failed to remove existing target directory: ",
                                detail.as_str(),
                            ),
                        );
                    },
                }
            },
            (Phase::Creating, PublishEvent::Created(result)) => {
                match result {
                    Ok(_) => {
                        self.phase = Phase::DestinationPrepared;
                    },
                    Err(detail) => {
                        self.fail(
                            Error::new(
                                ErrorKind::Filesystem,
                                "Failed to create target directory: ",
                                detail.as_str(),
                            ),
                        );
                    },
                }
            },
            (Phase::DestinationPrepared, PublishEvent::Mirrored(outcome)) => {
                match outcome {
                    MirrorOutcome::Clean => {
                        self.phase = Phase::Success;
                    },
                    MirrorOutcome::WithErrors => {
                        self.phase = Phase::CompletedWithErrors;
                    },
                }
            },
            _ => {},
        }
        self.pending()
    }
}

} // verus!
