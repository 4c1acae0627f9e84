//! Running a resolution to its end against a host.

use vstd::prelude::*;
use crate::error::ResolveError;
use crate::platform::{Architecture, ArchiveKind, Os};
use crate::protocol::{Action, ActionModel, Event, EventModel, Status};
use crate::release::Release;
use crate::resolver::{PhaseModel, Resolver, ResolverModel};

verus! {

/// What the resolver needs from its surroundings: the host runtime and the
/// file system under the working directory. Nothing is assumed of an
/// implementation: the resolver decides on whatever it is told.
pub trait Host {
    /// Whether `path` is there and is a regular file.
    fn is_file(&mut self, path: &str) -> bool;

    /// Takes a status notification. It cannot fail the resolution.
    fn notify(&mut self, status: Status);

    /// The latest release of `repository`, or a message saying why there is none.
    fn latest_release(
        &mut self,
        repository: &str,
        require_assets: bool,
        pre_release: bool,
    ) -> Result<Release, String>;

    /// The operating system and the architecture of the running host.
    fn current_platform(&mut self) -> (Os, Architecture);

    /// Creates `dir` and its parents.
    fn create_dir_all(&mut self, dir: &str) -> Result<(), String>;

    /// Downloads `url` and unpacks it into `dir`.
    fn download(&mut self, url: &str, dir: &str, archive: ArchiveKind) -> Result<(), String>;

    /// Gives `path` the permission to execute.
    fn make_executable(&mut self, path: &str) -> Result<(), String>;

    /// The names of the entries of the working directory, `None` for a name that
    /// is not valid text; `None` for the whole where they cannot be listed.
    fn list_working_dir(&mut self) -> Option<Vec<Option<String>>>;

    /// Removes the entries at `positions` of the last listing, each with all it
    /// holds, and says how many could not be removed.
    fn remove_entries(&mut self, positions: &Vec<usize>) -> usize;
}

/// Whether an event is the answer to an action. Nothing answers `Finish`.
pub open spec fn answers(event: EventModel, action: ActionModel) -> bool {
    match action {
        ActionModel::AwaitRequest => event is Requested,
        ActionModel::ProbeFile { .. } => event is Probed,
        ActionModel::Notify { .. } => event is Notified,
        ActionModel::FetchRelease { .. } => event is ReleaseFetched,
        ActionModel::QueryPlatform => event is Platform,
        ActionModel::CreateDir { .. } => event is DirCreated,
        ActionModel::Download { .. } => event is Downloaded,
        ActionModel::MakeExecutable { .. } => event is MadeExecutable,
        ActionModel::ListWorkingDir => event is Listed,
        ActionModel::RemoveEntries { .. } => event is Removed,
        ActionModel::Finish { .. } => false,
    }
}

/// The resolver and the action it asks for after a sequence of events.
pub open spec fn run(start: ResolverModel, events: Seq<EventModel>) -> (ResolverModel, ActionModel)
    decreases events.len(),
{
    if events.len() == 0 {
        (start, start.phase.pending())
    } else {
        run(start, events.drop_last()).0.step(events.last())
    }
}

/// Whether each event of the sequence answers the action asked for just before it.
pub open spec fn is_answered_run(start: ResolverModel, events: Seq<EventModel>) -> bool {
    forall|k: int|
        0 <= k < events.len() ==> answers(events[k], #[trigger] run(start, events.take(k)).1)
}

/// How far a phase is on the way to the end of a resolution.
pub open spec fn progress(phase: PhaseModel) -> nat {
    match phase {
        PhaseModel::Idle => 0,
        PhaseModel::ProbingCache { .. } => 1,
        PhaseModel::AnnouncingCheck => 2,
        PhaseModel::FetchingRelease => 3,
        PhaseModel::QueryingPlatform { .. } => 4,
        PhaseModel::CreatingDir { .. } => 5,
        PhaseModel::ProbingBinary { .. } => 6,
        PhaseModel::AnnouncingDownload { .. } => 7,
        PhaseModel::Downloading { .. } => 8,
        PhaseModel::MarkingExecutable { .. } => 9,
        PhaseModel::Listing { .. } => 10,
        PhaseModel::Removing { .. } => 11,
    }
}

/// An answer always leads on: the resolution finishes, or it reaches a later
/// phase and asks for the action of that phase.
pub proof fn answer_makes_progress(resolver: ResolverModel, event: EventModel)
    requires
        answers(event, resolver.phase.pending()),
    ensures
        ({
            let (after, action) = resolver.step(event);
            if action is Finish {
                after.phase is Idle
            } else {
                progress(after.phase) > progress(resolver.phase) && action == after.phase.pending()
            }
        }),
{
}

/// The action that ends a resolution with `outcome`.
pub open spec fn finished(outcome: Result<String, ResolveError>) -> ActionModel {
    ActionModel::Finish {
        outcome: match outcome {
            Ok(path) => Ok(path@),
            Err(failure) => Err(failure@),
        },
    }
}

impl Resolver {
    /// Gives the path of the tool's binary, installing it if necessary.
    ///
    /// A resolution that was left unfinished is dropped first. Then the host is
    /// asked for one thing after another, as the resolver's steps say, until
    /// they finish.
    ///
    /// The contract says that the result and the resolver afterwards are those
    /// that `step` gives along some run of events, each of which answers the
    /// action asked for before it. It does not say that these events are what
    /// the host answered: the methods of `Host` promise nothing, so nothing
    /// can be stated of them. What is decided on each answer is fixed by
    /// `advance`.
    pub fn resolve<H: Host>(&mut self, host: &mut H) -> (r: Result<String, ResolveError>)
        ensures
            exists|events: Seq<EventModel>|
                {
                    &&& #[trigger] is_answered_run(old(self)@.idle(), events)
                    &&& run(old(self)@.idle(), events) == (final(self)@, finished(r))
                },
            final(self)@.phase is Idle,
            match r {
                Ok(path) => final(self)@.cached == Some(path@),
                Err(_) => final(self)@.cached == old(self)@.cached,
            },
    {
        self.abandon();
        let ghost start = self@;
        let ghost events: Seq<EventModel> = Seq::empty();
        let mut action = Action::AwaitRequest;
        loop
            invariant
                start == old(self)@.idle(),
                is_answered_run(start, events),
                run(start, events) == (self@, action@),
                action@ is Finish ==> self@.phase is Idle,
                !(action@ is Finish) ==> action@ == self@.phase.pending(),
                match action@ {
                    ActionModel::Finish { outcome: Ok(path) } => self@.cached == Some(path),
                    _ => self@.cached == start.cached,
                },
            decreases
                    if action@ is Finish {
                        0
                    } else {
                        12 - progress(self@.phase)
                    },
        {
            let event = match action {
                Action::Finish { outcome } => {
                    return outcome;
                },
                Action::AwaitRequest => Event::Requested,
                Action::ProbeFile { path } => Event::Probed { is_file: host.is_file(path.as_str()) },
                Action::Notify { status } => {
                    host.notify(status);
                    Event::Notified
                },
                Action::FetchRelease { repository, require_assets, pre_release } => {
                    Event::ReleaseFetched {
                        fetched: host.latest_release(
                            repository.as_str(),
                            require_assets,
                            pre_release,
                        ),
                    }
                },
                Action::QueryPlatform => {
                    let (os, arch) = host.current_platform();
                    Event::Platform { os, arch }
                },
                Action::CreateDir { dir } => Event::DirCreated {
                    outcome: host.create_dir_all(dir.as_str()),
                },
                Action::Download { url, dir, archive } => Event::Downloaded {
                    outcome: host.download(url.as_str(), dir.as_str(), archive),
                },
                Action::MakeExecutable { path } => Event::MadeExecutable {
                    outcome: host.make_executable(path.as_str()),
                },
                Action::ListWorkingDir => Event::Listed { entries: host.list_working_dir() },
                Action::RemoveEntries { positions } => Event::Removed {
                    failures: host.remove_entries(&positions),
                },
            };
            proof {
                answer_makes_progress(self@, event@);
                let longer = events.push(event@);
                assert(longer.drop_last() == events);
                assert forall|k: int| 0 <= k < longer.len() implies answers(
                    longer[k],
                    #[trigger] run(start, longer.take(k)).1,
                ) by {
                    if k < events.len() {
                        assert(longer.take(k) == events.take(k));
                    } else {
                        assert(longer.take(k) == events);
                    }
                }
                events = longer;
            }
            action = self.advance(event);
        }
    }
}

} // verus!
