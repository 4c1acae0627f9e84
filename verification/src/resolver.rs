//! The resolver: a memo of the last resolved path, and the procedure that
//! resolves the binary one action at a time.

use vstd::prelude::*;
use vstd::string::StringExecFns;
use crate::cleanup::{stale_entries, stale_positions};
use crate::error::{FailureModel, ResolveError};
use crate::platform::{
    archive_kind, asset_name, binary_path, binary_path_in, expected_asset_name, version_dir,
    version_dir_name, ArchiveKind, Os,
};
use crate::protocol::{Action, ActionModel, Event, EventModel, Status};
use crate::release::{first_named, Release, ReleaseModel};

verus! {

/// The repository that publishes the tool.
pub open spec fn repository() -> Seq<char> {
    "MathiasPius/crates-lsp"@
}

/// Where one version is installed and where it comes from.
#[derive(Clone, Debug, PartialEq, Eq)]
pub struct InstallPlan {
    pub version_dir: String,
    pub binary_path: String,
    pub download_url: String,
    pub archive: ArchiveKind,
}

/// What an install plan is, with its texts as sequences of characters.
pub struct PlanModel {
    pub version_dir: Seq<char>,
    pub binary_path: Seq<char>,
    pub download_url: Seq<char>,
    pub archive: ArchiveKind,
}

impl View for InstallPlan {
    type V = PlanModel;

    open spec fn view(&self) -> PlanModel {
        PlanModel {
            version_dir: self.version_dir@,
            binary_path: self.binary_path@,
            download_url: self.download_url@,
            archive: self.archive,
        }
    }
}

/// The plan for installing `version` on `os` from the address `download_url`.
pub open spec fn plan_for(version: Seq<char>, os: Os, download_url: Seq<char>) -> PlanModel {
    PlanModel {
        version_dir: version_dir(version),
        binary_path: binary_path(version, os),
        download_url,
        archive: archive_kind(os),
    }
}

impl InstallPlan {
    /// Makes the plan for installing `version` on `os` from `download_url`.
    pub fn new(version: &str, os: Os, download_url: String) -> (r: InstallPlan)
        ensures
            r@ == plan_for(version@, os, download_url@),
    {
        let version_dir = version_dir_name(version);
        let binary_path = binary_path_in(version_dir.as_str(), os);
        InstallPlan { version_dir, binary_path, download_url, archive: os.archive_kind() }
    }
}

/// How far a resolution has come. Each phase but `Idle` waits for the answer to
/// one action.
#[derive(Debug)]
pub enum Phase {
    Idle,
    ProbingCache { path: String },
    AnnouncingCheck,
    FetchingRelease,
    QueryingPlatform { release: Release },
    CreatingDir { plan: InstallPlan },
    ProbingBinary { plan: InstallPlan },
    AnnouncingDownload { plan: InstallPlan },
    Downloading { plan: InstallPlan },
    MarkingExecutable { plan: InstallPlan },
    Listing { plan: InstallPlan },
    Removing { plan: InstallPlan, stale: Vec<usize> },
}

/// What a phase is, with its texts as sequences of characters.
pub enum PhaseModel {
    Idle,
    ProbingCache { path: Seq<char> },
    AnnouncingCheck,
    FetchingRelease,
    QueryingPlatform { release: ReleaseModel },
    CreatingDir { plan: PlanModel },
    ProbingBinary { plan: PlanModel },
    AnnouncingDownload { plan: PlanModel },
    Downloading { plan: PlanModel },
    MarkingExecutable { plan: PlanModel },
    Listing { plan: PlanModel },
    Removing { plan: PlanModel, stale: Seq<usize> },
}

impl View for Phase {
    type V = PhaseModel;

    open spec fn view(&self) -> PhaseModel {
        match *self {
            Phase::Idle => PhaseModel::Idle,
            Phase::ProbingCache { path } => PhaseModel::ProbingCache { path: path@ },
            Phase::AnnouncingCheck => PhaseModel::AnnouncingCheck,
            Phase::FetchingRelease => PhaseModel::FetchingRelease,
            Phase::QueryingPlatform { release } => PhaseModel::QueryingPlatform {
                release: release@,
            },
            Phase::CreatingDir { plan } => PhaseModel::CreatingDir { plan: plan@ },
            Phase::ProbingBinary { plan } => PhaseModel::ProbingBinary { plan: plan@ },
            Phase::AnnouncingDownload { plan } => PhaseModel::AnnouncingDownload { plan: plan@ },
            Phase::Downloading { plan } => PhaseModel::Downloading { plan: plan@ },
            Phase::MarkingExecutable { plan } => PhaseModel::MarkingExecutable { plan: plan@ },
            Phase::Listing { plan } => PhaseModel::Listing { plan: plan@ },
            Phase::Removing { plan, stale } => PhaseModel::Removing { plan: plan@, stale: stale@ },
        }
    }
}

impl PhaseModel {
    /// The action that a phase waits on.
    pub open spec fn pending(self) -> ActionModel {
        match self {
            PhaseModel::Idle => ActionModel::AwaitRequest,
            PhaseModel::ProbingCache { path } => ActionModel::ProbeFile { path },
            PhaseModel::AnnouncingCheck => ActionModel::Notify {
                status: Status::CheckingForUpdate,
            },
            PhaseModel::FetchingRelease => ActionModel::FetchRelease {
                repository: repository(),
                require_assets: true,
                pre_release: false,
            },
            PhaseModel::QueryingPlatform { release } => ActionModel::QueryPlatform,
            PhaseModel::CreatingDir { plan } => ActionModel::CreateDir { dir: plan.version_dir },
            PhaseModel::ProbingBinary { plan } => ActionModel::ProbeFile { path: plan.binary_path },
            PhaseModel::AnnouncingDownload { plan } => ActionModel::Notify {
                status: Status::Downloading,
            },
            PhaseModel::Downloading { plan } => ActionModel::Download {
                url: plan.download_url,
                dir: plan.version_dir,
                archive: plan.archive,
            },
            PhaseModel::MarkingExecutable { plan } => ActionModel::MakeExecutable {
                path: plan.binary_path,
            },
            PhaseModel::Listing { plan } => ActionModel::ListWorkingDir,
            PhaseModel::Removing { plan, stale } => ActionModel::RemoveEntries { positions: stale },
        }
    }
}

/// What a resolver is: the path it remembers, and the phase it is in.
pub struct ResolverModel {
    pub cached: Option<Seq<char>>,
    pub phase: PhaseModel,
}

impl ResolverModel {
    /// The same resolver with nothing in progress.
    pub open spec fn idle(self) -> ResolverModel {
        ResolverModel { cached: self.cached, phase: PhaseModel::Idle }
    }

    /// Goes to `phase` and asks for the action that it waits on.
    pub open spec fn enter(self, phase: PhaseModel) -> (ResolverModel, ActionModel) {
        (ResolverModel { cached: self.cached, phase }, phase.pending())
    }

    /// Ends the resolution with a failure. The remembered path stays as it was.
    pub open spec fn fail(self, failure: FailureModel) -> (ResolverModel, ActionModel) {
        (
            ResolverModel { cached: self.cached, phase: PhaseModel::Idle },
            ActionModel::Finish { outcome: Err(failure) },
        )
    }

    /// Ends the resolution with `path`, and remembers it.
    pub open spec fn succeed(self, path: Seq<char>) -> (ResolverModel, ActionModel) {
        (
            ResolverModel { cached: Some(path), phase: PhaseModel::Idle },
            ActionModel::Finish { outcome: Ok(path) },
        )
    }

    /// The resolver after an event, and the action it asks for next.
    ///
    /// A binary that is already in its version directory is not downloaded
    /// again, but the working directory is still cleared of other versions.
    /// An event that does not answer the pending action changes nothing, and the
    /// pending action is asked for again.
    pub open spec fn step(self, event: EventModel) -> (ResolverModel, ActionModel) {
        match (self.phase, event) {
            (PhaseModel::Idle, EventModel::Requested) => match self.cached {
                Some(path) => self.enter(PhaseModel::ProbingCache { path }),
                None => self.enter(PhaseModel::AnnouncingCheck),
            },
            (PhaseModel::ProbingCache { path }, EventModel::Probed { is_file }) => if is_file {
                self.succeed(path)
            } else {
                self.enter(PhaseModel::AnnouncingCheck)
            },
            (PhaseModel::AnnouncingCheck, EventModel::Notified) => self.enter(
                PhaseModel::FetchingRelease,
            ),
            (PhaseModel::FetchingRelease, EventModel::ReleaseFetched { fetched }) => match fetched {
                Ok(release) => self.enter(PhaseModel::QueryingPlatform { release }),
                Err(message) => self.fail(FailureModel::ReleaseFetch { message }),
            },
            (PhaseModel::QueryingPlatform { release }, EventModel::Platform { os, arch }) => {
                match first_named(release.assets, asset_name(os, arch)) {
                    Some(i) => self.enter(
                        PhaseModel::CreatingDir {
                            plan: plan_for(release.version, os, release.assets[i].download_url),
                        },
                    ),
                    None => self.fail(FailureModel::AssetNotFound { name: asset_name(os, arch) }),
                }
            },
            (PhaseModel::CreatingDir { plan }, EventModel::DirCreated { outcome }) => match outcome {
                Ok(_) => self.enter(PhaseModel::ProbingBinary { plan }),
                Err(cause) => self.fail(FailureModel::CreateDir { dir: plan.version_dir, cause }),
            },
            (PhaseModel::ProbingBinary { plan }, EventModel::Probed { is_file }) => if is_file {
                self.enter(PhaseModel::Listing { plan })
            } else {
                self.enter(PhaseModel::AnnouncingDownload { plan })
            },
            (PhaseModel::AnnouncingDownload { plan }, EventModel::Notified) => self.enter(
                PhaseModel::Downloading { plan },
            ),
            (PhaseModel::Downloading { plan }, EventModel::Downloaded { outcome }) => match outcome {
                Ok(_) => self.enter(PhaseModel::MarkingExecutable { plan }),
                Err(cause) => self.fail(FailureModel::Download { cause }),
            },
            (PhaseModel::MarkingExecutable { plan }, EventModel::MadeExecutable { outcome }) => {
                match outcome {
                    Ok(_) => self.enter(PhaseModel::Listing { plan }),
                    Err(message) => self.fail(FailureModel::MakeExecutable { message }),
                }
            },
            (PhaseModel::Listing { plan }, EventModel::Listed { entries }) => match entries {
                Some(names) => self.enter(
                    PhaseModel::Removing { plan, stale: stale_positions(names, plan.version_dir) },
                ),
                None => self.succeed(plan.binary_path),
            },
            (PhaseModel::Removing { plan, stale }, EventModel::Removed { failures }) => self.succeed(
                plan.binary_path,
            ),
            _ => (self, self.phase.pending()),
        }
    }
}

/// Resolves the path of the tool's binary, installing it where needed.
///
/// The resolver does no work on the outside itself. It is driven by `advance`:
/// the caller reports an event, does what the returned action says, and reports
/// the outcome, until the action is `Finish`.
#[derive(Debug)]
pub struct Resolver {
    cached_binary_path: Option<String>,
    phase: Phase,
}

impl View for Resolver {
    type V = ResolverModel;

    closed spec fn view(&self) -> ResolverModel {
        ResolverModel {
            cached: match self.cached_binary_path {
                Some(path) => Some(path@),
                None => None,
            },
            phase: self.phase@,
        }
    }
}

impl Phase {
    /// Builds the action that this phase waits on.
    pub fn pending_action(&self) -> (r: Action)
        ensures
            r@ == self@.pending(),
    {
        match self {
            Phase::Idle => Action::AwaitRequest,
            Phase::ProbingCache { path } => Action::ProbeFile { path: path.clone() },
            Phase::AnnouncingCheck => Action::Notify { status: Status::CheckingForUpdate },
            Phase::FetchingRelease => Action::FetchRelease {
                repository: String::from_str("MathiasPius/crates-lsp"),
                require_assets: true,
                pre_release: false,
            },
            Phase::QueryingPlatform { release: _ } => Action::QueryPlatform,
            Phase::CreatingDir { plan } => Action::CreateDir { dir: plan.version_dir.clone() },
            Phase::ProbingBinary { plan } => Action::ProbeFile { path: plan.binary_path.clone() },
            Phase::AnnouncingDownload { plan: _ } => Action::Notify { status: Status::Downloading },
            Phase::Downloading { plan } => Action::Download {
                url: plan.download_url.clone(),
                dir: plan.version_dir.clone(),
                archive: plan.archive,
            },
            Phase::MarkingExecutable { plan } => Action::MakeExecutable {
                path: plan.binary_path.clone(),
            },
            Phase::Listing { plan: _ } => Action::ListWorkingDir,
            Phase::Removing { plan: _, stale } => {
                let positions = stale.clone();
                assert(positions@ == stale@);
                Action::RemoveEntries { positions }
            },
        }
    }
}

impl Resolver {
    /// A resolver that remembers no path and has nothing in progress.
    pub fn new() -> (r: Resolver)
        ensures
            r@ == (ResolverModel { cached: None, phase: PhaseModel::Idle }),
    {
        Resolver { cached_binary_path: None, phase: Phase::Idle }
    }

    /// The path remembered from the last resolution that succeeded.
    pub fn cached_path(&self) -> (r: Option<String>)
        ensures
            r is Some == self@.cached is Some,
            r matches Some(path) ==> self@.cached == Some(path@),
    {
        match &self.cached_binary_path {
            Some(path) => Some(path.clone()),
            None => None,
        }
    }

    /// Whether nothing is in progress.
    pub fn is_idle(&self) -> (r: bool)
        ensures
            r == (self@.phase is Idle),
    {
        match &self.phase {
            Phase::Idle => true,
            _ => false,
        }
    }

    /// Drops what is in progress. The remembered path stays.
    pub fn abandon(&mut self)
        ensures
            final(self)@ == old(self)@.idle(),
    {
        self.phase = Phase::Idle;
    }

    fn enter(&mut self, phase: Phase) -> (r: Action)
        ensures
            (final(self)@, r@) == old(self)@.enter(phase@),
    {
        let action = phase.pending_action();
        self.phase = phase;
        action
    }

    fn fail(&mut self, failure: ResolveError) -> (r: Action)
        ensures
            (final(self)@, r@) == old(self)@.fail(failure@),
    {
        self.phase = Phase::Idle;
        Action::Finish { outcome: Err(failure) }
    }

    fn succeed(&mut self, path: String) -> (r: Action)
        ensures
            (final(self)@, r@) == old(self)@.succeed(path@),
    {
        self.phase = Phase::Idle;
        self.cached_binary_path = Some(path.clone());
        Action::Finish { outcome: Ok(path) }
    }

    /// Takes an event and answers with the next action.
    pub fn advance(&mut self, event: Event) -> (r: Action)
        ensures
            (final(self)@, r@) == old(self)@.step(event@),
    {
        let mut phase = Phase::Idle;
        core::mem::swap(&mut self.phase, &mut phase);
        match (phase, event) {
            (Phase::Idle, Event::Requested) => {
                let cached = self.cached_path();
                match cached {
                    Some(path) => self.enter(Phase::ProbingCache { path }),
                    None => self.enter(Phase::AnnouncingCheck),
                }
            },
            (Phase::ProbingCache { path }, Event::Probed { is_file }) => {
                if is_file {
                    self.succeed(path)
                } else {
                    self.enter(Phase::AnnouncingCheck)
                }
            },
            (Phase::AnnouncingCheck, Event::Notified) => self.enter(Phase::FetchingRelease),
            (Phase::FetchingRelease, Event::ReleaseFetched { fetched }) => match fetched {
                Ok(release) => self.enter(Phase::QueryingPlatform { release }),
                Err(message) => self.fail(ResolveError::ReleaseFetch { message }),
            },
            (Phase::QueryingPlatform { release }, Event::Platform { os, arch }) => {
                let name = expected_asset_name(os, arch);
                match release.find_asset(&name) {
                    Some(i) => {
                        let url = release.assets[i].download_url.clone();
                        let plan = InstallPlan::new(release.version.as_str(), os, url);
                        self.enter(Phase::CreatingDir { plan })
                    },
                    None => self.fail(ResolveError::AssetNotFound { name }),
                }
            },
            (Phase::CreatingDir { plan }, Event::DirCreated { outcome }) => match outcome {
                Ok(_) => self.enter(Phase::ProbingBinary { plan }),
                Err(cause) => self.fail(ResolveError::CreateDir { dir: plan.version_dir, cause }),
            },
            (Phase::ProbingBinary { plan }, Event::Probed { is_file }) => {
                if is_file {
                    self.enter(Phase::Listing { plan })
                } else {
                    self.enter(Phase::AnnouncingDownload { plan })
                }
            },
            (Phase::AnnouncingDownload { plan }, Event::Notified) => self.enter(
                Phase::Downloading { plan },
            ),
            (Phase::Downloading { plan }, Event::Downloaded { outcome }) => match outcome {
                Ok(_) => self.enter(Phase::MarkingExecutable { plan }),
                Err(cause) => self.fail(ResolveError::Download { cause }),
            },
            (Phase::MarkingExecutable { plan }, Event::MadeExecutable { outcome }) => {
                match outcome {
                    Ok(_) => self.enter(Phase::Listing { plan }),
                    Err(message) => self.fail(ResolveError::MakeExecutable { message }),
                }
            },
            (Phase::Listing { plan }, Event::Listed { entries }) => match entries {
                Some(names) => {
                    let stale = stale_entries(&names, &plan.version_dir);
                    self.enter(Phase::Removing { plan, stale })
                },
                None => self.succeed(plan.binary_path),
            },
            (Phase::Removing { plan, stale: _ }, Event::Removed { failures: _ }) => self.succeed(
                plan.binary_path,
            ),
            (phase, _) => self.enter(phase),
        }
    }
}

} // verus!
