//! What the resolver asks of its caller, and what the caller reports back.

use vstd::prelude::*;
use crate::cleanup::listing_model;
use crate::error::{FailureModel, ResolveError};
use crate::platform::{Architecture, ArchiveKind, Os};
use crate::release::{Release, ReleaseModel};

verus! {

/// A lifecycle notification for the host. It is for observation only.
#[derive(Clone, Copy, Debug, PartialEq, Eq, Structural)]
pub enum Status {
    CheckingForUpdate,
    Downloading,
}

/// One thing for the caller to do. Every action but `Finish` and `AwaitRequest`
/// is answered by the event that reports its outcome.
#[derive(Debug, PartialEq, Eq)]
pub enum Action {
    /// Nothing is in progress: the resolver waits for `Event::Requested`.
    AwaitRequest,
    /// Find out whether `path` is a regular file.
    ProbeFile { path: String },
    /// Tell the host the status.
    Notify { status: Status },
    /// Ask the host for the latest release of `repository`.
    FetchRelease { repository: String, require_assets: bool, pre_release: bool },
    /// Ask the host for the operating system and the architecture.
    QueryPlatform,
    /// Create the directory `dir` and its parents.
    CreateDir { dir: String },
    /// Download `url` and unpack it into `dir` as an archive of kind `archive`.
    Download { url: String, dir: String, archive: ArchiveKind },
    /// Give `path` the permission to execute.
    MakeExecutable { path: String },
    /// List the entries of the working directory.
    ListWorkingDir,
    /// Remove, with all they hold, the entries at these positions of the listing.
    RemoveEntries { positions: Vec<usize> },
    /// The resolution is over, with the path of the binary or a failure.
    Finish { outcome: Result<String, ResolveError> },
}

/// What an action is, with its texts as sequences of characters.
pub enum ActionModel {
    AwaitRequest,
    ProbeFile { path: Seq<char> },
    Notify { status: Status },
    FetchRelease { repository: Seq<char>, require_assets: bool, pre_release: bool },
    QueryPlatform,
    CreateDir { dir: Seq<char> },
    Download { url: Seq<char>, dir: Seq<char>, archive: ArchiveKind },
    MakeExecutable { path: Seq<char> },
    ListWorkingDir,
    RemoveEntries { positions: Seq<usize> },
    Finish { outcome: Result<Seq<char>, FailureModel> },
}

impl View for Action {
    type V = ActionModel;

    open spec fn view(&self) -> ActionModel {
        match *self {
            Action::AwaitRequest => ActionModel::AwaitRequest,
            Action::ProbeFile { path } => ActionModel::ProbeFile { path: path@ },
            Action::Notify { status } => ActionModel::Notify { status },
            Action::FetchRelease { repository, require_assets, pre_release } => {
                ActionModel::FetchRelease { repository: repository@, require_assets, pre_release }
            },
            Action::QueryPlatform => ActionModel::QueryPlatform,
            Action::CreateDir { dir } => ActionModel::CreateDir { dir: dir@ },
            Action::Download { url, dir, archive } => ActionModel::Download {
                url: url@,
                dir: dir@,
                archive,
            },
            Action::MakeExecutable { path } => ActionModel::MakeExecutable { path: path@ },
            Action::ListWorkingDir => ActionModel::ListWorkingDir,
            Action::RemoveEntries { positions } => ActionModel::RemoveEntries {
                positions: positions@,
            },
            Action::Finish { outcome } => ActionModel::Finish {
                outcome: match outcome {
                    Ok(path) => Ok(path@),
                    Err(failure) => Err(failure@),
                },
            },
        }
    }
}

impl ActionModel {
    /// Whether the action changes the file system.
    pub open spec fn is_write(self) -> bool {
        self is CreateDir || self is Download || self is MakeExecutable || self is RemoveEntries
    }

    /// Whether the action reaches the network or changes the file system.
    pub open spec fn has_effect(self) -> bool {
        self is FetchRelease || self.is_write()
    }
}

/// What the caller reports: a request for the path, or the outcome of the last action.
#[derive(Debug, PartialEq, Eq)]
pub enum Event {
    /// The caller wants the path of the binary.
    Requested,
    /// Answer to `ProbeFile`.
    Probed { is_file: bool },
    /// Answer to `Notify`, sent whether or not the host took the notification.
    Notified,
    /// Answer to `FetchRelease`: the release, or the host's message.
    ReleaseFetched { fetched: Result<Release, String> },
    /// Answer to `QueryPlatform`.
    Platform { os: Os, arch: Architecture },
    /// Answer to `CreateDir`: done, or the cause of the failure.
    DirCreated { outcome: Result<(), String> },
    /// Answer to `Download`: done, or the cause of the failure.
    Downloaded { outcome: Result<(), String> },
    /// Answer to `MakeExecutable`: done, or the host's message.
    MadeExecutable { outcome: Result<(), String> },
    /// Answer to `ListWorkingDir`: the name of each entry, `None` for a name that
    /// is not valid text; or `None` for the whole where the listing failed.
    Listed { entries: Option<Vec<Option<String>>> },
    /// Answer to `RemoveEntries`, with the number of entries that could not be removed.
    Removed { failures: usize },
}

/// What an event is, with its texts as sequences of characters.
pub enum EventModel {
    Requested,
    Probed { is_file: bool },
    Notified,
    ReleaseFetched { fetched: Result<ReleaseModel, Seq<char>> },
    Platform { os: Os, arch: Architecture },
    DirCreated { outcome: Result<(), Seq<char>> },
    Downloaded { outcome: Result<(), Seq<char>> },
    MadeExecutable { outcome: Result<(), Seq<char>> },
    Listed { entries: Option<Seq<Option<Seq<char>>>> },
    Removed { failures: usize },
}

/// The outcome of an action that yields nothing on success, with its text as characters.
pub open spec fn unit_outcome_model(outcome: Result<(), String>) -> Result<(), Seq<char>> {
    match outcome {
        Ok(_) => Ok(()),
        Err(text) => Err(text@),
    }
}

impl View for Event {
    type V = EventModel;

    open spec fn view(&self) -> EventModel {
        match *self {
            Event::Requested => EventModel::Requested,
            Event::Probed { is_file } => EventModel::Probed { is_file },
            Event::Notified => EventModel::Notified,
            Event::ReleaseFetched { fetched } => EventModel::ReleaseFetched {
                fetched: match fetched {
                    Ok(release) => Ok(release@),
                    Err(text) => Err(text@),
                },
            },
            Event::Platform { os, arch } => EventModel::Platform { os, arch },
            Event::DirCreated { outcome } => EventModel::DirCreated {
                outcome: unit_outcome_model(outcome),
            },
            Event::Downloaded { outcome } => EventModel::Downloaded {
                outcome: unit_outcome_model(outcome),
            },
            Event::MadeExecutable { outcome } => EventModel::MadeExecutable {
                outcome: unit_outcome_model(outcome),
            },
            Event::Listed { entries } => EventModel::Listed {
                entries: match entries {
                    Some(names) => Some(listing_model(names@)),
                    None => None,
                },
            },
            Event::Removed { failures } => EventModel::Removed { failures },
        }
    }
}

} // verus!
