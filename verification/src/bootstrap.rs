//! The bootstrap orchestrator: the order of the phases of one run.
//!
//! The orchestrator is a state machine that does no outside work itself. It
//! hands out one [`Action`] at a time; whoever drives it performs the action
//! and reports what came of it as an [`Event`], and [`step`] answers with the
//! next state and the next action. A run starts with [`start`] and is over
//! when the action is [`Action::Stop`].

use crate::archive::InstallError;
use crate::feed::{
    update_outcome, update_outcome_of, Release, Unavailable, UpdateOutcome, UpdateOutcomeView,
};
use crate::package::{executable_of, extract_executable, zip_contents, PackageError};
use crate::runtime::{
    complete_report, healthy, plan_runtime, runtime_healthy, runtime_plan, CRUCIAL_COMPONENTS,
    PACKAGE_SYNC_STEPS,
};
use vstd::prelude::*;

verus! {

/// The switches a run is started with.
#[derive(Debug, Clone, Copy, PartialEq, Eq, Structural)]
pub struct Flags {
    /// Replace the executable even where the latest release has its version.
    pub force_self_update: bool,
    /// Delete the runtime and install it again.
    pub reinstall_runtime: bool,
    /// Delete the caches of the package managers.
    pub clear_package_cache: bool,
    /// Behave as if there were no network.
    pub offline: bool,
}

/// What a run is started with.
#[derive(Debug, PartialEq, Eq)]
pub struct Settings {
    pub flags: Flags,
    /// The version of the running executable.
    pub current_version: String,
}

/// The errors that end a run.
#[derive(Debug, Clone, Copy, PartialEq, Eq, Structural)]
pub enum Fatal {
    /// The update package could not be downloaded.
    DownloadFailed,
    /// The update package is no readable archive.
    CorruptPackage,
    /// The executable could not be replaced; the old one is intact.
    ReplaceFailed,
    /// The caches of the package managers could not be deleted.
    CacheNotCleared,
    /// The runtime's folder could not be deleted.
    RemovalFailed,
    /// The runtime has to be installed and there is no network.
    CannotProvisionOffline,
    /// The runtime archive could not be installed.
    Install(InstallError),
    /// A package manager invocation ended with a failure.
    PackageSyncFailed,
    /// The application could not be started.
    LaunchFailed,
    /// An event came that does not answer the action that was handed out.
    UnexpectedEvent,
}

/// The phases of a run.
#[derive(Debug, Clone, Copy, PartialEq, Eq, Structural)]
pub enum Phase {
    CheckingConnectivity,
    CheckingSelfUpdate,
    Updated,
    CheckingRuntime,
    ProvisioningRuntime,
    SyncingPackages,
    Launching,
    Done,
    Failed,
}

/// What the orchestrator is waiting for.
#[derive(Debug, Clone, Copy, PartialEq, Eq, Structural)]
pub enum Stage {
    AwaitingConnectivity,
    AwaitingFeed,
    AwaitingDownload,
    AwaitingReplace,
    /// The executable was replaced; the user has to start the new one.
    Updated,
    AwaitingCacheClear,
    AwaitingInspection,
    AwaitingRemoval,
    AwaitingProvision,
    /// The package manager invocation of this number is running.
    AwaitingPackageStep(usize),
    AwaitingLaunch,
    /// The application was started and has ended.
    Done,
    Failed(Fatal),
}

/// The state of a run.
#[derive(Debug, Clone, Copy, PartialEq, Eq, Structural)]
pub struct State {
    /// The network is there and may be used. It is `false` until the
    /// connectivity is known.
    pub online: bool,
    pub stage: Stage,
}

/// What came of the action that was handed out last.
#[derive(Debug, PartialEq, Eq)]
pub enum Event {
    /// Whether the probe reached its host.
    ConnectivityProbed(bool),
    /// The answer of the release feed.
    FeedFetched(Result<Release, Unavailable>),
    /// The bytes of the update package, or `None` where the download failed.
    AssetDownloaded(Option<Vec<u8>>),
    /// Whether the executable was replaced.
    ExecutableReplaced(bool),
    /// Whether the caches were deleted.
    CacheCleared(bool),
    /// What was found on disk: whether the runtime's folder exists, and for
    /// each crucial component, in the order of their list, whether it exists.
    RuntimeInspected { directory_exists: bool, components: Vec<bool> },
    /// Whether the runtime's folder was deleted.
    RuntimeRemoved(bool),
    /// What came of installing the runtime archive.
    RuntimeProvisioned(Result<(), InstallError>),
    /// Whether the package manager invocation ended with success.
    PackageStepFinished(bool),
    /// Whether the application was started.
    Launched(bool),
}

/// The outside work that the orchestrator asks for.
#[derive(Debug, PartialEq, Eq)]
pub enum Action {
    ProbeConnectivity,
    FetchLatestRelease,
    /// Download the update package from this address.
    DownloadAsset(String),
    /// Replace the running executable with these bytes.
    ReplaceExecutable(Vec<u8>),
    ClearPackageCache,
    InspectRuntime,
    RemoveRuntime,
    ProvisionRuntime,
    /// Run the package manager invocation of this number.
    RunPackageStep(usize),
    Launch,
    /// The run is over; the state says how it ended.
    Stop,
}

/// An [`Action`] as contracts see it.
pub enum ActionView {
    ProbeConnectivity,
    FetchLatestRelease,
    DownloadAsset(Seq<char>),
    ReplaceExecutable(Seq<u8>),
    ClearPackageCache,
    InspectRuntime,
    RemoveRuntime,
    ProvisionRuntime,
    RunPackageStep(int),
    Launch,
    Stop,
}

impl View for Action {
    type V = ActionView;

    open spec fn view(&self) -> ActionView {
        match self {
            Action::ProbeConnectivity => ActionView::ProbeConnectivity,
            Action::FetchLatestRelease => ActionView::FetchLatestRelease,
            Action::DownloadAsset(url) => ActionView::DownloadAsset(url@),
            Action::ReplaceExecutable(bytes) => ActionView::ReplaceExecutable(bytes@),
            Action::ClearPackageCache => ActionView::ClearPackageCache,
            Action::InspectRuntime => ActionView::InspectRuntime,
            Action::RemoveRuntime => ActionView::RemoveRuntime,
            Action::ProvisionRuntime => ActionView::ProvisionRuntime,
            Action::RunPackageStep(number) => ActionView::RunPackageStep(*number as int),
            Action::Launch => ActionView::Launch,
            Action::Stop => ActionView::Stop,
        }
    }
}

impl Fatal {
    /// What the user is told about the error.
    pub open spec fn message_of(self) -> Seq<char> {
        match self {
            Fatal::DownloadFailed => "could not download the update package"@,
            Fatal::CorruptPackage => "the update package is not a readable archive"@,
            Fatal::ReplaceFailed => "could not replace the running executable"@,
            Fatal::CacheNotCleared => "could not clear the package caches"@,
            Fatal::RemovalFailed => "could not remove the broken runtime"@,
            Fatal::CannotProvisionOffline => "cannot provision without network"@,
            Fatal::Install(InstallError::Corrupt) => "the runtime archive is malformed"@,
            Fatal::Install(InstallError::Io) => "could not write the runtime to disk"@,
            Fatal::PackageSyncFailed => "a package manager command failed"@,
            Fatal::LaunchFailed => "could not start the application"@,
            Fatal::UnexpectedEvent => "an event came that answers no action"@,
        }
    }

    /// What the user is told about the error.
    pub fn message(&self) -> (text: &'static str)
        ensures
            text@ == self.message_of(),
    {
        match self {
            Fatal::DownloadFailed => "could not download the update package",
            Fatal::CorruptPackage => "the update package is not a readable archive",
            Fatal::ReplaceFailed => "could not replace the running executable",
            Fatal::CacheNotCleared => "could not clear the package caches",
            Fatal::RemovalFailed => "could not remove the broken runtime",
            Fatal::CannotProvisionOffline => "cannot provision without network",
            Fatal::Install(InstallError::Corrupt) => "the runtime archive is malformed",
            Fatal::Install(InstallError::Io) => "could not write the runtime to disk",
            Fatal::PackageSyncFailed => "a package manager command failed",
            Fatal::LaunchFailed => "could not start the application",
            Fatal::UnexpectedEvent => "an event came that answers no action",
        }
    }
}

impl Stage {
    /// The run is over.
    pub open spec fn terminal(self) -> bool {
        self is Updated || self is Done || self is Failed
    }

    /// The phase that the stage belongs to.
    pub open spec fn phase_of(self) -> Phase {
        match self {
            Stage::AwaitingConnectivity => Phase::CheckingConnectivity,
            Stage::AwaitingFeed | Stage::AwaitingDownload | Stage::AwaitingReplace => {
                Phase::CheckingSelfUpdate
            },
            Stage::Updated => Phase::Updated,
            Stage::AwaitingCacheClear | Stage::AwaitingInspection | Stage::AwaitingRemoval => {
                Phase::CheckingRuntime
            },
            Stage::AwaitingProvision => Phase::ProvisioningRuntime,
            Stage::AwaitingPackageStep(_) => Phase::SyncingPackages,
            Stage::AwaitingLaunch => Phase::Launching,
            Stage::Done => Phase::Done,
            Stage::Failed(_) => Phase::Failed,
        }
    }
}

/// The state in which a run starts.
pub open spec fn initial_state() -> State {
    State { online: false, stage: Stage::AwaitingConnectivity }
}

/// The network is used where the probe reached its host and the run was not
/// started as offline.
pub open spec fn effective_online(reachable: bool, offline: bool) -> bool {
    reachable && !offline
}

/// The run ends with an error.
pub open spec fn failing(online: bool, error: Fatal) -> (State, ActionView) {
    (State { online, stage: Stage::Failed(error) }, ActionView::Stop)
}

/// The check of the runtime begins: with the caches where they are to be
/// cleared, else with a look at the disk.
pub open spec fn entering_runtime_check(flags: Flags, online: bool) -> (State, ActionView) {
    if flags.clear_package_cache {
        (State { online, stage: Stage::AwaitingCacheClear }, ActionView::ClearPackageCache)
    } else {
        (State { online, stage: Stage::AwaitingInspection }, ActionView::InspectRuntime)
    }
}

/// The runtime is installed, which needs the network.
pub open spec fn entering_provision(online: bool) -> (State, ActionView) {
    if online {
        (State { online, stage: Stage::AwaitingProvision }, ActionView::ProvisionRuntime)
    } else {
        failing(online, Fatal::CannotProvisionOffline)
    }
}

/// The packages are brought up to date where there is a network; else the
/// application is started with the packages that are there.
pub open spec fn entering_package_sync(online: bool) -> (State, ActionView) {
    if online {
        (State { online, stage: Stage::AwaitingPackageStep(0) }, ActionView::RunPackageStep(0))
    } else {
        (State { online, stage: Stage::AwaitingLaunch }, ActionView::Launch)
    }
}

/// The feed has answered. The update package is downloaded where an update
/// is wanted and the release holds a package; in every other case the run
/// goes on with the runtime.
pub open spec fn after_feed(
    settings: Settings,
    online: bool,
    latest: Result<Release, Unavailable>,
) -> (State, ActionView) {
    match update_outcome_of(settings.flags.force_self_update, settings.current_version@, latest) {
        UpdateOutcomeView::Download(url) => (
            State { online, stage: Stage::AwaitingDownload },
            ActionView::DownloadAsset(url),
        ),
        _ => entering_runtime_check(settings.flags, online),
    }
}

/// The update package was looked through. Its executable replaces the
/// running one; a package without an executable ends the update and not the
/// run; a package that cannot be read ends the run.
pub open spec fn after_extraction(
    flags: Flags,
    online: bool,
    found: Result<Seq<u8>, PackageError>,
) -> (State, ActionView) {
    match found {
        Ok(executable) => (
            State { online, stage: Stage::AwaitingReplace },
            ActionView::ReplaceExecutable(executable),
        ),
        Err(PackageError::NoExecutable) => entering_runtime_check(flags, online),
        Err(PackageError::Corrupt) => failing(online, Fatal::CorruptPackage),
    }
}

/// The download has ended. A download that failed ends the run; else the
/// package is looked through for the executable.
pub open spec fn after_download(
    flags: Flags,
    online: bool,
    package: Option<Vec<u8>>,
) -> (State, ActionView) {
    match package {
        Some(bytes) => after_extraction(flags, online, executable_of(zip_contents(bytes@))),
        None => failing(online, Fatal::DownloadFailed),
    }
}

/// The disk was looked at. A report that does not tell of each crucial
/// component answers no action.
pub open spec fn after_inspection(
    flags: Flags,
    online: bool,
    directory_exists: bool,
    components: Seq<bool>,
) -> (State, ActionView) {
    let plan = runtime_plan(directory_exists, healthy(components), flags.reinstall_runtime);
    if !complete_report(components) {
        failing(online, Fatal::UnexpectedEvent)
    } else if plan.remove {
        (State { online, stage: Stage::AwaitingRemoval }, ActionView::RemoveRuntime)
    } else if plan.provision {
        entering_provision(online)
    } else {
        entering_package_sync(online)
    }
}

/// A package manager invocation has ended with success.
pub open spec fn after_package_step(online: bool, number: usize) -> (State, ActionView) {
    if number + 1 < PACKAGE_SYNC_STEPS {
        (
            State { online, stage: Stage::AwaitingPackageStep((number + 1) as usize) },
            ActionView::RunPackageStep(number + 1),
        )
    } else {
        (State { online, stage: Stage::AwaitingLaunch }, ActionView::Launch)
    }
}

/// The state and the action that follow `state` on `event`.
pub open spec fn transition(settings: Settings, state: State, event: Event) -> (State, ActionView) {
    let online = state.online;
    let flags = settings.flags;
    match (state.stage, event) {
        (Stage::Updated, _) | (Stage::Done, _) | (Stage::Failed(_), _) => (state, ActionView::Stop),
        (Stage::AwaitingConnectivity, Event::ConnectivityProbed(reachable)) => {
            if effective_online(reachable, flags.offline) {
                (State { online: true, stage: Stage::AwaitingFeed }, ActionView::FetchLatestRelease)
            } else {
                entering_runtime_check(flags, false)
            }
        },
        (Stage::AwaitingFeed, Event::FeedFetched(latest)) => after_feed(settings, online, latest),
        (Stage::AwaitingDownload, Event::AssetDownloaded(package)) => after_download(
            flags,
            online,
            package,
        ),
        (Stage::AwaitingReplace, Event::ExecutableReplaced(replaced)) => {
            if replaced {
                (State { online, stage: Stage::Updated }, ActionView::Stop)
            } else {
                failing(online, Fatal::ReplaceFailed)
            }
        },
        (Stage::AwaitingCacheClear, Event::CacheCleared(cleared)) => {
            if cleared {
                (State { online, stage: Stage::AwaitingInspection }, ActionView::InspectRuntime)
            } else {
                failing(online, Fatal::CacheNotCleared)
            }
        },
        (Stage::AwaitingInspection, Event::RuntimeInspected { directory_exists, components }) => {
            after_inspection(flags, online, directory_exists, components@)
        },
        (Stage::AwaitingRemoval, Event::RuntimeRemoved(removed)) => {
            if removed {
                entering_provision(online)
            } else {
                failing(online, Fatal::RemovalFailed)
            }
        },
        (Stage::AwaitingProvision, Event::RuntimeProvisioned(installed)) => match installed {
            Ok(_) => entering_package_sync(online),
            Err(error) => failing(online, Fatal::Install(error)),
        },
        (Stage::AwaitingPackageStep(number), Event::PackageStepFinished(succeeded)) => {
            if succeeded {
                after_package_step(online, number)
            } else {
                failing(online, Fatal::PackageSyncFailed)
            }
        },
        (Stage::AwaitingLaunch, Event::Launched(launched)) => {
            if launched {
                (State { online, stage: Stage::Done }, ActionView::Stop)
            } else {
                failing(online, Fatal::LaunchFailed)
            }
        },
        _ => failing(online, Fatal::UnexpectedEvent),
    }
}

impl State {
    /// Whether the run is over.
    pub fn is_terminal(&self) -> (over: bool)
        ensures
            over == self.stage.terminal(),
    {
        match self.stage {
            Stage::Updated | Stage::Done | Stage::Failed(_) => true,
            _ => false,
        }
    }

    /// The phase of the run.
    pub fn phase(&self) -> (phase: Phase)
        ensures
            phase == self.stage.phase_of(),
    {
        match self.stage {
            Stage::AwaitingConnectivity => Phase::CheckingConnectivity,
            Stage::AwaitingFeed | Stage::AwaitingDownload | Stage::AwaitingReplace => {
                Phase::CheckingSelfUpdate
            },
            Stage::Updated => Phase::Updated,
            Stage::AwaitingCacheClear | Stage::AwaitingInspection | Stage::AwaitingRemoval => {
                Phase::CheckingRuntime
            },
            Stage::AwaitingProvision => Phase::ProvisioningRuntime,
            Stage::AwaitingPackageStep(_) => Phase::SyncingPackages,
            Stage::AwaitingLaunch => Phase::Launching,
            Stage::Done => Phase::Done,
            Stage::Failed(_) => Phase::Failed,
        }
    }

    /// The exit code of the process once the run is over: zero where it ended
    /// well, one where it ended with an error, and none while it goes on.
    pub fn exit_code(&self) -> (code: Option<u8>)
        ensures
            code == match self.stage {
                Stage::Updated | Stage::Done => Some(0u8),
                Stage::Failed(_) => Some(1u8),
                _ => None,
            },
    {
        match self.stage {
            Stage::Updated | Stage::Done => Some(0),
            Stage::Failed(_) => Some(1),
            _ => None,
        }
    }
}

/// Begins a run: the first thing to find out is whether there is a network.
pub fn start() -> (begun: (State, Action))
    ensures
        begun.0 == initial_state(),
        begun.1@ == ActionView::ProbeConnectivity,
{
    (State { online: false, stage: Stage::AwaitingConnectivity }, Action::ProbeConnectivity)
}

fn fail(online: bool, error: Fatal) -> (next: (State, Action))
    ensures
        (next.0, next.1@) == failing(online, error),
{
    (State { online, stage: Stage::Failed(error) }, Action::Stop)
}

fn enter_runtime_check(flags: Flags, online: bool) -> (next: (State, Action))
    ensures
        (next.0, next.1@) == entering_runtime_check(flags, online),
{
    if flags.clear_package_cache {
        (State { online, stage: Stage::AwaitingCacheClear }, Action::ClearPackageCache)
    } else {
        (State { online, stage: Stage::AwaitingInspection }, Action::InspectRuntime)
    }
}

fn enter_provision(online: bool) -> (next: (State, Action))
    ensures
        (next.0, next.1@) == entering_provision(online),
{
    if online {
        (State { online, stage: Stage::AwaitingProvision }, Action::ProvisionRuntime)
    } else {
        fail(online, Fatal::CannotProvisionOffline)
    }
}

fn enter_package_sync(online: bool) -> (next: (State, Action))
    ensures
        (next.0, next.1@) == entering_package_sync(online),
{
    if online {
        (State { online, stage: Stage::AwaitingPackageStep(0) }, Action::RunPackageStep(0))
    } else {
        (State { online, stage: Stage::AwaitingLaunch }, Action::Launch)
    }
}

fn on_feed(
    settings: &Settings,
    online: bool,
    latest: Result<Release, Unavailable>,
) -> (next: (State, Action))
    ensures
        (next.0, next.1@) == after_feed(*settings, online, latest),
{
    let outcome = update_outcome(
        settings.flags.force_self_update,
        settings.current_version.as_str(),
        &latest,
    );
    match outcome {
        UpdateOutcome::Download(url) => (
            State { online, stage: Stage::AwaitingDownload },
            Action::DownloadAsset(url),
        ),
        _ => enter_runtime_check(settings.flags, online),
    }
}

/// Decides how the run goes on once the update package was looked through.
pub fn on_extraction(
    flags: Flags,
    online: bool,
    found: Result<Vec<u8>, PackageError>,
) -> (next: (State, Action))
    ensures
        (next.0, next.1@) == after_extraction(
            flags,
            online,
            match found {
                Ok(executable) => Ok(executable@),
                Err(error) => Err(error),
            },
        ),
{
    match found {
        Ok(executable) => (
            State { online, stage: Stage::AwaitingReplace },
            Action::ReplaceExecutable(executable),
        ),
        Err(PackageError::NoExecutable) => enter_runtime_check(flags, online),
        Err(PackageError::Corrupt) => fail(online, Fatal::CorruptPackage),
    }
}

fn on_download(flags: Flags, online: bool, package: Option<Vec<u8>>) -> (next: (State, Action))
    ensures
        (next.0, next.1@) == after_download(flags, online, package),
{
    match package {
        Some(bytes) => on_extraction(flags, online, extract_executable(bytes)),
        None => fail(online, Fatal::DownloadFailed),
    }
}

fn on_inspection(
    flags: Flags,
    online: bool,
    directory_exists: bool,
    components: &Vec<bool>,
) -> (next: (State, Action))
    ensures
        (next.0, next.1@) == after_inspection(flags, online, directory_exists, components@),
{
    let found = runtime_healthy(components.as_slice());
    let plan = plan_runtime(directory_exists, found, flags.reinstall_runtime);
    if components.len() != CRUCIAL_COMPONENTS {
        fail(online, Fatal::UnexpectedEvent)
    } else if plan.remove {
        (State { online, stage: Stage::AwaitingRemoval }, Action::RemoveRuntime)
    } else if plan.provision {
        enter_provision(online)
    } else {
        enter_package_sync(online)
    }
}

fn on_package_step(online: bool, number: usize) -> (next: (State, Action))
    ensures
        (next.0, next.1@) == after_package_step(online, number),
{
    if number < PACKAGE_SYNC_STEPS - 1 {
        (
            State { online, stage: Stage::AwaitingPackageStep(number + 1) },
            Action::RunPackageStep(number + 1),
        )
    } else {
        (State { online, stage: Stage::AwaitingLaunch }, Action::Launch)
    }
}

/// Takes the run one step on: from the state and what came of the last
/// action to the next state and the next action.
pub fn step(settings: &Settings, state: State, event: Event) -> (next: (State, Action))
    ensures
        (next.0, next.1@) == transition(*settings, state, event),
{
    let online = state.online;
    let flags = settings.flags;
    match (state.stage, event) {
        (Stage::Updated, _) | (Stage::Done, _) | (Stage::Failed(_), _) => (state, Action::Stop),
        (Stage::AwaitingConnectivity, Event::ConnectivityProbed(reachable)) => {
            if reachable && !flags.offline {
                (State { online: true, stage: Stage::AwaitingFeed }, Action::FetchLatestRelease)
            } else {
                enter_runtime_check(flags, false)
            }
        },
        (Stage::AwaitingFeed, Event::FeedFetched(latest)) => on_feed(settings, online, latest),
        (Stage::AwaitingDownload, Event::AssetDownloaded(package)) => on_download(
            flags,
            online,
            package,
        ),
        (Stage::AwaitingReplace, Event::ExecutableReplaced(replaced)) => {
            if replaced {
                (State { online, stage: Stage::Updated }, Action::Stop)
            } else {
                fail(online, Fatal::ReplaceFailed)
            }
        },
        (Stage::AwaitingCacheClear, Event::CacheCleared(cleared)) => {
            if cleared {
                (State { online, stage: Stage::AwaitingInspection }, Action::InspectRuntime)
            } else {
                fail(online, Fatal::CacheNotCleared)
            }
        },
        (Stage::AwaitingInspection, Event::RuntimeInspected { directory_exists, components }) => {
            on_inspection(flags, online, directory_exists, &components)
        },
        (Stage::AwaitingRemoval, Event::RuntimeRemoved(removed)) => {
            if removed {
                enter_provision(online)
            } else {
                fail(online, Fatal::RemovalFailed)
            }
        },
        (Stage::AwaitingProvision, Event::RuntimeProvisioned(installed)) => match installed {
            Ok(_) => enter_package_sync(online),
            Err(error) => fail(online, Fatal::Install(error)),
        },
        (Stage::AwaitingPackageStep(number), Event::PackageStepFinished(succeeded)) => {
            if succeeded {
                on_package_step(online, number)
            } else {
                fail(online, Fatal::PackageSyncFailed)
            }
        },
        (Stage::AwaitingLaunch, Event::Launched(launched)) => {
            if launched {
                (State { online, stage: Stage::Done }, Action::Stop)
            } else {
                fail(online, Fatal::LaunchFailed)
            }
        },
        _ => fail(online, Fatal::UnexpectedEvent),
    }
}

} // verus!
