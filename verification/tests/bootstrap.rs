use guilauncher::archive::InstallError;
use guilauncher::bootstrap::{
    start, step, Action, Event, Fatal, Flags, Phase, Settings, Stage, State,
};
use guilauncher::feed::{Asset, Release, Unavailable};
use std::io::{Cursor, Write};
use zip::write::SimpleFileOptions;
use zip::ZipWriter;

const VERSION: &str = "1.4.0";
const URL: &str = "https://example.invalid/download/guilauncher.zip";

fn flags() -> Flags {
    Flags {
        force_self_update: false,
        reinstall_runtime: false,
        clear_package_cache: false,
        offline: false,
    }
}

fn settings(flags: Flags) -> Settings {
    Settings { flags, current_version: VERSION.to_string() }
}

fn release(version: &str) -> Release {
    Release {
        version_name: version.to_string(),
        assets: vec![
            Asset { name: "checksums.txt".to_string(), download_url: "https://example.invalid/sums".to_string() },
            Asset { name: "guilauncher.zip".to_string(), download_url: URL.to_string() },
        ],
    }
}

fn package(entries: &[(&str, &[u8])]) -> Vec<u8> {
    let mut writer = ZipWriter::new(Cursor::new(Vec::new()));
    for (name, data) in entries {
        writer.start_file(*name, SimpleFileOptions::default()).unwrap();
        writer.write_all(data).unwrap();
    }
    writer.finish().unwrap().into_inner()
}

fn inspected(directory_exists: bool, interpreter: bool) -> Event {
    Event::RuntimeInspected { directory_exists, components: vec![interpreter] }
}

/// Feeds the events to the orchestrator and collects every action, the first
/// one included.
fn drive(settings: &Settings, events: Vec<Event>) -> (State, Vec<Action>) {
    let (mut state, first) = start();
    let mut actions = vec![first];
    for event in events {
        let (next, action) = step(settings, state, event);
        state = next;
        actions.push(action);
    }
    (state, actions)
}

fn rebuilds(action: &Action) -> bool {
    matches!(action, Action::RemoveRuntime | Action::ProvisionRuntime)
}

fn touches_runtime(action: &Action) -> bool {
    matches!(
        action,
        Action::ClearPackageCache
            | Action::InspectRuntime
            | Action::RemoveRuntime
            | Action::ProvisionRuntime
            | Action::RunPackageStep(_)
            | Action::Launch
    )
}

#[test]
fn run_starts_with_the_probe() {
    let (state, action) = start();
    assert_eq!(state, State { online: false, stage: Stage::AwaitingConnectivity });
    assert_eq!(action, Action::ProbeConnectivity);
    assert_eq!(state.phase(), Phase::CheckingConnectivity);
    assert!(!state.is_terminal());
    assert_eq!(state.exit_code(), None);
}

#[test]
fn fresh_machine_online_installs_syncs_and_launches() {
    let settings = settings(flags());
    let (state, actions) = drive(
        &settings,
        vec![
            Event::ConnectivityProbed(true),
            Event::FeedFetched(Ok(release(VERSION))),
            inspected(false, false),
            Event::RuntimeProvisioned(Ok(())),
            Event::PackageStepFinished(true),
            Event::PackageStepFinished(true),
            Event::PackageStepFinished(true),
            Event::Launched(true),
        ],
    );
    assert_eq!(
        actions,
        vec![
            Action::ProbeConnectivity,
            Action::FetchLatestRelease,
            Action::InspectRuntime,
            Action::ProvisionRuntime,
            Action::RunPackageStep(0),
            Action::RunPackageStep(1),
            Action::RunPackageStep(2),
            Action::Launch,
            Action::Stop,
        ]
    );
    assert_eq!(state, State { online: true, stage: Stage::Done });
    assert_eq!(state.exit_code(), Some(0));
    assert!(state.is_terminal());
}

#[test]
fn broken_runtime_is_deleted_and_installed_again_before_launch() {
    let settings = settings(flags());
    let (state, actions) = drive(
        &settings,
        vec![
            Event::ConnectivityProbed(true),
            Event::FeedFetched(Ok(release(VERSION))),
            inspected(true, false),
            Event::RuntimeRemoved(true),
            Event::RuntimeProvisioned(Ok(())),
            Event::PackageStepFinished(true),
            Event::PackageStepFinished(true),
            Event::PackageStepFinished(true),
            Event::Launched(true),
        ],
    );
    assert_eq!(
        actions,
        vec![
            Action::ProbeConnectivity,
            Action::FetchLatestRelease,
            Action::InspectRuntime,
            Action::RemoveRuntime,
            Action::ProvisionRuntime,
            Action::RunPackageStep(0),
            Action::RunPackageStep(1),
            Action::RunPackageStep(2),
            Action::Launch,
            Action::Stop,
        ]
    );
    assert_eq!(state.stage, Stage::Done);
}

#[test]
fn forced_update_with_the_same_version_ends_at_updated() {
    let mut chosen = flags();
    chosen.force_self_update = true;
    let settings = settings(chosen);
    let binary = b"MZ the new launcher".to_vec();
    let (state, actions) = drive(
        &settings,
        vec![
            Event::ConnectivityProbed(true),
            Event::FeedFetched(Ok(release(VERSION))),
            Event::AssetDownloaded(Some(package(&[
                ("LICENSE", b"license"),
                ("guilauncher.exe", &binary),
            ]))),
            Event::ExecutableReplaced(true),
        ],
    );
    assert_eq!(
        actions,
        vec![
            Action::ProbeConnectivity,
            Action::FetchLatestRelease,
            Action::DownloadAsset(URL.to_string()),
            Action::ReplaceExecutable(binary),
            Action::Stop,
        ]
    );
    assert_eq!(state, State { online: true, stage: Stage::Updated });
    assert_eq!(state.phase(), Phase::Updated);
    assert_eq!(state.exit_code(), Some(0));
    assert!(actions.iter().all(|a| !touches_runtime(a)));
}

#[test]
fn newer_release_is_installed_without_force() {
    let settings = settings(flags());
    let (state, actions) = drive(
        &settings,
        vec![
            Event::ConnectivityProbed(true),
            Event::FeedFetched(Ok(release("1.5.0"))),
            Event::AssetDownloaded(Some(package(&[("guilauncher.exe", b"new")]))),
            Event::ExecutableReplaced(true),
        ],
    );
    assert_eq!(actions[2], Action::DownloadAsset(URL.to_string()));
    assert_eq!(actions[3], Action::ReplaceExecutable(b"new".to_vec()));
    assert_eq!(state.stage, Stage::Updated);
}

#[test]
fn offline_without_runtime_cannot_provision() {
    for (reachable, offline) in [(false, false), (false, true), (true, true)] {
        let mut chosen = flags();
        chosen.offline = offline;
        let settings = settings(chosen);
        let (state, actions) =
            drive(&settings, vec![Event::ConnectivityProbed(reachable), inspected(false, false)]);
        assert_eq!(
            actions,
            vec![Action::ProbeConnectivity, Action::InspectRuntime, Action::Stop]
        );
        assert_eq!(
            state,
            State { online: false, stage: Stage::Failed(Fatal::CannotProvisionOffline) }
        );
        assert_eq!(state.phase(), Phase::Failed);
        assert_eq!(state.exit_code(), Some(1));
        assert!(actions.iter().all(|a| !rebuilds(a)));
    }
}

#[test]
fn offline_with_healthy_runtime_launches_without_sync() {
    let mut chosen = flags();
    chosen.offline = true;
    let settings = settings(chosen);
    let (state, actions) = drive(
        &settings,
        vec![Event::ConnectivityProbed(true), inspected(true, true), Event::Launched(true)],
    );
    assert_eq!(
        actions,
        vec![Action::ProbeConnectivity, Action::InspectRuntime, Action::Launch, Action::Stop]
    );
    assert_eq!(state, State { online: false, stage: Stage::Done });
}

#[test]
fn second_run_with_healthy_runtime_rebuilds_nothing() {
    let settings = settings(flags());
    let first = drive(
        &settings,
        vec![
            Event::ConnectivityProbed(true),
            Event::FeedFetched(Ok(release(VERSION))),
            inspected(false, false),
            Event::RuntimeProvisioned(Ok(())),
            Event::PackageStepFinished(true),
            Event::PackageStepFinished(true),
            Event::PackageStepFinished(true),
            Event::Launched(true),
        ],
    );
    assert_eq!(first.0.stage, Stage::Done);
    assert!(first.1.iter().any(rebuilds));
    for online in [true, false] {
        let mut events = vec![Event::ConnectivityProbed(online)];
        if online {
            events.push(Event::FeedFetched(Ok(release(VERSION))));
        }
        events.push(inspected(true, true));
        if online {
            for _ in 0..3 {
                events.push(Event::PackageStepFinished(true));
            }
        }
        events.push(Event::Launched(true));
        let (state, actions) = drive(&settings, events);
        assert_eq!(state.stage, Stage::Done);
        assert!(actions.iter().all(|a| !rebuilds(a)));
        if !online {
            assert!(actions.iter().all(|a| !matches!(a, Action::RunPackageStep(_))));
        }
    }
}

#[test]
fn unavailable_feed_goes_on_with_the_runtime() {
    let settings = settings(flags());
    let (state, actions) = drive(
        &settings,
        vec![Event::ConnectivityProbed(true), Event::FeedFetched(Err(Unavailable))],
    );
    assert_eq!(actions[2], Action::InspectRuntime);
    assert_eq!(state, State { online: true, stage: Stage::AwaitingInspection });
    assert_eq!(state.phase(), Phase::CheckingRuntime);
}

#[test]
fn release_without_package_goes_on_with_the_runtime() {
    let settings = settings(flags());
    let latest = Release {
        version_name: "9.9.9".to_string(),
        assets: vec![Asset { name: "guilauncher.msi".to_string(), download_url: URL.to_string() }],
    };
    let (state, actions) =
        drive(&settings, vec![Event::ConnectivityProbed(true), Event::FeedFetched(Ok(latest))]);
    assert_eq!(actions[2], Action::InspectRuntime);
    assert_eq!(state.stage, Stage::AwaitingInspection);
}

#[test]
fn package_without_executable_goes_on_with_the_runtime() {
    let settings = settings(flags());
    let (state, actions) = drive(
        &settings,
        vec![
            Event::ConnectivityProbed(true),
            Event::FeedFetched(Ok(release("2.0.0"))),
            Event::AssetDownloaded(Some(package(&[("README.md", b"nothing to run")]))),
        ],
    );
    assert_eq!(actions[3], Action::InspectRuntime);
    assert_eq!(state, State { online: true, stage: Stage::AwaitingInspection });
}

#[test]
fn failed_download_ends_the_run() {
    let settings = settings(flags());
    let (state, actions) = drive(
        &settings,
        vec![
            Event::ConnectivityProbed(true),
            Event::FeedFetched(Ok(release("2.0.0"))),
            Event::AssetDownloaded(None),
        ],
    );
    assert_eq!(actions[3], Action::Stop);
    assert_eq!(state.stage, Stage::Failed(Fatal::DownloadFailed));
    assert_eq!(state.exit_code(), Some(1));
}

#[test]
fn unreadable_package_ends_the_run() {
    let settings = settings(flags());
    let (state, actions) = drive(
        &settings,
        vec![
            Event::ConnectivityProbed(true),
            Event::FeedFetched(Ok(release("2.0.0"))),
            Event::AssetDownloaded(Some(b"<html>rate limited</html>".to_vec())),
        ],
    );
    assert_eq!(actions[3], Action::Stop);
    assert_eq!(state.stage, Stage::Failed(Fatal::CorruptPackage));
}

#[test]
fn failed_replace_ends_the_run() {
    let settings = settings(flags());
    let (state, actions) = drive(
        &settings,
        vec![
            Event::ConnectivityProbed(true),
            Event::FeedFetched(Ok(release("2.0.0"))),
            Event::AssetDownloaded(Some(package(&[("guilauncher.exe", b"new")]))),
            Event::ExecutableReplaced(false),
        ],
    );
    assert_eq!(actions[4], Action::Stop);
    assert_eq!(state.stage, Stage::Failed(Fatal::ReplaceFailed));
    assert!(actions.iter().all(|a| !touches_runtime(a)));
}

#[test]
fn caches_are_cleared_before_the_runtime_is_looked_at() {
    let mut chosen = flags();
    chosen.clear_package_cache = true;
    let settings = settings(chosen);
    let (state, actions) = drive(
        &settings,
        vec![
            Event::ConnectivityProbed(true),
            Event::FeedFetched(Ok(release(VERSION))),
            Event::CacheCleared(true),
        ],
    );
    assert_eq!(actions[2], Action::ClearPackageCache);
    assert_eq!(actions[3], Action::InspectRuntime);
    assert_eq!(state.stage, Stage::AwaitingInspection);

    let (state, actions) =
        drive(&settings, vec![Event::ConnectivityProbed(false), Event::CacheCleared(false)]);
    assert_eq!(actions[1], Action::ClearPackageCache);
    assert_eq!(actions[2], Action::Stop);
    assert_eq!(state.stage, Stage::Failed(Fatal::CacheNotCleared));
}

#[test]
fn reinstall_deletes_a_healthy_runtime_and_installs_it() {
    let mut chosen = flags();
    chosen.reinstall_runtime = true;
    let settings = settings(chosen);
    let (state, actions) = drive(
        &settings,
        vec![
            Event::ConnectivityProbed(true),
            Event::FeedFetched(Err(Unavailable)),
            inspected(true, true),
            Event::RuntimeRemoved(true),
            Event::RuntimeProvisioned(Ok(())),
        ],
    );
    assert_eq!(actions[3], Action::RemoveRuntime);
    assert_eq!(actions[4], Action::ProvisionRuntime);
    assert_eq!(actions[5], Action::RunPackageStep(0));
    assert_eq!(state.phase(), Phase::SyncingPackages);
}

#[test]
fn reinstall_without_network_fails_after_the_removal() {
    let mut chosen = flags();
    chosen.reinstall_runtime = true;
    chosen.offline = true;
    let settings = settings(chosen);
    let (state, actions) = drive(
        &settings,
        vec![Event::ConnectivityProbed(true), inspected(true, true), Event::RuntimeRemoved(true)],
    );
    assert_eq!(
        actions,
        vec![
            Action::ProbeConnectivity,
            Action::InspectRuntime,
            Action::RemoveRuntime,
            Action::Stop
        ]
    );
    assert_eq!(state.stage, Stage::Failed(Fatal::CannotProvisionOffline));
}

#[test]
fn failed_removal_ends_the_run() {
    let settings = settings(flags());
    let (state, actions) = drive(
        &settings,
        vec![
            Event::ConnectivityProbed(true),
            Event::FeedFetched(Err(Unavailable)),
            inspected(true, false),
            Event::RuntimeRemoved(false),
        ],
    );
    assert_eq!(actions[4], Action::Stop);
    assert_eq!(state.stage, Stage::Failed(Fatal::RemovalFailed));
}

#[test]
fn failed_install_ends_the_run_with_its_error() {
    let settings = settings(flags());
    for error in [InstallError::Corrupt, InstallError::Io] {
        let (state, actions) = drive(
            &settings,
            vec![
                Event::ConnectivityProbed(true),
                Event::FeedFetched(Err(Unavailable)),
                inspected(false, false),
                Event::RuntimeProvisioned(Err(error)),
            ],
        );
        assert_eq!(actions[4], Action::Stop);
        assert_eq!(state.stage, Stage::Failed(Fatal::Install(error)));
        assert_eq!(state.exit_code(), Some(1));
    }
}

#[test]
fn failed_package_step_ends_the_run_at_once() {
    let settings = settings(flags());
    for good in 0..3usize {
        let mut events = vec![
            Event::ConnectivityProbed(true),
            Event::FeedFetched(Err(Unavailable)),
            inspected(true, true),
        ];
        for _ in 0..good {
            events.push(Event::PackageStepFinished(true));
        }
        events.push(Event::PackageStepFinished(false));
        let (state, actions) = drive(&settings, events);
        assert_eq!(actions.last(), Some(&Action::Stop));
        assert_eq!(actions[actions.len() - 2], Action::RunPackageStep(good));
        assert_eq!(state.stage, Stage::Failed(Fatal::PackageSyncFailed));
        assert!(actions.iter().all(|a| *a != Action::Launch));
    }
}

#[test]
fn failed_launch_ends_the_run() {
    let settings = settings(flags());
    let (state, actions) = drive(
        &settings,
        vec![Event::ConnectivityProbed(false), inspected(true, true), Event::Launched(false)],
    );
    assert_eq!(actions[3], Action::Stop);
    assert_eq!(state.stage, Stage::Failed(Fatal::LaunchFailed));
    assert_eq!(state.exit_code(), Some(1));
}

#[test]
fn event_that_answers_no_action_ends_the_run() {
    let settings = settings(flags());
    let (state, actions) = drive(&settings, vec![Event::Launched(true)]);
    assert_eq!(actions[1], Action::Stop);
    assert_eq!(state, State { online: false, stage: Stage::Failed(Fatal::UnexpectedEvent) });

    let (state, _) = drive(
        &settings,
        vec![Event::ConnectivityProbed(true), Event::RuntimeProvisioned(Ok(()))],
    );
    assert_eq!(state, State { online: true, stage: Stage::Failed(Fatal::UnexpectedEvent) });
}

#[test]
fn run_that_is_over_stays_over() {
    let settings = settings(flags());
    for stage in [Stage::Updated, Stage::Done, Stage::Failed(Fatal::LaunchFailed)] {
        let state = State { online: true, stage };
        assert!(state.is_terminal());
        for event in [
            Event::ConnectivityProbed(true),
            Event::Launched(true),
            Event::RuntimeProvisioned(Ok(())),
            Event::FeedFetched(Err(Unavailable)),
        ] {
            assert_eq!(step(&settings, state, event), (state, Action::Stop));
        }
    }
}

#[test]
fn last_package_step_is_followed_by_the_launch() {
    let settings = settings(flags());
    for number in [2usize, 3, 100, usize::MAX] {
        let state = State { online: true, stage: Stage::AwaitingPackageStep(number) };
        let (next, action) = step(&settings, state, Event::PackageStepFinished(true));
        assert_eq!(action, Action::Launch);
        assert_eq!(next, State { online: true, stage: Stage::AwaitingLaunch });
    }
}

#[test]
fn every_stage_has_its_phase() {
    let phase = |stage| State { online: false, stage }.phase();
    assert_eq!(phase(Stage::AwaitingConnectivity), Phase::CheckingConnectivity);
    assert_eq!(phase(Stage::AwaitingFeed), Phase::CheckingSelfUpdate);
    assert_eq!(phase(Stage::AwaitingDownload), Phase::CheckingSelfUpdate);
    assert_eq!(phase(Stage::AwaitingReplace), Phase::CheckingSelfUpdate);
    assert_eq!(phase(Stage::Updated), Phase::Updated);
    assert_eq!(phase(Stage::AwaitingCacheClear), Phase::CheckingRuntime);
    assert_eq!(phase(Stage::AwaitingInspection), Phase::CheckingRuntime);
    assert_eq!(phase(Stage::AwaitingRemoval), Phase::CheckingRuntime);
    assert_eq!(phase(Stage::AwaitingProvision), Phase::ProvisioningRuntime);
    assert_eq!(phase(Stage::AwaitingPackageStep(1)), Phase::SyncingPackages);
    assert_eq!(phase(Stage::AwaitingLaunch), Phase::Launching);
    assert_eq!(phase(Stage::Done), Phase::Done);
    assert_eq!(phase(Stage::Failed(Fatal::LaunchFailed)), Phase::Failed);
}

#[test]
fn every_error_has_its_message() {
    assert_eq!(Fatal::CannotProvisionOffline.message(), "cannot provision without network");
    assert_eq!(Fatal::DownloadFailed.message(), "could not download the update package");
    assert_eq!(Fatal::CorruptPackage.message(), "the update package is not a readable archive");
    assert_eq!(Fatal::ReplaceFailed.message(), "could not replace the running executable");
    assert_eq!(Fatal::CacheNotCleared.message(), "could not clear the package caches");
    assert_eq!(Fatal::RemovalFailed.message(), "could not remove the broken runtime");
    assert_eq!(Fatal::Install(InstallError::Corrupt).message(), "the runtime archive is malformed");
    assert_eq!(Fatal::Install(InstallError::Io).message(), "could not write the runtime to disk");
    assert_eq!(Fatal::PackageSyncFailed.message(), "a package manager command failed");
    assert_eq!(Fatal::LaunchFailed.message(), "could not start the application");
    assert_eq!(Fatal::UnexpectedEvent.message(), "an event came that answers no action");
}

#[test]
fn report_that_misses_a_component_answers_no_action() {
    let settings = settings(flags());
    for components in [vec![], vec![true, true], vec![false, false]] {
        for directory_exists in [false, true] {
            let (state, actions) = drive(
                &settings,
                vec![
                    Event::ConnectivityProbed(true),
                    Event::FeedFetched(Err(Unavailable)),
                    Event::RuntimeInspected { directory_exists, components: components.clone() },
                ],
            );
            assert_eq!(actions[3], Action::Stop);
            assert_eq!(state.stage, Stage::Failed(Fatal::UnexpectedEvent));
            assert!(actions.iter().all(|a| !matches!(a, Action::RunPackageStep(_))));
            assert!(actions.iter().all(|a| !rebuilds(a)));
        }
    }
}

#[test]
fn package_with_a_name_that_only_ends_in_the_letters_is_no_update() {
    let settings = settings(flags());
    let (state, actions) = drive(
        &settings,
        vec![
            Event::ConnectivityProbed(true),
            Event::FeedFetched(Ok(release("2.0.0"))),
            Event::AssetDownloaded(Some(package(&[("launcherexe", b"not a binary")]))),
        ],
    );
    assert_eq!(actions[3], Action::InspectRuntime);
    assert_eq!(state.stage, Stage::AwaitingInspection);
}
