//! Runs of the orchestrator, and what holds of every run.
//!
//! A run is the sequence of events that were reported to the orchestrator,
//! in their order. The state and the action after a run are those that
//! [`step`](crate::bootstrap::step) gives when it is fed the events one by
//! one, starting from [`start`](crate::bootstrap::start).

use crate::bootstrap::{
    effective_online, failing, initial_state, transition, ActionView, Event, Fatal, Phase,
    Settings, Stage, State,
};
use crate::runtime::{complete_report, healthy};
use vstd::prelude::*;

verus! {

/// The state after the events of a run.
pub open spec fn state_after(settings: Settings, events: Seq<Event>) -> State
    decreases events.len(),
{
    if events.len() == 0 {
        initial_state()
    } else {
        transition(settings, state_after(settings, events.drop_last()), events.last()).0
    }
}

/// The action that is handed out after the events of a run.
pub open spec fn action_after(settings: Settings, events: Seq<Event>) -> ActionView
    decreases events.len(),
{
    if events.len() == 0 {
        ActionView::ProbeConnectivity
    } else {
        transition(settings, state_after(settings, events.drop_last()), events.last()).1
    }
}

/// The action deletes or installs the runtime.
pub open spec fn rebuilds_runtime(action: ActionView) -> bool {
    action is RemoveRuntime || action is ProvisionRuntime
}

/// The action needs the network.
pub open spec fn uses_network(action: ActionView) -> bool {
    ||| action is FetchLatestRelease
    ||| action is DownloadAsset
    ||| action is ReplaceExecutable
    ||| action is ProvisionRuntime
    ||| action is RunPackageStep
}

/// The action looks at, changes or starts the runtime.
pub open spec fn touches_runtime(action: ActionView) -> bool {
    ||| action is ClearPackageCache
    ||| action is InspectRuntime
    ||| action is RemoveRuntime
    ||| action is ProvisionRuntime
    ||| action is RunPackageStep
    ||| action is Launch
}

/// The phase comes before the check of the runtime.
pub open spec fn before_runtime(phase: Phase) -> bool {
    phase is CheckingConnectivity || phase is CheckingSelfUpdate || phase is Updated
}

/// Every look at the disk in the run found a healthy runtime.
pub open spec fn always_healthy(events: Seq<Event>) -> bool {
    forall|i: int|
        0 <= i < events.len() ==> (#[trigger] events[i] matches Event::RuntimeInspected {
            components,
            ..
        } ==> healthy(components@))
}

/// No probe of the run gave a network that may be used.
pub open spec fn never_online(settings: Settings, events: Seq<Event>) -> bool {
    forall|i: int|
        0 <= i < events.len() ==> (#[trigger] events[i] matches Event::ConnectivityProbed(
            reachable,
        ) ==> !effective_online(reachable, settings.flags.offline))
}

proof fn lemma_healthy_run_end(settings: Settings, events: Seq<Event>)
    requires
        !settings.flags.reinstall_runtime,
        always_healthy(events),
    ensures
        !(state_after(settings, events).stage is AwaitingRemoval),
        !(state_after(settings, events).stage is AwaitingProvision),
        !rebuilds_runtime(action_after(settings, events)),
    decreases events.len(),
{
    if events.len() > 0 {
        let earlier = events.drop_last();
        assert forall|i: int| 0 <= i < earlier.len() implies earlier[i] == events[i] by {}
        lemma_healthy_run_end(settings, earlier);
        assert(events.last() == events[events.len() - 1]);
    }
}

/// A healthy runtime is left alone. In a run without the reinstall switch in
/// which every look at the disk finds a healthy runtime, the runtime is at no
/// point deleted or installed.
pub proof fn lemma_healthy_runtime_is_left_alone(settings: Settings, events: Seq<Event>)
    requires
        !settings.flags.reinstall_runtime,
        always_healthy(events),
    ensures
        forall|k: int|
            0 <= k <= events.len() ==> !rebuilds_runtime(
                #[trigger] action_after(settings, events.take(k)),
            ),
{
    assert forall|k: int| 0 <= k <= events.len() implies !rebuilds_runtime(
        #[trigger] action_after(settings, events.take(k)),
    ) by {
        let prefix = events.take(k);
        assert forall|i: int| 0 <= i < prefix.len() implies prefix[i] == events[i] by {}
        lemma_healthy_run_end(settings, prefix);
    }
}

proof fn lemma_offline_run_end(settings: Settings, events: Seq<Event>)
    requires
        never_online(settings, events),
    ensures
        !state_after(settings, events).online,
        !(state_after(settings, events).stage is AwaitingFeed),
        !(state_after(settings, events).stage is AwaitingDownload),
        !(state_after(settings, events).stage is AwaitingReplace),
        !(state_after(settings, events).stage is AwaitingProvision),
        !(state_after(settings, events).stage is AwaitingPackageStep),
        !uses_network(action_after(settings, events)),
    decreases events.len(),
{
    if events.len() > 0 {
        let earlier = events.drop_last();
        assert forall|i: int| 0 <= i < earlier.len() implies earlier[i] == events[i] by {}
        lemma_offline_run_end(settings, earlier);
        assert(events.last() == events[events.len() - 1]);
    }
}

/// Without a network nothing is fetched. In a run in which no probe gives a
/// network that may be used, as in every run that is started as offline, no
/// release is fetched, nothing is downloaded, the executable is not replaced,
/// the runtime is not installed and no package is brought up to date.
pub proof fn lemma_offline_run_uses_no_network(settings: Settings, events: Seq<Event>)
    requires
        never_online(settings, events),
    ensures
        forall|k: int|
            0 <= k <= events.len() ==> !uses_network(
                #[trigger] action_after(settings, events.take(k)),
            ),
{
    assert forall|k: int| 0 <= k <= events.len() implies !uses_network(
        #[trigger] action_after(settings, events.take(k)),
    ) by {
        let prefix = events.take(k);
        assert forall|i: int| 0 <= i < prefix.len() implies prefix[i] == events[i] by {}
        lemma_offline_run_end(settings, prefix);
    }
}

/// Without a network a missing runtime ends the run. Where the disk is
/// looked at while offline, the folder does not exist and the report, which
/// tells of each crucial component, misses one, the run fails, and the action
/// is to stop: nothing is deleted and nothing is installed.
pub proof fn lemma_offline_missing_runtime_is_fatal(settings: Settings, components: Vec<bool>)
    requires
        complete_report(components@),
        !healthy(components@),
    ensures
        transition(
            settings,
            State { online: false, stage: Stage::AwaitingInspection },
            Event::RuntimeInspected { directory_exists: false, components },
        ) == failing(false, Fatal::CannotProvisionOffline),
{
}

proof fn lemma_early_run_end(settings: Settings, events: Seq<Event>)
    requires
        before_runtime(state_after(settings, events).stage.phase_of()),
    ensures
        events.len() > 0 ==> before_runtime(
            state_after(settings, events.drop_last()).stage.phase_of(),
        ),
        !touches_runtime(action_after(settings, events)),
{
}

/// An update ends the run before the runtime is looked at. Where a run is
/// still checking for an update, or has replaced the executable, no action
/// of the run has cleared a cache, looked at the runtime, deleted it,
/// installed it, brought packages up to date or started the application.
pub proof fn lemma_update_comes_before_runtime(settings: Settings, events: Seq<Event>)
    requires
        before_runtime(state_after(settings, events).stage.phase_of()),
    ensures
        forall|k: int|
            0 <= k <= events.len() ==> !touches_runtime(
                #[trigger] action_after(settings, events.take(k)),
            ),
    decreases events.len(),
{
    lemma_early_run_end(settings, events);
    if events.len() > 0 {
        let earlier = events.drop_last();
        lemma_update_comes_before_runtime(settings, earlier);
        assert forall|k: int| 0 <= k <= events.len() implies !touches_runtime(
            #[trigger] action_after(settings, events.take(k)),
        ) by {
            if k < events.len() {
                assert(events.take(k) =~= earlier.take(k));
            } else {
                assert(events.take(k) =~= events);
            }
        }
    } else {
        assert forall|k: int| 0 <= k <= events.len() implies !touches_runtime(
            #[trigger] action_after(settings, events.take(k)),
        ) by {
            assert(events.take(k) =~= events);
        }
    }
}

/// The stage waits for work that needs the network.
pub open spec fn awaits_network(stage: Stage) -> bool {
    ||| stage is AwaitingFeed
    ||| stage is AwaitingDownload
    ||| stage is AwaitingReplace
    ||| stage is AwaitingProvision
    ||| stage is AwaitingPackageStep
}

proof fn lemma_network_run_end(settings: Settings, events: Seq<Event>)
    ensures
        awaits_network(state_after(settings, events).stage) ==> state_after(
            settings,
            events,
        ).online,
        uses_network(action_after(settings, events)) ==> state_after(settings, events).online,
    decreases events.len(),
{
    if events.len() > 0 {
        lemma_network_run_end(settings, events.drop_last());
    }
}

/// The network is used only where it is there. In every run, an action that
/// needs the network is handed out only in a state that is online.
pub proof fn lemma_network_is_used_only_online(settings: Settings, events: Seq<Event>)
    ensures
        forall|k: int|
            0 <= k <= events.len() && uses_network(
                #[trigger] action_after(settings, events.take(k)),
            ) ==> state_after(settings, events.take(k)).online,
{
    assert forall|k: int|
        0 <= k <= events.len() && uses_network(
            #[trigger] action_after(settings, events.take(k)),
        ) implies state_after(settings, events.take(k)).online by {
        lemma_network_run_end(settings, events.take(k));
    }
}

/// The event tells of a runtime that can be used: one that was found
/// healthy, by a report that tells of each crucial component, while no
/// reinstall is asked for, or one that was installed.
pub open spec fn provides_runtime(settings: Settings, event: Event) -> bool {
    match event {
        Event::RuntimeInspected { components, .. } => complete_report(components@) && healthy(
            components@,
        ) && !settings.flags.reinstall_runtime,
        Event::RuntimeProvisioned(Ok(_)) => true,
        _ => false,
    }
}

/// Some event of the run tells of a runtime that can be used.
pub open spec fn runtime_provided(settings: Settings, events: Seq<Event>) -> bool {
    exists|i: int| 0 <= i < events.len() && provides_runtime(settings, #[trigger] events[i])
}

/// The action runs the interpreter of the runtime.
pub open spec fn runs_interpreter(action: ActionView) -> bool {
    action is RunPackageStep || action is Launch
}

/// The stage comes after the runtime was made sure of.
pub open spec fn past_runtime(stage: Stage) -> bool {
    stage is AwaitingPackageStep || stage is AwaitingLaunch || stage is Done
}

proof fn lemma_interpreter_run_end(settings: Settings, events: Seq<Event>)
    ensures
        past_runtime(state_after(settings, events).stage) ==> runtime_provided(settings, events),
        runs_interpreter(action_after(settings, events)) ==> runtime_provided(settings, events),
    decreases events.len(),
{
    if events.len() > 0 {
        let earlier = events.drop_last();
        let last = events.len() - 1;
        lemma_interpreter_run_end(settings, earlier);
        if runtime_provided(settings, earlier) {
            let i = choose|i: int|
                0 <= i < earlier.len() && provides_runtime(settings, #[trigger] earlier[i]);
            assert(earlier[i] == events[i]);
            assert(provides_runtime(settings, events[i]));
        } else if provides_runtime(settings, events.last()) {
            assert(events[last] == events.last());
        }
    }
}

/// The interpreter is run only where there is a runtime. In every run, a
/// package manager invocation or the launch is handed out only after the
/// runtime was found healthy, no reinstall being asked for, or was
/// installed.
pub proof fn lemma_interpreter_needs_runtime(settings: Settings, events: Seq<Event>)
    ensures
        forall|k: int|
            0 <= k <= events.len() && runs_interpreter(
                #[trigger] action_after(settings, events.take(k)),
            ) ==> runtime_provided(settings, events.take(k)),
{
    assert forall|k: int|
        0 <= k <= events.len() && runs_interpreter(
            #[trigger] action_after(settings, events.take(k)),
        ) implies runtime_provided(settings, events.take(k)) by {
        lemma_interpreter_run_end(settings, events.take(k));
    }
}

/// A run that is over stays over: every further event leaves the state as it
/// is, and the action is to stop.
pub proof fn lemma_terminal_state_stays(settings: Settings, state: State, event: Event)
    requires
        state.stage.terminal(),
    ensures
        transition(settings, state, event) == (state, ActionView::Stop),
{
}

} // verus!
