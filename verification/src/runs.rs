//! The two update runs as step functions: the daily background run and the
//! manual install-or-update. Each step takes what the last action found out and
//! says what to do next; the caller performs the action and reports back.
use vstd::prelude::*;
use vstd::string::*;
use crate::github::{best_installer, installer_candidate, no_installer_message, ReleaseAsset, ReleaseInfo};
use crate::helium::{InstalledHelium, NativeArchitecture};
use crate::service::{
    background_deferred, background_installed, background_up_to_date, compute_update_available,
    manual_already_current, manual_installed, manual_installs, record_background_deferred,
    record_background_installed, record_background_up_to_date, record_manual_already_current,
    record_manual_installed, should_install, update_due, Config, State,
};

verus! {

/// Why a background run stopped without doing anything.
#[derive(Debug)]
pub enum SkipReason {
    /// Automatic updates are switched off.
    AutomaticUpdatesDisabled,
    /// Helium is not installed; background runs never install it afresh.
    NotInstalled,
}

/// What a run records when it ends, for its log.
#[derive(Debug)]
pub enum Outcome {
    /// A background run found Helium up to date.
    UpToDate,
    /// A background run found Helium running and left the update for later.
    Deferred,
    /// The release was installed.
    Installed,
    /// A manual run found nothing to install.
    AlreadyCurrent,
}

/// What the caller reports back after an action.
#[derive(Debug)]
pub enum RunEvent {
    /// The configuration was loaded.
    ConfigLoaded(Config),
    /// The scheduled task was brought in line with the configuration (a failure
    /// there is only logged).
    SchedulerSynced,
    /// What is installed (`None`: nothing found).
    InstalledDetected(Option<InstalledHelium>),
    /// The stored state was loaded and the latest release fetched.
    ReleaseFetched(State, ReleaseInfo),
    /// The stored state, what is installed, and the latest release.
    Gathered(State, Option<InstalledHelium>, ReleaseInfo),
    /// Whether Helium is running.
    RunningChecked(bool),
    /// The running Helium was closed.
    Closed,
    /// The installer was downloaded, checked, run and removed; this is what is
    /// installed afterwards.
    InstallFinished(Option<InstalledHelium>),
    /// The clock script printed this time.
    ClockRead(String),
}

/// What the caller does next.
#[derive(Debug)]
pub enum RunAction {
    /// Load the configuration.
    LoadConfig,
    /// Register or remove the scheduled task to match this configuration.
    SyncScheduler(Config),
    /// Find out what is installed.
    DetectInstalled,
    /// Load the stored state and fetch the latest release.
    LoadStateAndFetchRelease,
    /// Load the stored state, find out what is installed, fetch the latest release.
    Gather,
    /// Find out whether this installation is running.
    CheckRunning(InstalledHelium),
    /// Close this running installation.
    CloseRunning(InstalledHelium),
    /// Download this installer, check its digest, run it, remove it, wait, and
    /// find out what is installed.
    Install(ReleaseAsset),
    /// Read the clock, for the record of this outcome.
    ReadClock(Outcome),
    /// Save this state; the run is over with this outcome.
    Save(State, Outcome),
    /// Stop; the run is over and nothing is saved.
    Skip(SkipReason),
    /// Stop with this error.
    Fail(String),
}

/// The message when a step is given an event it does not wait for.
pub open spec fn out_of_order_message() -> Seq<char> {
    "the update run received an event out of order"@
}

fn out_of_order() -> (r: String)
    ensures
        r@ == out_of_order_message(),
{
    String::from_str("the update run received an event out of order")
}

// ---------------------------------------------------------------------------
// The background run
// ---------------------------------------------------------------------------

/// Where a background run stands: what it waits for, and what it knows.
#[derive(Debug)]
pub enum BackgroundStep {
    AwaitConfig,
    AwaitSync(Config),
    AwaitInstalled(Config),
    AwaitRelease(Config, InstalledHelium),
    AwaitRunning(Config, InstalledHelium, State, ReleaseInfo),
    AwaitClose(Config, InstalledHelium, State, ReleaseInfo),
    AwaitInstall(State, ReleaseInfo, InstalledHelium),
    AwaitClockUpToDate(State, ReleaseInfo, InstalledHelium),
    AwaitClockDeferred(State, ReleaseInfo, InstalledHelium),
    AwaitClockInstalled(State, ReleaseInfo, Option<InstalledHelium>),
    Done,
}

/// Choosing the installer leads to installing it, waiting in `waiting`, or to
/// failing in `done` when the release has none.
pub open spec fn chose_installer<S>(
    release: ReleaseInfo,
    arch: NativeArchitecture,
    waiting: S,
    done: S,
    next: S,
    action: RunAction,
) -> bool {
    match action {
        RunAction::Install(a) => next == waiting && exists|k: int|
            best_installer(release.assets@, arch, k) && a == #[trigger] release.assets@[k],
        RunAction::Fail(m) => next == done && m@ == no_installer_message() && forall|j: int|
            0 <= j < release.assets@.len() ==> !installer_candidate(
                #[trigger] release.assets@[j].name@,
            ),
        _ => false,
    }
}

/// One step of the background run: from `step`, on `event`, to `next` with
/// `action`.
pub open spec fn background_moves(
    step: BackgroundStep,
    event: RunEvent,
    arch: NativeArchitecture,
    next: BackgroundStep,
    action: RunAction,
) -> bool {
    match (step, event) {
        (BackgroundStep::AwaitConfig, RunEvent::ConfigLoaded(c)) => if c.automatic_updates_enabled {
            next == BackgroundStep::AwaitSync(c) && action == RunAction::SyncScheduler(c)
        } else {
            next == BackgroundStep::Done && action == RunAction::Skip(
                SkipReason::AutomaticUpdatesDisabled,
            )
        },
        (BackgroundStep::AwaitSync(c), RunEvent::SchedulerSynced) => next
            == BackgroundStep::AwaitInstalled(c) && action == RunAction::DetectInstalled,
        (BackgroundStep::AwaitInstalled(c), RunEvent::InstalledDetected(found)) => match found {
            None => next == BackgroundStep::Done && action == RunAction::Skip(
                SkipReason::NotInstalled,
            ),
            Some(h) => next == BackgroundStep::AwaitRelease(c, h) && action
                == RunAction::LoadStateAndFetchRelease,
        },
        (BackgroundStep::AwaitRelease(c, h), RunEvent::ReleaseFetched(s, r)) => if update_due(
            Some(h),
            r,
            s@,
        ) {
            next == BackgroundStep::AwaitRunning(c, h, s, r) && action == RunAction::CheckRunning(h)
        } else {
            next == BackgroundStep::AwaitClockUpToDate(s, r, h) && action == RunAction::ReadClock(
                Outcome::UpToDate,
            )
        },
        (BackgroundStep::AwaitRunning(c, h, s, r), RunEvent::RunningChecked(running)) => if !running {
            chose_installer(r, arch, BackgroundStep::AwaitInstall(s, r, h), BackgroundStep::Done, next, action)
        } else if c.close_running_helium {
            next == BackgroundStep::AwaitClose(c, h, s, r) && action == RunAction::CloseRunning(h)
        } else {
            next == BackgroundStep::AwaitClockDeferred(s, r, h) && action == RunAction::ReadClock(
                Outcome::Deferred,
            )
        },
        (BackgroundStep::AwaitClose(c, h, s, r), RunEvent::Closed) => chose_installer(
            r,
            arch,
            BackgroundStep::AwaitInstall(s, r, h),
            BackgroundStep::Done,
            next,
            action,
        ),
        (BackgroundStep::AwaitInstall(s, r, h), RunEvent::InstallFinished(refreshed)) => next
            == BackgroundStep::AwaitClockInstalled(s, r, refreshed) && action == RunAction::ReadClock(
            Outcome::Installed,
        ),
        (BackgroundStep::AwaitClockUpToDate(s, r, h), RunEvent::ClockRead(now)) => next
            == BackgroundStep::Done && (action matches RunAction::Save(saved, Outcome::UpToDate)
            && saved@ == background_up_to_date(s@, r, h, now@)),
        (BackgroundStep::AwaitClockDeferred(s, r, h), RunEvent::ClockRead(now)) => next
            == BackgroundStep::Done && (action matches RunAction::Save(saved, Outcome::Deferred)
            && saved@ == background_deferred(s@, r, h, now@)),
        (BackgroundStep::AwaitClockInstalled(s, r, refreshed), RunEvent::ClockRead(now)) => next
            == BackgroundStep::Done && (action matches RunAction::Save(saved, Outcome::Installed)
            && saved@ == background_installed(s@, r, refreshed, now@)),
        _ => next == BackgroundStep::Done && (action matches RunAction::Fail(m) && m@
            == out_of_order_message()),
    }
}

/// Chooses the installer of a background run.
fn background_choose(
    state: State,
    release: ReleaseInfo,
    installed: InstalledHelium,
    arch: NativeArchitecture,
) -> (r: (BackgroundStep, RunAction))
    ensures
        chose_installer(
            release,
            arch,
            BackgroundStep::AwaitInstall(state, release, installed),
            BackgroundStep::Done,
            r.0,
            r.1,
        ),
{
    match release.select_installer_asset(arch) {
        Ok(asset) => (BackgroundStep::AwaitInstall(state, release, installed), RunAction::Install(asset)),
        Err(m) => (BackgroundStep::Done, RunAction::Fail(m)),
    }
}

/// The first step of a background run: load the configuration.
pub fn background_start() -> (r: (BackgroundStep, RunAction))
    ensures
        r.0 == BackgroundStep::AwaitConfig,
        r.1 == RunAction::LoadConfig,
{
    (BackgroundStep::AwaitConfig, RunAction::LoadConfig)
}

/// One step of the background run (see `background_moves`): it stops when
/// automatic updates are off or nothing is installed, records "up to date" when
/// no update is due, leaves a notification when Helium runs and may not be
/// closed, and otherwise installs the chosen installer.
pub fn background_step(step: BackgroundStep, event: RunEvent, arch: NativeArchitecture) -> (r: (
    BackgroundStep,
    RunAction,
))
    ensures
        background_moves(step, event, arch, r.0, r.1),
{
    match step {
        BackgroundStep::AwaitConfig => match event {
            RunEvent::ConfigLoaded(c) => {
                if c.automatic_updates_enabled {
                    (BackgroundStep::AwaitSync(c), RunAction::SyncScheduler(c))
                } else {
                    (BackgroundStep::Done, RunAction::Skip(SkipReason::AutomaticUpdatesDisabled))
                }
            },
            _ => (BackgroundStep::Done, RunAction::Fail(out_of_order())),
        },
        BackgroundStep::AwaitSync(c) => match event {
            RunEvent::SchedulerSynced => (BackgroundStep::AwaitInstalled(c), RunAction::DetectInstalled),
            _ => (BackgroundStep::Done, RunAction::Fail(out_of_order())),
        },
        BackgroundStep::AwaitInstalled(c) => match event {
            RunEvent::InstalledDetected(found) => match found {
                None => (BackgroundStep::Done, RunAction::Skip(SkipReason::NotInstalled)),
                Some(h) => (BackgroundStep::AwaitRelease(c, h), RunAction::LoadStateAndFetchRelease),
            },
            _ => (BackgroundStep::Done, RunAction::Fail(out_of_order())),
        },
        BackgroundStep::AwaitRelease(c, h) => match event {
            RunEvent::ReleaseFetched(s, r) => {
                if compute_update_available(Some(&h), &r, &s) {
                    let probe = h.clone();
                    (BackgroundStep::AwaitRunning(c, h, s, r), RunAction::CheckRunning(probe))
                } else {
                    (BackgroundStep::AwaitClockUpToDate(s, r, h), RunAction::ReadClock(Outcome::UpToDate))
                }
            },
            _ => (BackgroundStep::Done, RunAction::Fail(out_of_order())),
        },
        BackgroundStep::AwaitRunning(c, h, s, r) => match event {
            RunEvent::RunningChecked(running) => {
                if !running {
                    background_choose(s, r, h, arch)
                } else if c.close_running_helium {
                    let target = h.clone();
                    (BackgroundStep::AwaitClose(c, h, s, r), RunAction::CloseRunning(target))
                } else {
                    (BackgroundStep::AwaitClockDeferred(s, r, h), RunAction::ReadClock(Outcome::Deferred))
                }
            },
            _ => (BackgroundStep::Done, RunAction::Fail(out_of_order())),
        },
        BackgroundStep::AwaitClose(c, h, s, r) => match event {
            RunEvent::Closed => background_choose(s, r, h, arch),
            _ => (BackgroundStep::Done, RunAction::Fail(out_of_order())),
        },
        BackgroundStep::AwaitInstall(s, r, h) => match event {
            RunEvent::InstallFinished(refreshed) => (
                BackgroundStep::AwaitClockInstalled(s, r, refreshed),
                RunAction::ReadClock(Outcome::Installed),
            ),
            _ => (BackgroundStep::Done, RunAction::Fail(out_of_order())),
        },
        BackgroundStep::AwaitClockUpToDate(s, r, h) => match event {
            RunEvent::ClockRead(now) => {
                let saved = record_background_up_to_date(s, &r, &h, now);
                (BackgroundStep::Done, RunAction::Save(saved, Outcome::UpToDate))
            },
            _ => (BackgroundStep::Done, RunAction::Fail(out_of_order())),
        },
        BackgroundStep::AwaitClockDeferred(s, r, h) => match event {
            RunEvent::ClockRead(now) => {
                let saved = record_background_deferred(s, &r, &h, now);
                (BackgroundStep::Done, RunAction::Save(saved, Outcome::Deferred))
            },
            _ => (BackgroundStep::Done, RunAction::Fail(out_of_order())),
        },
        BackgroundStep::AwaitClockInstalled(s, r, refreshed) => match event {
            RunEvent::ClockRead(now) => {
                let saved = record_background_installed(
                    s,
                    &r,
                    match &refreshed { Some(x) => Some(x), None => None },
                    now,
                );
                (BackgroundStep::Done, RunAction::Save(saved, Outcome::Installed))
            },
            _ => (BackgroundStep::Done, RunAction::Fail(out_of_order())),
        },
        BackgroundStep::Done => (BackgroundStep::Done, RunAction::Fail(out_of_order())),
    }
}

// ---------------------------------------------------------------------------
// The manual run
// ---------------------------------------------------------------------------

/// Where a manual install-or-update stands.
#[derive(Debug)]
pub enum ManualStep {
    AwaitGathered,
    AwaitRunning(State, InstalledHelium, ReleaseInfo),
    AwaitClose(State, InstalledHelium, ReleaseInfo),
    AwaitInstall(State, ReleaseInfo),
    AwaitClockCurrent(State),
    AwaitClockInstalled(State, ReleaseInfo, Option<InstalledHelium>),
    Done,
}

/// One step of the manual run: from `step`, on `event`, to `next` with `action`.
/// After its `Save` the caller refreshes the dashboard.
pub open spec fn manual_moves(
    step: ManualStep,
    event: RunEvent,
    arch: NativeArchitecture,
    next: ManualStep,
    action: RunAction,
) -> bool {
    match (step, event) {
        (ManualStep::AwaitGathered, RunEvent::Gathered(s, found, r)) => if !manual_installs(
            found,
            r,
            s@,
        ) {
            next == ManualStep::AwaitClockCurrent(s) && action == RunAction::ReadClock(
                Outcome::AlreadyCurrent,
            )
        } else {
            match found {
                Some(h) => next == ManualStep::AwaitRunning(s, h, r) && action
                    == RunAction::CheckRunning(h),
                None => chose_installer(
                    r,
                    arch,
                    ManualStep::AwaitInstall(s, r),
                    ManualStep::Done,
                    next,
                    action,
                ),
            }
        },
        (ManualStep::AwaitRunning(s, h, r), RunEvent::RunningChecked(running)) => if running {
            next == ManualStep::AwaitClose(s, h, r) && action == RunAction::CloseRunning(h)
        } else {
            chose_installer(r, arch, ManualStep::AwaitInstall(s, r), ManualStep::Done, next, action)
        },
        (ManualStep::AwaitClose(s, h, r), RunEvent::Closed) => chose_installer(
            r,
            arch,
            ManualStep::AwaitInstall(s, r),
            ManualStep::Done,
            next,
            action,
        ),
        (ManualStep::AwaitInstall(s, r), RunEvent::InstallFinished(refreshed)) => next
            == ManualStep::AwaitClockInstalled(s, r, refreshed) && action == RunAction::ReadClock(
            Outcome::Installed,
        ),
        (ManualStep::AwaitClockCurrent(s), RunEvent::ClockRead(now)) => next == ManualStep::Done && (
        action matches RunAction::Save(saved, Outcome::AlreadyCurrent) && saved@
            == manual_already_current(s@, now@)),
        (ManualStep::AwaitClockInstalled(s, r, refreshed), RunEvent::ClockRead(now)) => next
            == ManualStep::Done && (action matches RunAction::Save(saved, Outcome::Installed)
            && saved@ == manual_installed(s@, r, refreshed, now@)),
        _ => next == ManualStep::Done && (action matches RunAction::Fail(m) && m@
            == out_of_order_message()),
    }
}

/// Chooses the installer of a manual run.
fn manual_choose(state: State, release: ReleaseInfo, arch: NativeArchitecture) -> (r: (
    ManualStep,
    RunAction,
))
    ensures
        chose_installer(
            release,
            arch,
            ManualStep::AwaitInstall(state, release),
            ManualStep::Done,
            r.0,
            r.1,
        ),
{
    match release.select_installer_asset(arch) {
        Ok(asset) => (ManualStep::AwaitInstall(state, release), RunAction::Install(asset)),
        Err(m) => (ManualStep::Done, RunAction::Fail(m)),
    }
}

/// The first step of a manual run: load the state, look at the installation and
/// fetch the release.
pub fn manual_start() -> (r: (ManualStep, RunAction))
    ensures
        r.0 == ManualStep::AwaitGathered,
        r.1 == RunAction::Gather,
{
    (ManualStep::AwaitGathered, RunAction::Gather)
}

/// One step of the manual run (see `manual_moves`): it records "already up to
/// date" when Helium is installed and no update is due; otherwise it closes a
/// running Helium and installs the chosen installer.
pub fn manual_step(step: ManualStep, event: RunEvent, arch: NativeArchitecture) -> (r: (
    ManualStep,
    RunAction,
))
    ensures
        manual_moves(step, event, arch, r.0, r.1),
{
    match step {
        ManualStep::AwaitGathered => match event {
            RunEvent::Gathered(s, found, r) => {
                let installs = should_install(
                    match &found { Some(h) => Some(h), None => None },
                    &r,
                    &s,
                );
                if !installs {
                    (ManualStep::AwaitClockCurrent(s), RunAction::ReadClock(Outcome::AlreadyCurrent))
                } else {
                    match found {
                        Some(h) => {
                            let probe = h.clone();
                            (ManualStep::AwaitRunning(s, h, r), RunAction::CheckRunning(probe))
                        },
                        None => manual_choose(s, r, arch),
                    }
                }
            },
            _ => (ManualStep::Done, RunAction::Fail(out_of_order())),
        },
        ManualStep::AwaitRunning(s, h, r) => match event {
            RunEvent::RunningChecked(running) => {
                if running {
                    let target = h.clone();
                    (ManualStep::AwaitClose(s, h, r), RunAction::CloseRunning(target))
                } else {
                    manual_choose(s, r, arch)
                }
            },
            _ => (ManualStep::Done, RunAction::Fail(out_of_order())),
        },
        ManualStep::AwaitClose(s, h, r) => match event {
            RunEvent::Closed => manual_choose(s, r, arch),
            _ => (ManualStep::Done, RunAction::Fail(out_of_order())),
        },
        ManualStep::AwaitInstall(s, r) => match event {
            RunEvent::InstallFinished(refreshed) => (
                ManualStep::AwaitClockInstalled(s, r, refreshed),
                RunAction::ReadClock(Outcome::Installed),
            ),
            _ => (ManualStep::Done, RunAction::Fail(out_of_order())),
        },
        ManualStep::AwaitClockCurrent(s) => match event {
            RunEvent::ClockRead(now) => {
                let saved = record_manual_already_current(s, now);
                (ManualStep::Done, RunAction::Save(saved, Outcome::AlreadyCurrent))
            },
            _ => (ManualStep::Done, RunAction::Fail(out_of_order())),
        },
        ManualStep::AwaitClockInstalled(s, r, refreshed) => match event {
            RunEvent::ClockRead(now) => {
                let saved = record_manual_installed(
                    s,
                    &r,
                    match &refreshed { Some(x) => Some(x), None => None },
                    now,
                );
                (ManualStep::Done, RunAction::Save(saved, Outcome::Installed))
            },
            _ => (ManualStep::Done, RunAction::Fail(out_of_order())),
        },
        ManualStep::Done => (ManualStep::Done, RunAction::Fail(out_of_order())),
    }
}

// ---------------------------------------------------------------------------
// Laws
// ---------------------------------------------------------------------------

/// What a background run knows at each step: it only goes on while automatic
/// updates are on; it checks for a running browser and installs only when an
/// update is due for the installation it found; it waits to close the browser
/// only when closing is allowed.
pub open spec fn background_invariant(step: BackgroundStep) -> bool {
    match step {
        BackgroundStep::AwaitSync(c) => c.automatic_updates_enabled,
        BackgroundStep::AwaitInstalled(c) => c.automatic_updates_enabled,
        BackgroundStep::AwaitRelease(c, h) => c.automatic_updates_enabled,
        BackgroundStep::AwaitRunning(c, h, s, r) => c.automatic_updates_enabled && update_due(
            Some(h),
            r,
            s@,
        ),
        BackgroundStep::AwaitClose(c, h, s, r) => c.automatic_updates_enabled
            && c.close_running_helium && update_due(Some(h), r, s@),
        BackgroundStep::AwaitInstall(s, r, h) => update_due(Some(h), r, s@),
        _ => true,
    }
}

/// A background run starts where its invariant holds.
pub proof fn lemma_background_start_invariant()
    ensures
        background_invariant(BackgroundStep::AwaitConfig),
{
}

/// Every step of a background run keeps its invariant.
pub proof fn lemma_background_keeps_invariant(
    step: BackgroundStep,
    event: RunEvent,
    arch: NativeArchitecture,
    next: BackgroundStep,
    action: RunAction,
)
    requires
        background_invariant(step),
        background_moves(step, event, arch, next, action),
    ensures
        background_invariant(next),
{
}

/// A background run installs only an update that is due, for an installation it
/// found, with automatic updates on, and only when the browser is not running or
/// was closed because closing is allowed; what it installs is the chosen
/// installer of the release.
pub proof fn lemma_background_installs_only_due_updates(
    step: BackgroundStep,
    event: RunEvent,
    arch: NativeArchitecture,
    next: BackgroundStep,
    asset: ReleaseAsset,
)
    requires
        background_invariant(step),
        background_moves(step, event, arch, next, RunAction::Install(asset)),
    ensures
        match step {
            BackgroundStep::AwaitRunning(c, h, s, r) => {
                &&& event == RunEvent::RunningChecked(false)
                &&& c.automatic_updates_enabled
                &&& update_due(Some(h), r, s@)
                &&& exists|k: int| best_installer(r.assets@, arch, k) && asset == #[trigger] r.assets@[k]
            },
            BackgroundStep::AwaitClose(c, h, s, r) => {
                &&& event == RunEvent::Closed
                &&& c.automatic_updates_enabled
                &&& c.close_running_helium
                &&& update_due(Some(h), r, s@)
                &&& exists|k: int| best_installer(r.assets@, arch, k) && asset == #[trigger] r.assets@[k]
            },
            _ => false,
        },
{
}

/// A background run closes the browser only when the configuration allows it and
/// the browser was found running.
pub proof fn lemma_background_closes_only_when_allowed(
    step: BackgroundStep,
    event: RunEvent,
    arch: NativeArchitecture,
    next: BackgroundStep,
    target: InstalledHelium,
)
    requires
        background_moves(step, event, arch, next, RunAction::CloseRunning(target)),
    ensures
        step matches BackgroundStep::AwaitRunning(c, h, s, r) && c.close_running_helium && event
            == RunEvent::RunningChecked(true) && h == target,
{
}

/// With automatic updates off, a background run stops at once and saves nothing.
pub proof fn lemma_background_disabled_skips(
    config: Config,
    arch: NativeArchitecture,
    next: BackgroundStep,
    action: RunAction,
)
    requires
        !config.automatic_updates_enabled,
        background_moves(BackgroundStep::AwaitConfig, RunEvent::ConfigLoaded(config), arch, next, action),
    ensures
        next == BackgroundStep::Done,
        action == RunAction::Skip(SkipReason::AutomaticUpdatesDisabled),
{
}

/// A background run never installs Helium afresh: finding nothing installed ends
/// it.
pub proof fn lemma_background_never_installs_afresh(
    config: Config,
    arch: NativeArchitecture,
    next: BackgroundStep,
    action: RunAction,
)
    requires
        background_moves(
            BackgroundStep::AwaitInstalled(config),
            RunEvent::InstalledDetected(None),
            arch,
            next,
            action,
        ),
    ensures
        next == BackgroundStep::Done,
        action == RunAction::Skip(SkipReason::NotInstalled),
{
}

/// When an update is due but Helium runs and may not be closed, the background
/// run installs nothing and leaves a notification naming the release.
pub proof fn lemma_background_defers_when_running(
    config: Config,
    installed: InstalledHelium,
    state: State,
    release: ReleaseInfo,
    arch: NativeArchitecture,
    next: BackgroundStep,
    action: RunAction,
    now: String,
    last: BackgroundStep,
    saved_action: RunAction,
)
    requires
        !config.close_running_helium,
        background_moves(
            BackgroundStep::AwaitRunning(config, installed, state, release),
            RunEvent::RunningChecked(true),
            arch,
            next,
            action,
        ),
        background_moves(next, RunEvent::ClockRead(now), arch, last, saved_action),
    ensures
        action == RunAction::ReadClock(Outcome::Deferred),
        saved_action matches RunAction::Save(saved, Outcome::Deferred)
            && saved@.pending_update_notification == Some(
            crate::service::deferred_message(release.tag_name@),
        ) && saved@.last_seen_release_tag == Some(release.tag_name@),
{
}

/// A sequence of background steps from the start: each follows from the one
/// before on the event reported.
pub open spec fn background_trace(
    steps: Seq<BackgroundStep>,
    events: Seq<RunEvent>,
    actions: Seq<RunAction>,
    arch: NativeArchitecture,
) -> bool {
    &&& steps.len() == events.len() + 1
    &&& actions.len() == events.len()
    &&& steps[0] == BackgroundStep::AwaitConfig
    &&& forall|i: int|
        0 <= i < events.len() ==> background_moves(
            #[trigger] steps[i],
            events[i],
            arch,
            steps[i + 1],
            actions[i],
        )
}

/// Along any background run, every step keeps the invariant, and every
/// installation it performs is of a due update for an installation it found,
/// with automatic updates on.
pub proof fn lemma_background_trace(
    steps: Seq<BackgroundStep>,
    events: Seq<RunEvent>,
    actions: Seq<RunAction>,
    arch: NativeArchitecture,
)
    requires
        background_trace(steps, events, actions, arch),
    ensures
        forall|i: int| 0 <= i < steps.len() ==> background_invariant(#[trigger] steps[i]),
        forall|i: int|
            0 <= i < actions.len() && (#[trigger] actions[i]) is Install ==> match steps[i] {
                BackgroundStep::AwaitRunning(c, h, s, r) => c.automatic_updates_enabled
                    && update_due(Some(h), r, s@) && events[i] == RunEvent::RunningChecked(false),
                BackgroundStep::AwaitClose(c, h, s, r) => c.automatic_updates_enabled
                    && c.close_running_helium && update_due(Some(h), r, s@) && events[i]
                    == RunEvent::Closed,
                _ => false,
            },
{
    assert forall|i: int| 0 <= i < steps.len() implies background_invariant(#[trigger] steps[i]) by {
        lemma_trace_prefix(steps, events, actions, arch, i);
    }
    assert forall|i: int|
        0 <= i < actions.len() && (#[trigger] actions[i]) is Install implies match steps[i] {
            BackgroundStep::AwaitRunning(c, h, s, r) => c.automatic_updates_enabled && update_due(
                Some(h),
                r,
                s@,
            ) && events[i] == RunEvent::RunningChecked(false),
            BackgroundStep::AwaitClose(c, h, s, r) => c.automatic_updates_enabled
                && c.close_running_helium && update_due(Some(h), r, s@) && events[i]
                == RunEvent::Closed,
            _ => false,
        } by {
        lemma_trace_prefix(steps, events, actions, arch, i);
        let asset = actions[i]->Install_0;
        assert(background_moves(steps[i], events[i], arch, steps[i + 1], actions[i]));
        lemma_background_installs_only_due_updates(steps[i], events[i], arch, steps[i + 1], asset);
    }
}

proof fn lemma_trace_prefix(
    steps: Seq<BackgroundStep>,
    events: Seq<RunEvent>,
    actions: Seq<RunAction>,
    arch: NativeArchitecture,
    i: int,
)
    requires
        background_trace(steps, events, actions, arch),
        0 <= i < steps.len(),
    ensures
        background_invariant(steps[i]),
    decreases i,
{
    if i > 0 {
        lemma_trace_prefix(steps, events, actions, arch, i - 1);
        assert(background_moves(steps[i - 1], events[i - 1], arch, steps[i], actions[i - 1]));
        lemma_background_keeps_invariant(steps[i - 1], events[i - 1], arch, steps[i], actions[i - 1]);
    }
}

/// A manual run installs when nothing is installed or an update is due; it
/// otherwise records "already up to date".
pub proof fn lemma_manual_installs_when_missing_or_due(
    state: State,
    found: Option<InstalledHelium>,
    release: ReleaseInfo,
    arch: NativeArchitecture,
    next: ManualStep,
    action: RunAction,
)
    requires
        manual_moves(ManualStep::AwaitGathered, RunEvent::Gathered(state, found, release), arch, next, action),
    ensures
        (found is None || !found->Some_0.found()) ==> action !is ReadClock,
        !manual_installs(found, release, state@) ==> action == RunAction::ReadClock(
            Outcome::AlreadyCurrent,
        ),
{
}

/// In a background run, once Helium is found not running, the release's chosen
/// installer is installed (or the run fails when the release has none), whatever
/// the configuration says about closing the browser.
pub proof fn lemma_background_not_running_installs(
    c: Config,
    h: InstalledHelium,
    s: State,
    r: ReleaseInfo,
    arch: NativeArchitecture,
    next: BackgroundStep,
    action: RunAction,
)
    requires
        background_moves(
            BackgroundStep::AwaitRunning(c, h, s, r),
            RunEvent::RunningChecked(false),
            arch,
            next,
            action,
        ),
    ensures
        match action {
            RunAction::Install(a) => next == BackgroundStep::AwaitInstall(s, r, h) && exists|k: int|
                best_installer(r.assets@, arch, k) && a == #[trigger] r.assets@[k],
            RunAction::Fail(m) => next == BackgroundStep::Done && m@ == no_installer_message()
                && forall|j: int|
                0 <= j < r.assets@.len() ==> !installer_candidate(#[trigger] r.assets@[j].name@),
            _ => false,
        },
{
}

/// A background run defers the update only when it found Helium running and the
/// configuration forbids closing it.
pub proof fn lemma_background_defers_only_when_running_and_not_allowed(
    step: BackgroundStep,
    event: RunEvent,
    arch: NativeArchitecture,
    next: BackgroundStep,
)
    requires
        background_moves(step, event, arch, next, RunAction::ReadClock(Outcome::Deferred)),
    ensures
        step matches BackgroundStep::AwaitRunning(c, h, s, r) && !c.close_running_helium && event
            == RunEvent::RunningChecked(true),
{
}

/// In a manual run, once Helium is found not running, the release's chosen
/// installer is installed (or the run fails when the release has none).
pub proof fn lemma_manual_not_running_installs(
    s: State,
    h: InstalledHelium,
    r: ReleaseInfo,
    arch: NativeArchitecture,
    next: ManualStep,
    action: RunAction,
)
    requires
        manual_moves(ManualStep::AwaitRunning(s, h, r), RunEvent::RunningChecked(false), arch, next, action),
    ensures
        match action {
            RunAction::Install(a) => next == ManualStep::AwaitInstall(s, r) && exists|k: int|
                best_installer(r.assets@, arch, k) && a == #[trigger] r.assets@[k],
            RunAction::Fail(m) => next == ManualStep::Done && m@ == no_installer_message()
                && forall|j: int|
                0 <= j < r.assets@.len() ==> !installer_candidate(#[trigger] r.assets@[j].name@),
            _ => false,
        },
{
}

/// A manual run records "already up to date" only right after gathering, when
/// Helium was found installed and no update is due for it.
pub proof fn lemma_manual_already_current_only_when_nothing_due(
    step: ManualStep,
    event: RunEvent,
    arch: NativeArchitecture,
    next: ManualStep,
)
    requires
        manual_moves(step, event, arch, next, RunAction::ReadClock(Outcome::AlreadyCurrent)),
    ensures
        step == ManualStep::AwaitGathered,
        event matches RunEvent::Gathered(s, found, r) && found matches Some(h) && h.found()
            && !update_due(found, r, s@),
{
}

} // verus!
