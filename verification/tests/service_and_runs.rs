use helium_updater::github::{ReleaseAsset, ReleaseInfo};
use helium_updater::helium::{InstalledHelium, NativeArchitecture};
use helium_updater::install::{
    check_digest, digest_to_verify, download_script, hash_script, installer_outcome,
    installer_script, lock_is_stale,
};
use helium_updater::runs::{
    background_start, background_step, manual_start, manual_step, BackgroundStep, ManualStep,
    Outcome, RunAction, RunEvent, SkipReason,
};
use helium_updater::service::{
    compose_snapshot, compute_update_available, dismiss_notification, looks_like_chromium,
    record_check, record_manual_installed, should_install, with_error, Config, DashboardSnapshot,
    State,
};

fn helium(display: Option<&str>, product: Option<&str>) -> InstalledHelium {
    InstalledHelium {
        install_root: Some("C:\\Helium".to_string()),
        executable_path: Some("C:\\Helium\\helium.exe".to_string()),
        display_version: display.map(str::to_string),
        product_version: product.map(str::to_string),
    }
}

fn release(tag: &str, chromium: Option<&str>) -> ReleaseInfo {
    ReleaseInfo {
        tag_name: tag.to_string(),
        published_at: "2025-06-01 10:00:00 UTC".to_string(),
        chromium_version: chromium.map(str::to_string),
        assets: vec![ReleaseAsset {
            name: "helium_x64-installer.exe".to_string(),
            digest: Some("sha256:ABCD".to_string()),
            download_url: "https://example.invalid/i.exe".to_string(),
        }],
    }
}

#[test]
fn chromium_looking_versions() {
    assert!(looks_like_chromium("137.0.7151.68"));
    assert!(looks_like_chromium("100.0"));
    assert!(!looks_like_chromium("99.9"));
    assert!(!looks_like_chromium("0.4.5.1"));
    assert!(!looks_like_chromium("none"));
}

#[test]
fn update_due_decisions() {
    let state = State::default();
    let r = release("0.4.5.1", Some("137.0.7151.68"));
    assert!(compute_update_available(None, &r, &state));
    // product version against the Chromium version
    assert!(compute_update_available(Some(&helium(None, Some("136.0.1.1"))), &r, &state));
    assert!(!compute_update_available(Some(&helium(None, Some("137.0.7151.68"))), &r, &state));
    assert!(!compute_update_available(Some(&helium(Some("0.1"), Some("138.0"))), &r, &state));
    // a Chromium-looking display version stands in for a missing product version
    assert!(compute_update_available(Some(&helium(Some("136.0"), None)), &r, &state));
    // otherwise the display version against the tag
    assert!(compute_update_available(Some(&helium(Some("0.4.5.0"), None)), &r, &state));
    assert!(!compute_update_available(Some(&helium(Some("0.4.5.1"), None)), &r, &state));
    // no comparison possible: the last seen tag decides
    let r = release("nightly", None);
    assert!(compute_update_available(Some(&helium(None, None)), &r, &state));
    let mut seen = State::default();
    seen.last_seen_release_tag = Some("nightly".to_string());
    assert!(!compute_update_available(Some(&helium(None, None)), &r, &seen));
    seen.last_seen_release_tag = Some("older".to_string());
    assert!(compute_update_available(Some(&helium(None, None)), &r, &seen));
}

#[test]
fn dashboard_prefers_what_is_known_now() {
    let mut state = State::default();
    state.installed_display_version = Some("0.1".to_string());
    state.last_seen_release_tag = Some("0.2".to_string());
    state.last_status_message = Some("remembered".to_string());
    let config = Config::default();
    let snap = compose_snapshot(&config, &state, None, None, None, false, NativeArchitecture::X64);
    assert_eq!(snap.installed_label(), "0.1");
    assert_eq!(snap.latest_label(), "0.2");
    assert_eq!(snap.last_checked_label(), "Never");
    assert_eq!(snap.status_message, "remembered");
    assert_eq!(snap.architecture_label, "x64");
    assert!(!snap.is_installed);
    assert!(snap.automatic_updates_enabled);

    let h = helium(Some("0.4.5.1"), Some("137.0"));
    let r = release("0.4.5.2", Some("138.0"));
    state.last_error = Some("boom".to_string());
    let snap = compose_snapshot(&config, &state, Some(&h), Some(&r), Some(true), true, NativeArchitecture::Arm64);
    assert_eq!(snap.installed_label(), "0.4.5.1");
    assert_eq!(snap.installed_product_version.as_deref(), Some("137.0"));
    assert_eq!(snap.latest_label(), "0.4.5.2");
    assert_eq!(snap.latest_product_version.as_deref(), Some("138.0"));
    assert_eq!(snap.status_message, "boom");
    assert_eq!(snap.architecture_label, "arm64");
    assert!(snap.is_installed);
    assert_eq!(snap.install_button_label(), "Download and install update");
    assert!(snap.install_enabled(false));
    assert!(!snap.install_enabled(true));
    assert!(snap.delete_task_enabled(false));
    assert_eq!(snap.update_status_label(), "Update status: new release available");
}

#[test]
fn dashboard_defaults_and_overrides() {
    let snap = compose_snapshot(&Config::default(), &State::default(), None, None, None, false, NativeArchitecture::X64);
    assert_eq!(snap.installed_label(), "Not installed");
    assert_eq!(snap.latest_label(), "Not checked yet");
    assert_eq!(snap.status_message, "Ready.");
    assert_eq!(snap.install_button_label(), "Download and install Helium");
    assert_eq!(snap.update_status_label(), "Update status: not checked yet");
    let off = snap.clone().with_automatic_updates(false);
    assert!(!off.automatic_updates_enabled && !off.scheduled_task_present);
    assert_eq!(off.status_message, "Automatic daily updates are disabled.");
    let on = off.with_automatic_updates(true);
    assert!(on.automatic_updates_enabled && on.scheduled_task_present);
    assert_eq!(on.status_message, "Automatic daily updates are enabled.");
    let deleted = on.with_task_deleted();
    assert_eq!(deleted.status_message, "The scheduled task was deleted and automatic updates were disabled.");
    let failed: DashboardSnapshot = deleted.with_status("network down".to_string());
    assert_eq!(failed.status_message, "network down");
}

#[test]
fn check_records_release_and_status() {
    let mut state = State::default();
    state.last_error = Some("old".to_string());
    state.pending_update_notification = Some("note".to_string());
    let r = release("0.4.5.2", Some("138.0"));
    let h = helium(Some("0.4.5.1"), Some("137.0"));
    let s = record_check(state.clone(), &r, Some(&h), true, "now".to_string());
    assert_eq!(s.last_checked_at.as_deref(), Some("now"));
    assert_eq!(s.last_seen_release_tag.as_deref(), Some("0.4.5.2"));
    assert_eq!(s.last_seen_product_version.as_deref(), Some("138.0"));
    assert_eq!(s.installed_display_version.as_deref(), Some("0.4.5.1"));
    assert_eq!(s.last_status_message.as_deref(), Some("Helium 0.4.5.2 is available to install."));
    assert_eq!(s.last_error, None);
    assert_eq!(s.pending_update_notification.as_deref(), Some("note"));
    let s = record_check(state.clone(), &r, None, true, "now".to_string());
    assert_eq!(s.last_status_message.as_deref(), Some("Helium 0.4.5.2 is ready to install."));
    let s = record_check(state.clone(), &r, Some(&h), false, "now".to_string());
    assert_eq!(s.last_status_message.as_deref(), Some("Helium is up to date."));
    let s = record_check(state, &r, None, false, "now".to_string());
    assert_eq!(s.last_status_message.as_deref(), Some("Helium is not installed. Latest release: 0.4.5.2."));
    let s = dismiss_notification(s);
    assert_eq!(s.pending_update_notification, None);
    let s = with_error(s, "broken");
    assert_eq!(s.last_error.as_deref(), Some("broken"));
}

#[test]
fn manual_install_messages() {
    let r = release("0.4.5.2", None);
    let mut state = State::default();
    state.pending_update_notification = Some("note".to_string());
    let s = record_manual_installed(state.clone(), &r, Some(&helium(None, Some("138.0"))), "t".to_string());
    assert_eq!(s.last_status_message.as_deref(), Some("Helium 138.0 is installed."));
    assert_eq!(s.pending_update_notification, None);
    let s = record_manual_installed(state, &r, None, "t".to_string());
    assert_eq!(s.last_status_message.as_deref(), Some("Helium 0.4.5.2 installer finished."));
    assert!(should_install(None, &r, &State::default()));
}

#[test]
fn download_checks() {
    let r = release("1.0", None);
    assert_eq!(digest_to_verify(&r.assets[0]), Some("ABCD".to_string()));
    let mut a = r.assets[0].clone();
    a.digest = Some("md5:00".to_string());
    assert_eq!(digest_to_verify(&a), None);
    a.digest = None;
    assert_eq!(digest_to_verify(&a), None);
    assert_eq!(check_digest("i.exe", "ABCD", "abcd"), Ok(()));
    assert_eq!(
        check_digest("i.exe", "ABCD", "ABCE"),
        Err("downloaded file hash mismatch for i.exe (expected sha256 ABCD, got abce)".to_string())
    );
    assert_eq!(installer_outcome(0), Ok(()));
    assert_eq!(installer_outcome(2), Err("Helium installer exited with code 2".to_string()));
    assert!(lock_is_stale(Some((43201, 0))));
    assert!(lock_is_stale(Some((43200, 1))));
    assert!(!lock_is_stale(Some((43200, 0))));
    assert!(!lock_is_stale(None));
    assert!(download_script("https://x/a'b", "C:\\d").contains("-Uri 'https://x/a''b' -OutFile 'C:\\d'\n"));
    assert_eq!(
        hash_script("C:\\f.exe"),
        "(Get-FileHash -LiteralPath 'C:\\f.exe' -Algorithm SHA256).Hash.ToLowerInvariant()"
    );
    assert!(installer_script("C:\\f.exe").contains("-FilePath 'C:\\f.exe' -ArgumentList '/S' -Wait -PassThru"));
}

fn config(enabled: bool, close: bool) -> Config {
    Config { automatic_updates_enabled: enabled, close_running_helium: close }
}

#[test]
fn background_run_disabled_skips() {
    let (step, action) = background_start();
    assert!(matches!(action, RunAction::LoadConfig));
    let (step, action) = background_step(step, RunEvent::ConfigLoaded(config(false, false)), NativeArchitecture::X64);
    assert!(matches!(step, BackgroundStep::Done));
    assert!(matches!(action, RunAction::Skip(SkipReason::AutomaticUpdatesDisabled)));
}

#[test]
fn background_run_never_installs_afresh() {
    let (step, _) = background_start();
    let (step, action) = background_step(step, RunEvent::ConfigLoaded(config(true, false)), NativeArchitecture::X64);
    assert!(matches!(action, RunAction::SyncScheduler(_)));
    let (step, action) = background_step(step, RunEvent::SchedulerSynced, NativeArchitecture::X64);
    assert!(matches!(action, RunAction::DetectInstalled));
    let (step, action) = background_step(step, RunEvent::InstalledDetected(None), NativeArchitecture::X64);
    assert!(matches!(step, BackgroundStep::Done));
    assert!(matches!(action, RunAction::Skip(SkipReason::NotInstalled)));
}

fn up_to_release(close: bool, installed: InstalledHelium, r: ReleaseInfo) -> (BackgroundStep, RunAction) {
    let arch = NativeArchitecture::X64;
    let (step, _) = background_start();
    let (step, _) = background_step(step, RunEvent::ConfigLoaded(config(true, close)), arch);
    let (step, _) = background_step(step, RunEvent::SchedulerSynced, arch);
    let (step, _) = background_step(step, RunEvent::InstalledDetected(Some(installed)), arch);
    background_step(step, RunEvent::ReleaseFetched(State::default(), r), arch)
}

#[test]
fn background_run_up_to_date_records_it() {
    let (step, action) = up_to_release(false, helium(None, Some("137.0")), release("1.0", Some("137.0")));
    assert!(matches!(action, RunAction::ReadClock(Outcome::UpToDate)));
    let (step, action) = background_step(step, RunEvent::ClockRead("t".to_string()), NativeArchitecture::X64);
    assert!(matches!(step, BackgroundStep::Done));
    match action {
        RunAction::Save(s, Outcome::UpToDate) => {
            assert_eq!(s.last_status_message.as_deref(), Some("Helium is up to date."));
            assert_eq!(s.last_checked_at.as_deref(), Some("t"));
        }
        other => panic!("unexpected {other:?}"),
    }
}

#[test]
fn background_run_defers_when_running_and_not_allowed_to_close() {
    let (step, action) = up_to_release(false, helium(None, Some("136.0")), release("1.0", Some("137.0")));
    assert!(matches!(action, RunAction::CheckRunning(_)));
    let (step, action) = background_step(step, RunEvent::RunningChecked(true), NativeArchitecture::X64);
    assert!(matches!(action, RunAction::ReadClock(Outcome::Deferred)));
    let (_, action) = background_step(step, RunEvent::ClockRead("t".to_string()), NativeArchitecture::X64);
    match action {
        RunAction::Save(s, Outcome::Deferred) => assert_eq!(
            s.pending_update_notification.as_deref(),
            Some("Helium 1.0 is available but could not install because Helium is running. Open the updater to install manually.")
        ),
        other => panic!("unexpected {other:?}"),
    }
}

#[test]
fn background_run_closes_when_allowed_then_installs() {
    let (step, _) = up_to_release(true, helium(None, Some("136.0")), release("1.0", Some("137.0")));
    let (step, action) = background_step(step, RunEvent::RunningChecked(true), NativeArchitecture::X64);
    assert!(matches!(action, RunAction::CloseRunning(_)));
    let (step, action) = background_step(step, RunEvent::Closed, NativeArchitecture::X64);
    match &action {
        RunAction::Install(a) => assert_eq!(a.name, "helium_x64-installer.exe"),
        other => panic!("unexpected {other:?}"),
    }
    let (step, action) = background_step(step, RunEvent::InstallFinished(Some(helium(None, Some("137.0")))), NativeArchitecture::X64);
    assert!(matches!(action, RunAction::ReadClock(Outcome::Installed)));
    let (step, action) = background_step(step, RunEvent::ClockRead("t".to_string()), NativeArchitecture::X64);
    assert!(matches!(step, BackgroundStep::Done));
    match action {
        RunAction::Save(s, Outcome::Installed) => {
            assert_eq!(s.last_status_message.as_deref(), Some("Background update installed Helium 137.0."));
            assert_eq!(s.installed_product_version.as_deref(), Some("137.0"));
        }
        other => panic!("unexpected {other:?}"),
    }
}

#[test]
fn background_run_rejects_events_out_of_order() {
    let (step, _) = background_start();
    let (step, action) = background_step(step, RunEvent::Closed, NativeArchitecture::X64);
    assert!(matches!(step, BackgroundStep::Done));
    match action {
        RunAction::Fail(m) => assert_eq!(m, "the update run received an event out of order"),
        other => panic!("unexpected {other:?}"),
    }
}

#[test]
fn manual_run_paths() {
    let arch = NativeArchitecture::X64;
    // nothing installed: straight to the installer
    let (step, action) = manual_start();
    assert!(matches!(action, RunAction::Gather));
    let (step, action) = manual_step(step, RunEvent::Gathered(State::default(), None, release("1.0", None)), arch);
    assert!(matches!(action, RunAction::Install(_)));
    let (step, _) = manual_step(step, RunEvent::InstallFinished(None), arch);
    let (step, action) = manual_step(step, RunEvent::ClockRead("t".to_string()), arch);
    assert!(matches!(step, ManualStep::Done));
    match action {
        RunAction::Save(s, Outcome::Installed) => {
            assert_eq!(s.last_status_message.as_deref(), Some("Helium 1.0 installer finished."))
        }
        other => panic!("unexpected {other:?}"),
    }
    // up to date: record it
    let (step, _) = manual_start();
    let (step, action) = manual_step(
        step,
        RunEvent::Gathered(State::default(), Some(helium(None, Some("137.0"))), release("1.0", Some("137.0"))),
        arch,
    );
    assert!(matches!(action, RunAction::ReadClock(Outcome::AlreadyCurrent)));
    let (_, action) = manual_step(step, RunEvent::ClockRead("t".to_string()), arch);
    match action {
        RunAction::Save(s, Outcome::AlreadyCurrent) => {
            assert_eq!(s.last_status_message.as_deref(), Some("Helium is already up to date."))
        }
        other => panic!("unexpected {other:?}"),
    }
    // running: always closed in a manual run
    let (step, _) = manual_start();
    let (step, action) = manual_step(
        step,
        RunEvent::Gathered(State::default(), Some(helium(None, Some("136.0"))), release("1.0", Some("137.0"))),
        arch,
    );
    assert!(matches!(action, RunAction::CheckRunning(_)));
    let (step, action) = manual_step(step, RunEvent::RunningChecked(true), arch);
    assert!(matches!(action, RunAction::CloseRunning(_)));
    let (_, action) = manual_step(step, RunEvent::Closed, arch);
    assert!(matches!(action, RunAction::Install(_)));
}

#[test]
fn dashboard_after_check_shows_current_facts() {
    let mut state = State::default();
    state.last_seen_release_tag = Some("old".to_string());
    state.installed_display_version = Some("0.0.1".to_string());
    let h = helium(Some("0.4.5.1"), Some("137.0"));
    let r = release("0.4.5.2", Some("138.0"));
    let available = compute_update_available(Some(&h), &r, &state);
    assert!(available);
    let state = record_check(state, &r, Some(&h), available, "now".to_string());
    let snap = compose_snapshot(&Config::default(), &state, Some(&h), Some(&r), Some(available), true, NativeArchitecture::X64);
    assert_eq!(snap.latest_label(), "0.4.5.2");
    assert_eq!(snap.installed_label(), "0.4.5.1");
    assert_eq!(snap.last_checked_label(), "now");
    assert_eq!(snap.status_message, "Helium 0.4.5.2 is available to install.");
    assert_eq!(snap.update_available, Some(true));
}
