//! The updater's decisions: the stored configuration and state, whether an
//! update is due, what the dashboard shows, and what each run records.
use vstd::prelude::*;
use vstd::string::*;
use std::cmp::Ordering;
use crate::github::ReleaseInfo;
use crate::helium::{label_text, InstalledHelium, NativeArchitecture};
use crate::text::{copy_opt, join3, opt_text};
use crate::versioning::{compare_versions, compared, parse_version, version_of};

verus! {

// ---------------------------------------------------------------------------
// Stored configuration and state
// ---------------------------------------------------------------------------

/// The user's settings.
#[derive(Clone, Copy, Debug)]
pub struct Config {
    pub automatic_updates_enabled: bool,
    pub close_running_helium: bool,
}

impl Default for Config {
    /// Automatic updates on; a running Helium is left alone.
    fn default() -> (r: Self)
        ensures
            r.automatic_updates_enabled,
            !r.close_running_helium,
    {
        Config { automatic_updates_enabled: true, close_running_helium: false }
    }
}

/// What the updater remembers between runs.
#[derive(Debug)]
pub struct State {
    pub last_checked_at: Option<String>,
    pub last_seen_release_tag: Option<String>,
    pub last_seen_product_version: Option<String>,
    pub latest_release_published_at: Option<String>,
    pub installed_display_version: Option<String>,
    pub installed_product_version: Option<String>,
    pub last_status_message: Option<String>,
    pub last_error: Option<String>,
    pub pending_update_notification: Option<String>,
}

/// The remembered state by its texts.
pub struct StateView {
    pub last_checked_at: Option<Seq<char>>,
    pub last_seen_release_tag: Option<Seq<char>>,
    pub last_seen_product_version: Option<Seq<char>>,
    pub latest_release_published_at: Option<Seq<char>>,
    pub installed_display_version: Option<Seq<char>>,
    pub installed_product_version: Option<Seq<char>>,
    pub last_status_message: Option<Seq<char>>,
    pub last_error: Option<Seq<char>>,
    pub pending_update_notification: Option<Seq<char>>,
}

impl View for State {
    type V = StateView;

    open spec fn view(&self) -> StateView {
        StateView {
            last_checked_at: opt_text(self.last_checked_at),
            last_seen_release_tag: opt_text(self.last_seen_release_tag),
            last_seen_product_version: opt_text(self.last_seen_product_version),
            latest_release_published_at: opt_text(self.latest_release_published_at),
            installed_display_version: opt_text(self.installed_display_version),
            installed_product_version: opt_text(self.installed_product_version),
            last_status_message: opt_text(self.last_status_message),
            last_error: opt_text(self.last_error),
            pending_update_notification: opt_text(self.pending_update_notification),
        }
    }
}

impl Clone for State {
    fn clone(&self) -> (r: Self)
        ensures
            r == *self,
    {
        State {
            last_checked_at: copy_opt(&self.last_checked_at),
            last_seen_release_tag: copy_opt(&self.last_seen_release_tag),
            last_seen_product_version: copy_opt(&self.last_seen_product_version),
            latest_release_published_at: copy_opt(&self.latest_release_published_at),
            installed_display_version: copy_opt(&self.installed_display_version),
            installed_product_version: copy_opt(&self.installed_product_version),
            last_status_message: copy_opt(&self.last_status_message),
            last_error: copy_opt(&self.last_error),
            pending_update_notification: copy_opt(&self.pending_update_notification),
        }
    }
}

impl Default for State {
    /// Nothing remembered.
    fn default() -> (r: Self)
        ensures
            r@ == empty_state(),
    {
        State {
            last_checked_at: None,
            last_seen_release_tag: None,
            last_seen_product_version: None,
            latest_release_published_at: None,
            installed_display_version: None,
            installed_product_version: None,
            last_status_message: None,
            last_error: None,
            pending_update_notification: None,
        }
    }
}

/// The state with nothing remembered.
pub open spec fn empty_state() -> StateView {
    StateView {
        last_checked_at: None,
        last_seen_release_tag: None,
        last_seen_product_version: None,
        latest_release_published_at: None,
        installed_display_version: None,
        installed_product_version: None,
        last_status_message: None,
        last_error: None,
        pending_update_notification: None,
    }
}

// ---------------------------------------------------------------------------
// Whether an update is due
// ---------------------------------------------------------------------------

/// A version whose first number is at least 100, as Chromium versions are.
pub open spec fn chromium_like(v: Seq<char>) -> bool {
    match version_of(v) {
        Some(p) => p[0] >= 100,
        None => false,
    }
}

/// The installed version to hold against the release's Chromium version: the
/// product version, else a display version that looks like a Chromium version.
pub open spec fn installed_chromium(h: InstalledHelium) -> Option<Seq<char>> {
    match h.product_version {
        Some(p) => Some(p@),
        None => match h.display_version {
            Some(d) => if chromium_like(d@) { Some(d@) } else { None },
            None => None,
        },
    }
}

/// Whether the release is newer than what is installed. Nothing installed: yes.
/// Otherwise the first comparison that can be made decides: the installed
/// Chromium version against the release's, then the display version against the
/// release tag; failing both, a release tag other than the one last seen.
pub open spec fn update_due(installed: Option<InstalledHelium>, release: ReleaseInfo, state: StateView) -> bool {
    match installed {
        None => true,
        Some(h) => match compared(installed_chromium(h), opt_text(release.chromium_version)) {
            Some(o) => o == Ordering::Less,
            None => match compared(opt_text(h.display_version), Some(release.tag_name@)) {
                Some(o) => o == Ordering::Less,
                None => match state.last_seen_release_tag {
                    Some(t) => t != release.tag_name@,
                    None => true,
                },
            },
        },
    }
}

/// Whether a version looks like a Chromium version: its first number is at least
/// 100.
pub fn looks_like_chromium(version: &str) -> (b: bool)
    ensures
        b == chromium_like(version@),
{
    match parse_version(version) {
        Some(parts) => parts.0[0] >= 100,
        None => false,
    }
}

/// An optional string as an optional `&str`.
fn as_deref(o: &Option<String>) -> (r: Option<&str>)
    ensures
        match r {
            Some(s) => o matches Some(t) && s@ == t@,
            None => o is None,
        },
{
    match o {
        Some(s) => Some(s.as_str()),
        None => None,
    }
}

/// Whether the release is newer than what is installed (see `update_due`).
pub fn compute_update_available(
    installed: Option<&InstalledHelium>,
    release: &ReleaseInfo,
    state: &State,
) -> (b: bool)
    ensures
        b == update_due(
            match installed { Some(h) => Some(*h), None => None },
            *release,
            state@,
        ),
{
    let h = match installed {
        None => return true,
        Some(h) => h,
    };
    let candidate: Option<&str> = match &h.product_version {
        Some(p) => Some(p.as_str()),
        None => match &h.display_version {
            Some(d) => if looks_like_chromium(d.as_str()) { Some(d.as_str()) } else { None },
            None => None,
        },
    };
    let chromium = as_deref(&release.chromium_version);
    match compare_versions(candidate, chromium) {
        Some(o) => {
            return match o {
                Ordering::Less => true,
                _ => false,
            };
        },
        None => {},
    }
    let display = as_deref(&h.display_version);
    match compare_versions(display, Some(release.tag_name.as_str())) {
        Some(o) => {
            return match o {
                Ordering::Less => true,
                _ => false,
            };
        },
        None => {},
    }
    match &state.last_seen_release_tag {
        Some(t) => {
            let same = *t == release.tag_name;
            !same
        },
        None => true,
    }
}

// ---------------------------------------------------------------------------
// The dashboard
// ---------------------------------------------------------------------------

/// What the window shows.
#[derive(Debug)]
pub struct DashboardSnapshot {
    pub automatic_updates_enabled: bool,
    pub scheduled_task_present: bool,
    pub installed_version: Option<String>,
    pub installed_product_version: Option<String>,
    pub latest_release_tag: Option<String>,
    pub latest_product_version: Option<String>,
    pub latest_release_published_at: Option<String>,
    pub last_checked_at: Option<String>,
    pub update_available: Option<bool>,
    pub status_message: String,
    pub architecture_label: String,
    pub is_installed: bool,
    pub pending_update_notification: Option<String>,
}

/// The dashboard by its texts.
pub struct DashboardView {
    pub automatic_updates_enabled: bool,
    pub scheduled_task_present: bool,
    pub installed_version: Option<Seq<char>>,
    pub installed_product_version: Option<Seq<char>>,
    pub latest_release_tag: Option<Seq<char>>,
    pub latest_product_version: Option<Seq<char>>,
    pub latest_release_published_at: Option<Seq<char>>,
    pub last_checked_at: Option<Seq<char>>,
    pub update_available: Option<bool>,
    pub status_message: Seq<char>,
    pub architecture_label: Seq<char>,
    pub is_installed: bool,
    pub pending_update_notification: Option<Seq<char>>,
}

impl View for DashboardSnapshot {
    type V = DashboardView;

    open spec fn view(&self) -> DashboardView {
        DashboardView {
            automatic_updates_enabled: self.automatic_updates_enabled,
            scheduled_task_present: self.scheduled_task_present,
            installed_version: opt_text(self.installed_version),
            installed_product_version: opt_text(self.installed_product_version),
            latest_release_tag: opt_text(self.latest_release_tag),
            latest_product_version: opt_text(self.latest_product_version),
            latest_release_published_at: opt_text(self.latest_release_published_at),
            last_checked_at: opt_text(self.last_checked_at),
            update_available: self.update_available,
            status_message: self.status_message@,
            architecture_label: self.architecture_label@,
            is_installed: self.is_installed,
            pending_update_notification: opt_text(self.pending_update_notification),
        }
    }
}

impl Clone for DashboardSnapshot {
    fn clone(&self) -> (r: Self)
        ensures
            r == *self,
    {
        DashboardSnapshot {
            automatic_updates_enabled: self.automatic_updates_enabled,
            scheduled_task_present: self.scheduled_task_present,
            installed_version: copy_opt(&self.installed_version),
            installed_product_version: copy_opt(&self.installed_product_version),
            latest_release_tag: copy_opt(&self.latest_release_tag),
            latest_product_version: copy_opt(&self.latest_product_version),
            latest_release_published_at: copy_opt(&self.latest_release_published_at),
            last_checked_at: copy_opt(&self.last_checked_at),
            update_available: self.update_available,
            status_message: self.status_message.clone(),
            architecture_label: self.architecture_label.clone(),
            is_installed: self.is_installed,
            pending_update_notification: copy_opt(&self.pending_update_notification),
        }
    }
}

/// The first of two optional texts that is present.
pub open spec fn either(a: Option<Seq<char>>, b: Option<Seq<char>>) -> Option<Seq<char>> {
    match a {
        Some(x) => Some(x),
        None => b,
    }
}

/// The status line: the last error, else the last status message, else "Ready.".
pub open spec fn status_of(state: StateView) -> Seq<char> {
    match state.last_error {
        Some(e) => e,
        None => match state.last_status_message {
            Some(m) => m,
            None => "Ready."@,
        },
    }
}

/// The dashboard for a configuration, the remembered state, what is installed,
/// the latest release (when known), whether an update is due (when known),
/// whether the task is present, and the architecture. What is known now wins
/// over what was remembered.
pub open spec fn composed(
    config: Config,
    state: StateView,
    installed: Option<InstalledHelium>,
    release: Option<ReleaseInfo>,
    update_available: Option<bool>,
    scheduled_task_present: bool,
    architecture: NativeArchitecture,
) -> DashboardView {
    DashboardView {
        automatic_updates_enabled: config.automatic_updates_enabled,
        scheduled_task_present: scheduled_task_present,
        installed_version: either(
            match installed { Some(h) => opt_text(h.version_shown()), None => None },
            state.installed_display_version,
        ),
        installed_product_version: either(
            match installed { Some(h) => opt_text(h.product_version), None => None },
            state.installed_product_version,
        ),
        latest_release_tag: either(
            match release { Some(r) => Some(r.tag_name@), None => None },
            state.last_seen_release_tag,
        ),
        latest_product_version: either(
            match release { Some(r) => opt_text(r.chromium_version), None => None },
            state.last_seen_product_version,
        ),
        latest_release_published_at: either(
            match release { Some(r) => Some(r.published_at@), None => None },
            state.latest_release_published_at,
        ),
        last_checked_at: state.last_checked_at,
        update_available: update_available,
        status_message: status_of(state),
        architecture_label: label_text(architecture),
        is_installed: match installed { Some(h) => h.found(), None => false },
        pending_update_notification: state.pending_update_notification,
    }
}

/// The first of two optional strings that is present, copied.
fn first_of(a: Option<String>, b: &Option<String>) -> (r: Option<String>)
    ensures
        opt_text(r) == either(opt_text(a), opt_text(*b)),
{
    match a {
        Some(x) => Some(x),
        None => copy_opt(b),
    }
}

/// Builds what the window shows (see `composed`).
pub fn compose_snapshot(
    config: &Config,
    state: &State,
    installed: Option<&InstalledHelium>,
    release: Option<&ReleaseInfo>,
    update_available: Option<bool>,
    scheduled_task_present: bool,
    architecture: NativeArchitecture,
) -> (r: DashboardSnapshot)
    ensures
        r@ == composed(
            *config,
            state@,
            match installed { Some(h) => Some(*h), None => None },
            match release { Some(x) => Some(*x), None => None },
            update_available,
            scheduled_task_present,
            architecture,
        ),
{
    let status_message = match &state.last_error {
        Some(e) => e.clone(),
        None => match &state.last_status_message {
            Some(m) => m.clone(),
            None => String::from_str("Ready."),
        },
    };
    let installed_version = first_of(
        match installed { Some(h) => h.current_version(), None => None },
        &state.installed_display_version,
    );
    let installed_product_version = first_of(
        match installed { Some(h) => copy_opt(&h.product_version), None => None },
        &state.installed_product_version,
    );
    let latest_release_tag = first_of(
        match release { Some(x) => Some(x.tag_name.clone()), None => None },
        &state.last_seen_release_tag,
    );
    let latest_product_version = first_of(
        match release { Some(x) => copy_opt(&x.chromium_version), None => None },
        &state.last_seen_product_version,
    );
    let latest_release_published_at = first_of(
        match release { Some(x) => Some(x.published_at.clone()), None => None },
        &state.latest_release_published_at,
    );
    DashboardSnapshot {
        automatic_updates_enabled: config.automatic_updates_enabled,
        scheduled_task_present,
        installed_version,
        installed_product_version,
        latest_release_tag,
        latest_product_version,
        latest_release_published_at,
        last_checked_at: copy_opt(&state.last_checked_at),
        update_available,
        status_message,
        architecture_label: String::from_str(architecture.label()),
        is_installed: match installed { Some(h) => h.is_installed(), None => false },
        pending_update_notification: copy_opt(&state.pending_update_notification),
    }
}

impl DashboardSnapshot {
    /// The installed version, or "Not installed".
    pub fn installed_label(&self) -> (r: &str)
        ensures
            r@ == match self.installed_version { Some(v) => v@, None => "Not installed"@ },
    {
        match &self.installed_version {
            Some(v) => v.as_str(),
            None => "Not installed",
        }
    }

    /// The latest release tag, or "Not checked yet".
    pub fn latest_label(&self) -> (r: &str)
        ensures
            r@ == match self.latest_release_tag { Some(v) => v@, None => "Not checked yet"@ },
    {
        match &self.latest_release_tag {
            Some(v) => v.as_str(),
            None => "Not checked yet",
        }
    }

    /// When the last check was, or "Never".
    pub fn last_checked_label(&self) -> (r: &str)
        ensures
            r@ == match self.last_checked_at { Some(v) => v@, None => "Never"@ },
    {
        match &self.last_checked_at {
            Some(v) => v.as_str(),
            None => "Never",
        }
    }

    /// The text of the install button: fresh install, update, or reinstall.
    pub fn install_button_label(&self) -> (r: &'static str)
        ensures
            r@ == if !self.is_installed {
                "Download and install Helium"@
            } else if self.update_available == Some(true) {
                "Download and install update"@
            } else {
                "Install latest release"@
            },
    {
        if !self.is_installed {
            "Download and install Helium"
        } else if self.update_available == Some(true) {
            "Download and install update"
        } else {
            "Install latest release"
        }
    }

    /// The install button works when nothing is running and Helium is missing or
    /// not known to be up to date.
    pub fn install_enabled(&self, busy: bool) -> (b: bool)
        ensures
            b == (!busy && (!self.is_installed || self.update_available != Some(false))),
    {
        !busy && (!self.is_installed || self.update_available != Some(false))
    }

    /// The delete-task button works when nothing is running and the task is there.
    pub fn delete_task_enabled(&self, busy: bool) -> (b: bool)
        ensures
            b == (!busy && self.scheduled_task_present),
    {
        !busy && self.scheduled_task_present
    }

    /// The headline of the update status.
    pub fn update_status_label(&self) -> (r: &'static str)
        ensures
            r@ == match self.update_available {
                Some(true) => if self.is_installed {
                    "Update status: new release available"@
                } else {
                    "Update status: ready to install"@
                },
                Some(false) => "Update status: already up to date"@,
                None => "Update status: not checked yet"@,
            },
    {
        match self.update_available {
            Some(true) => if self.is_installed {
                "Update status: new release available"
            } else {
                "Update status: ready to install"
            },
            Some(false) => "Update status: already up to date",
            None => "Update status: not checked yet",
        }
    }

    /// The dashboard after automatic updates were switched on or off.
    pub fn with_automatic_updates(self, enabled: bool) -> (r: DashboardSnapshot)
        ensures
            r@ == (DashboardView {
                automatic_updates_enabled: enabled,
                scheduled_task_present: enabled,
                status_message: if enabled {
                    "Automatic daily updates are enabled."@
                } else {
                    "Automatic daily updates are disabled."@
                },
                ..self@
            }),
    {
        let mut s = self;
        s.automatic_updates_enabled = enabled;
        s.scheduled_task_present = enabled;
        s.status_message = if enabled {
            String::from_str("Automatic daily updates are enabled.")
        } else {
            String::from_str("Automatic daily updates are disabled.")
        };
        s
    }

    /// The dashboard after the scheduled task was deleted.
    pub fn with_task_deleted(self) -> (r: DashboardSnapshot)
        ensures
            r@ == (DashboardView {
                automatic_updates_enabled: false,
                scheduled_task_present: false,
                status_message: "The scheduled task was deleted and automatic updates were disabled."@,
                ..self@
            }),
    {
        let mut s = self;
        s.automatic_updates_enabled = false;
        s.scheduled_task_present = false;
        s.status_message = String::from_str(
            "The scheduled task was deleted and automatic updates were disabled.",
        );
        s
    }

    /// The dashboard with a message in place of the status line.
    pub fn with_status(self, message: String) -> (r: DashboardSnapshot)
        ensures
            r@ == (DashboardView { status_message: message@, ..self@ }),
    {
        let mut s = self;
        s.status_message = message;
        s
    }
}

// ---------------------------------------------------------------------------
// What runs record
// ---------------------------------------------------------------------------

/// The status after a check: an update is available (to an installed Helium),
/// ready (nothing installed), up to date, or not installed.
pub open spec fn check_message(installed: bool, available: bool, tag: Seq<char>) -> Seq<char> {
    if available && installed {
        "Helium "@ + tag + " is available to install."@
    } else if available {
        "Helium "@ + tag + " is ready to install."@
    } else if installed {
        "Helium is up to date."@
    } else {
        "Helium is not installed. Latest release: "@ + tag + "."@
    }
}

/// The state with the release and installation just seen, checked at `now`;
/// the status and the notification are left as they were, the error cleared.
pub open spec fn seen(
    state: StateView,
    release: ReleaseInfo,
    installed: Option<InstalledHelium>,
    now: Seq<char>,
) -> StateView {
    StateView {
        last_checked_at: Some(now),
        last_seen_release_tag: Some(release.tag_name@),
        last_seen_product_version: opt_text(release.chromium_version),
        latest_release_published_at: Some(release.published_at@),
        installed_display_version: match installed {
            Some(h) => opt_text(h.version_shown()),
            None => None,
        },
        installed_product_version: match installed {
            Some(h) => opt_text(h.product_version),
            None => None,
        },
        last_error: None,
        ..state
    }
}

/// The state after a check (the interactive refresh).
pub open spec fn checked(
    state: StateView,
    release: ReleaseInfo,
    installed: Option<InstalledHelium>,
    available: bool,
    now: Seq<char>,
) -> StateView {
    StateView {
        last_status_message: Some(check_message(installed is Some, available, release.tag_name@)),
        ..seen(state, release, installed, now)
    }
}

/// The notification left when a background update had to wait for Helium to
/// close.
pub open spec fn deferred_message(tag: Seq<char>) -> Seq<char> {
    "Helium "@ + tag
        + " is available but could not install because Helium is running. Open the updater to install manually."@
}

/// The status after a background installation.
pub open spec fn background_installed_message(refreshed: Option<InstalledHelium>, tag: Seq<char>) -> Seq<char> {
    match refreshed {
        Some(h) => "Background update installed Helium "@ + match opt_text(h.version_shown()) {
            Some(v) => v,
            None => tag,
        } + "."@,
        None => "Background update completed."@,
    }
}

/// The status after a manual installation.
pub open spec fn manual_installed_message(refreshed: Option<InstalledHelium>, tag: Seq<char>) -> Seq<char> {
    match refreshed {
        Some(h) => "Helium "@ + match opt_text(h.version_shown()) {
            Some(v) => v,
            None => tag,
        } + " is installed."@,
        None => "Helium "@ + tag + " installer finished."@,
    }
}

/// The state after a background run found Helium up to date.
pub open spec fn background_up_to_date(
    state: StateView,
    release: ReleaseInfo,
    installed: InstalledHelium,
    now: Seq<char>,
) -> StateView {
    StateView {
        last_status_message: Some("Helium is up to date."@),
        ..seen(state, release, Some(installed), now)
    }
}

/// The state after a background run left an update for later because Helium was
/// running.
pub open spec fn background_deferred(
    state: StateView,
    release: ReleaseInfo,
    installed: InstalledHelium,
    now: Seq<char>,
) -> StateView {
    StateView {
        pending_update_notification: Some(deferred_message(release.tag_name@)),
        ..seen(state, release, Some(installed), now)
    }
}

/// The state after a background run installed the release.
pub open spec fn background_installed(
    state: StateView,
    release: ReleaseInfo,
    refreshed: Option<InstalledHelium>,
    now: Seq<char>,
) -> StateView {
    StateView {
        last_status_message: Some(background_installed_message(refreshed, release.tag_name@)),
        ..seen(state, release, refreshed, now)
    }
}

/// The state after a manual run found nothing to install.
pub open spec fn manual_already_current(state: StateView, now: Seq<char>) -> StateView {
    StateView {
        last_checked_at: Some(now),
        last_status_message: Some("Helium is already up to date."@),
        last_error: None,
        ..state
    }
}

/// The state after a manual run installed the release: any notification is
/// cleared.
pub open spec fn manual_installed(
    state: StateView,
    release: ReleaseInfo,
    refreshed: Option<InstalledHelium>,
    now: Seq<char>,
) -> StateView {
    StateView {
        last_status_message: Some(manual_installed_message(refreshed, release.tag_name@)),
        pending_update_notification: None,
        ..seen(state, release, refreshed, now)
    }
}

/// The state with the release and installation just seen (see `seen`).
fn record_seen(
    state: State,
    release: &ReleaseInfo,
    installed: Option<&InstalledHelium>,
    now: String,
) -> (r: State)
    ensures
        r@ == seen(state@, *release, match installed { Some(h) => Some(*h), None => None }, now@),
{
    let mut s = state;
    s.last_checked_at = Some(now);
    s.last_seen_release_tag = Some(release.tag_name.clone());
    s.last_seen_product_version = copy_opt(&release.chromium_version);
    s.latest_release_published_at = Some(release.published_at.clone());
    s.installed_display_version = match installed {
        Some(h) => h.current_version(),
        None => None,
    };
    s.installed_product_version = match installed {
        Some(h) => copy_opt(&h.product_version),
        None => None,
    };
    s.last_error = None;
    s
}

/// The status after a check (see `check_message`).
pub fn check_status(installed: bool, available: bool, tag: &str) -> (r: String)
    ensures
        r@ == check_message(installed, available, tag@),
{
    if available && installed {
        join3("Helium ", tag, " is available to install.")
    } else if available {
        join3("Helium ", tag, " is ready to install.")
    } else if installed {
        String::from_str("Helium is up to date.")
    } else {
        join3("Helium is not installed. Latest release: ", tag, ".")
    }
}

/// The state after an interactive check (see `checked`).
pub fn record_check(
    state: State,
    release: &ReleaseInfo,
    installed: Option<&InstalledHelium>,
    available: bool,
    now: String,
) -> (r: State)
    ensures
        r@ == checked(
            state@,
            *release,
            match installed { Some(h) => Some(*h), None => None },
            available,
            now@,
        ),
{
    let message = check_status(installed.is_some(), available, release.tag_name.as_str());
    let mut s = record_seen(state, release, installed, now);
    s.last_status_message = Some(message);
    s
}

/// The state after a background run found Helium up to date.
pub fn record_background_up_to_date(
    state: State,
    release: &ReleaseInfo,
    installed: &InstalledHelium,
    now: String,
) -> (r: State)
    ensures
        r@ == background_up_to_date(state@, *release, *installed, now@),
{
    let mut s = record_seen(state, release, Some(installed), now);
    s.last_status_message = Some(String::from_str("Helium is up to date."));
    s
}

/// The state after a background run left the update for later.
pub fn record_background_deferred(
    state: State,
    release: &ReleaseInfo,
    installed: &InstalledHelium,
    now: String,
) -> (r: State)
    ensures
        r@ == background_deferred(state@, *release, *installed, now@),
{
    let note = join3(
        "Helium ",
        release.tag_name.as_str(),
        " is available but could not install because Helium is running. Open the updater to install manually.",
    );
    let mut s = record_seen(state, release, Some(installed), now);
    s.pending_update_notification = Some(note);
    s
}

/// The version named in a status after an installation: the refreshed
/// installation's version, else the release tag.
fn installed_version_text(refreshed: &InstalledHelium, tag: &String) -> (r: String)
    ensures
        r@ == match opt_text(refreshed.version_shown()) {
            Some(v) => v,
            None => tag@,
        },
{
    match refreshed.current_version() {
        Some(v) => v,
        None => tag.clone(),
    }
}

/// The state after a background run installed the release.
pub fn record_background_installed(
    state: State,
    release: &ReleaseInfo,
    refreshed: Option<&InstalledHelium>,
    now: String,
) -> (r: State)
    ensures
        r@ == background_installed(
            state@,
            *release,
            match refreshed { Some(h) => Some(*h), None => None },
            now@,
        ),
{
    let message = match refreshed {
        Some(h) => {
            let v = installed_version_text(h, &release.tag_name);
            join3("Background update installed Helium ", v.as_str(), ".")
        },
        None => String::from_str("Background update completed."),
    };
    let mut s = record_seen(state, release, refreshed, now);
    s.last_status_message = Some(message);
    s
}

/// The state after a manual run found nothing to install.
pub fn record_manual_already_current(state: State, now: String) -> (r: State)
    ensures
        r@ == manual_already_current(state@, now@),
{
    let mut s = state;
    s.last_checked_at = Some(now);
    s.last_status_message = Some(String::from_str("Helium is already up to date."));
    s.last_error = None;
    s
}

/// The state after a manual run installed the release.
pub fn record_manual_installed(
    state: State,
    release: &ReleaseInfo,
    refreshed: Option<&InstalledHelium>,
    now: String,
) -> (r: State)
    ensures
        r@ == manual_installed(
            state@,
            *release,
            match refreshed { Some(h) => Some(*h), None => None },
            now@,
        ),
{
    let message = match refreshed {
        Some(h) => {
            let v = installed_version_text(h, &release.tag_name);
            join3("Helium ", v.as_str(), " is installed.")
        },
        None => join3("Helium ", release.tag_name.as_str(), " installer finished."),
    };
    let mut s = record_seen(state, release, refreshed, now);
    s.last_status_message = Some(message);
    s.pending_update_notification = None;
    s
}

/// The state with the update notification dismissed.
pub fn dismiss_notification(state: State) -> (r: State)
    ensures
        r@ == (StateView { pending_update_notification: None, ..state@ }),
{
    let mut s = state;
    s.pending_update_notification = None;
    s
}

/// The state with an error recorded.
pub fn with_error(state: State, message: &str) -> (r: State)
    ensures
        r@ == (StateView { last_error: Some(message@), ..state@ }),
{
    let mut s = state;
    s.last_error = Some(String::from_str(message));
    s
}

/// Whether a manual run installs: when nothing is installed, or an update is due.
pub open spec fn manual_installs(installed: Option<InstalledHelium>, release: ReleaseInfo, state: StateView) -> bool {
    !(match installed { Some(h) => h.found(), None => false }) || update_due(installed, release, state)
}

/// Decides whether a manual run installs (see `manual_installs`).
pub fn should_install(installed: Option<&InstalledHelium>, release: &ReleaseInfo, state: &State) -> (b: bool)
    ensures
        b == manual_installs(match installed { Some(h) => Some(*h), None => None }, *release, state@),
{
    let found = match installed {
        Some(h) => h.is_installed(),
        None => false,
    };
    !found || compute_update_available(installed, release, state)
}

// ---------------------------------------------------------------------------
// Laws
// ---------------------------------------------------------------------------

/// With nothing installed, an update is always due.
pub proof fn lemma_nothing_installed_update_due(release: ReleaseInfo, state: StateView)
    ensures
        update_due(None, release, state),
{
}

/// When the installed product version and the release's Chromium version are
/// both readable, they alone decide: an update is due exactly when the installed
/// one is older.
pub proof fn lemma_chromium_versions_decide(h: InstalledHelium, release: ReleaseInfo, state: StateView)
    requires
        h.product_version is Some,
        release.chromium_version is Some,
        version_of(h.product_version->Some_0@) is Some,
        version_of(release.chromium_version->Some_0@) is Some,
    ensures
        update_due(Some(h), release, state) == (compared(
            Some(h.product_version->Some_0@),
            Some(release.chromium_version->Some_0@),
        ) == Some(Ordering::Less)),
{
}

/// An installation whose product version reads as the release's Chromium
/// version needs no update.
pub proof fn lemma_same_chromium_not_due(h: InstalledHelium, release: ReleaseInfo, state: StateView)
    requires
        h.product_version is Some,
        release.chromium_version is Some,
        version_of(h.product_version->Some_0@) is Some,
        version_of(h.product_version->Some_0@) == version_of(release.chromium_version->Some_0@),
    ensures
        !update_due(Some(h), release, state),
{
}

/// When no version comparison can be made, an update is due exactly when the
/// release tag differs from the one last seen (or none was seen).
pub proof fn lemma_unreadable_versions_fall_back_to_tag(
    h: InstalledHelium,
    release: ReleaseInfo,
    state: StateView,
)
    requires
        compared(installed_chromium(h), opt_text(release.chromium_version)) is None,
        compared(opt_text(h.display_version), Some(release.tag_name@)) is None,
    ensures
        update_due(Some(h), release, state) == match state.last_seen_release_tag {
            Some(t) => t != release.tag_name@,
            None => true,
        },
{
}

/// After a check, the dashboard shows the release just fetched and the
/// installation just found, whatever was remembered before.
pub proof fn lemma_check_then_compose_shows_current(
    config: Config,
    state: StateView,
    h: InstalledHelium,
    release: ReleaseInfo,
    available: bool,
    now: Seq<char>,
    task: bool,
    arch: NativeArchitecture,
)
    requires
        h.display_version is Some,
    ensures
        ({
            let d = composed(
                config,
                checked(state, release, Some(h), available, now),
                Some(h),
                Some(release),
                Some(available),
                task,
                arch,
            );
            &&& d.latest_release_tag == Some(release.tag_name@)
            &&& d.installed_version == opt_text(h.display_version)
            &&& d.last_checked_at == Some(now)
            &&& d.status_message == check_message(true, available, release.tag_name@)
            &&& d.update_available == Some(available)
        }),
{
}

/// The dashboard shows the release just fetched over what was remembered: its
/// tag, its publication time, and its Chromium version when it names one; the
/// remembered values stand only for what the fetched release does not give.
pub proof fn lemma_dashboard_prefers_fetched_release(
    config: Config,
    state: StateView,
    installed: Option<InstalledHelium>,
    r: ReleaseInfo,
    update_available: Option<bool>,
    task: bool,
    arch: NativeArchitecture,
)
    ensures
        ({
            let d = composed(config, state, installed, Some(r), update_available, task, arch);
            &&& d.latest_release_tag == Some(r.tag_name@)
            &&& d.latest_release_published_at == Some(r.published_at@)
            &&& (r.chromium_version matches Some(v) ==> d.latest_product_version == Some(v@))
            &&& (r.chromium_version is None ==> d.latest_product_version
                == state.last_seen_product_version)
        }),
{
}

/// The dashboard shows the installation just found over what was remembered: its
/// display version (else product version) and its product version when known;
/// with nothing found, the remembered versions, and "not installed".
pub proof fn lemma_dashboard_prefers_found_installation(
    config: Config,
    state: StateView,
    installed: Option<InstalledHelium>,
    release: Option<ReleaseInfo>,
    update_available: Option<bool>,
    task: bool,
    arch: NativeArchitecture,
)
    ensures
        installed matches Some(h) ==> (h.display_version matches Some(v) ==> composed(
            config,
            state,
            installed,
            release,
            update_available,
            task,
            arch,
        ).installed_version == Some(v@)),
        installed matches Some(h) ==> (h.product_version matches Some(p) ==> composed(
            config,
            state,
            installed,
            release,
            update_available,
            task,
            arch,
        ).installed_product_version == Some(p@)),
        installed is None ==> composed(config, state, installed, release, update_available, task, arch).installed_version
            == state.installed_display_version,
        installed is None ==> composed(config, state, installed, release, update_available, task, arch).installed_product_version
            == state.installed_product_version,
        installed is None ==> !composed(config, state, installed, release, update_available, task, arch).is_installed,
        release is None ==> composed(config, state, installed, release, update_available, task, arch).latest_release_tag
            == state.last_seen_release_tag,
        release is None ==> composed(config, state, installed, release, update_available, task, arch).latest_product_version
            == state.last_seen_product_version,
{
}

} // verus!
