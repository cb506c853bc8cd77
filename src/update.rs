//! Self-update bookkeeping: modes, reports, persisted state and the
//! decisions taken after the remote version is known.
use vstd::prelude::*;
use vstd::string::*;
use core::cmp::Ordering;

verus! {

pub const DEFAULT_CHANNEL: &'static str = "stable";
pub const DEFAULT_BASE_URL: &'static str = "https://install.audetic.ai";
/// Hours between automatic update checks.
pub const UPDATE_INTERVAL_HOURS: u64 = 6;

/// How semver ranks two version strings: `None` when either does not parse.
pub uninterp spec fn version_order(lhs: Seq<char>, rhs: Seq<char>) -> Option<Ordering>;

/// Relies on `semver::Version::parse` and semver's `Ord` on `Version`:
/// precedence of two versions, `None` when either does not parse.
#[verifier::external_body]
pub(crate) fn compare_versions(lhs: &str, rhs: &str) -> (r: Option<Ordering>)
    ensures
        r == version_order(lhs@, rhs@),
{
    let left = semver::Version::parse(lhs).ok()?;
    let right = semver::Version::parse(rhs).ok()?;
    Some(left.cmp(&right))
}

#[derive(Debug, Clone, Copy, PartialEq, Eq, Structural)]
pub enum UpdateMode {
    CheckOnly,
    Install { force: bool },
}

impl UpdateMode {
    pub fn is_check_only(&self) -> (r: bool)
        ensures
            r == (*self is CheckOnly),
    {
        match self {
            UpdateMode::CheckOnly => true,
            UpdateMode::Install { .. } => false,
        }
    }

    pub fn force(&self) -> (r: bool)
        ensures
            r == (*self == UpdateMode::Install { force: true }),
    {
        match self {
            UpdateMode::CheckOnly => false,
            UpdateMode::Install { force } => *force,
        }
    }
}

/// Options of a manual update run.
#[derive(Debug, Clone, Default)]
pub struct UpdateOptions {
    pub channel: Option<String>,
    pub check_only: bool,
    pub force: bool,
    pub enable_auto_update: bool,
    pub disable_auto_update: bool,
}

impl UpdateOptions {
    /// The mode a manual run (that does not toggle auto-update) works in.
    pub fn mode(&self) -> (r: UpdateMode)
        ensures
            r == if self.check_only { UpdateMode::CheckOnly } else { UpdateMode::Install { force: self.force } },
    {
        if self.check_only {
            UpdateMode::CheckOnly
        } else {
            UpdateMode::Install { force: self.force }
        }
    }
}

#[derive(Debug, Clone)]
pub struct UpdateReport {
    pub current_version: String,
    pub remote_version: Option<String>,
    pub message: String,
}

fn concat3(a: &str, b: &str, c: &str) -> (r: String)
    ensures
        r@ == a@ + b@ + c@,
{
    let mut s = String::from_str(a);
    s.append(b);
    s.append(c);
    s
}

impl UpdateReport {
    pub fn unsupported(current: String) -> (r: Self)
        ensures
            r.current_version == current,
            r.remote_version.is_none(),
            r.message@ == "Auto-update not available on this platform"@,
    {
        UpdateReport {
            current_version: current,
            remote_version: None,
            message: String::from_str("Auto-update not available on this platform"),
        }
    }

    pub fn disabled(current: String, remote: String) -> (r: Self)
        ensures
            r.current_version == current,
            r.remote_version == Some(remote),
            r.message@ == "Auto-update disabled. Enable it to install new versions."@,
    {
        UpdateReport {
            current_version: current,
            remote_version: Some(remote),
            message: String::from_str("Auto-update disabled. Enable it to install new versions."),
        }
    }

    pub fn up_to_date(current: String, remote: String) -> (r: Self)
        ensures
            r.current_version == current,
            r.remote_version == Some(remote),
            r.message@ == "Already on latest version ("@ + remote@ + ")."@,
    {
        let message = concat3("Already on latest version (", remote.as_str(), ").");
        UpdateReport { current_version: current, remote_version: Some(remote), message }
    }

    pub fn checked(current: String, remote: String, needs_update: bool) -> (r: Self)
        ensures
            r.current_version == current,
            r.remote_version == Some(remote),
            r.message@ == if needs_update {
                "Update available: "@ + current@ + " \u{2192} "@ + remote@
            } else {
                "Already on latest version ("@ + remote@ + ")"@
            },
    {
        let message = if needs_update {
            let mut m = concat3("Update available: ", current.as_str(), " \u{2192} ");
            m.append(remote.as_str());
            m
        } else {
            concat3("Already on latest version (", remote.as_str(), ")")
        };
        UpdateReport { current_version: current, remote_version: Some(remote), message }
    }

    pub fn installed(current: String, remote: String) -> (r: Self)
        ensures
            r.current_version == current,
            r.remote_version == Some(remote),
            r.message@ == "Update installed. Restart required to run "@ + remote@ + "."@,
    {
        let message = concat3("Update installed. Restart required to run ", remote.as_str(), ".");
        UpdateReport { current_version: current, remote_version: Some(remote), message }
    }

    /// The report of a request to switch auto-update on (`requested`) or
    /// off, given the setting that resulted.
    pub fn auto_update_changed(current: String, requested: bool, actual: bool) -> (r: Self)
        ensures
            r.current_version == current,
            r.remote_version.is_none(),
            r.message@ == if requested == actual {
                if actual { "Auto-update enabled"@ } else { "Auto-update disabled"@ }
            } else {
                "Auto-update state unchanged"@
            },
    {
        let message = if requested == actual {
            if actual {
                String::from_str("Auto-update enabled")
            } else {
                String::from_str("Auto-update disabled")
            }
        } else {
            String::from_str("Auto-update state unchanged")
        };
        UpdateReport { current_version: current, remote_version: None, message }
    }
}

/// Persisted update state.
#[derive(Debug, Clone)]
pub struct UpdateState {
    pub current_version: Option<String>,
    pub channel: String,
    pub last_check_epoch: Option<u64>,
    pub last_error: Option<String>,
    pub auto_update: bool,
    pub last_downloaded_version: Option<String>,
    pub last_known_remote: Option<String>,
    pub pending_restart: bool,
}

impl Default for UpdateState {
    fn default() -> (r: Self)
        ensures
            r.current_version.is_none(),
            r.channel@ == DEFAULT_CHANNEL@,
            r.last_check_epoch.is_none(),
            r.last_error.is_none(),
            r.auto_update,
            r.last_downloaded_version.is_none(),
            r.last_known_remote.is_none(),
            !r.pending_restart,
    {
        UpdateState {
            current_version: None,
            channel: String::from_str(DEFAULT_CHANNEL),
            last_check_epoch: None,
            last_error: None,
            auto_update: true,
            last_downloaded_version: None,
            last_known_remote: None,
            pending_restart: false,
        }
    }
}

impl UpdateState {
    /// Brings the state in line with the version actually running: a
    /// pending restart is over once the running version is at least the
    /// downloaded one (or nothing was downloaded); an unknown current
    /// version becomes the running one.
    pub fn reconcile_with_running(&mut self, running_version: &str)
        ensures
            final(self).channel == old(self).channel,
            final(self).last_check_epoch == old(self).last_check_epoch,
            final(self).last_error == old(self).last_error,
            final(self).auto_update == old(self).auto_update,
            final(self).last_downloaded_version == old(self).last_downloaded_version,
            final(self).last_known_remote == old(self).last_known_remote,
            old(self).pending_restart ==> match old(self).last_downloaded_version {
                Some(d) => {
                    let caught_up = match version_order(running_version@, d@) {
                        Some(o) => o != Ordering::Less,
                        None => false,
                    };
                    if caught_up {
                        !final(self).pending_restart && final(self).current_version.is_some()
                            && final(self).current_version->0@ == running_version@
                    } else {
                        final(self).pending_restart && final(self).current_version == old(self).current_version
                    }
                },
                None => !final(self).pending_restart && final(self).current_version == old(self).current_version,
            },
            !old(self).pending_restart ==> !final(self).pending_restart && if old(self).current_version.is_none() {
                final(self).current_version.is_some() && final(self).current_version->0@ == running_version@
            } else {
                final(self).current_version == old(self).current_version
            },
    {
        if self.pending_restart {
            let caught_up = match &self.last_downloaded_version {
                Some(d) => match compare_versions(running_version, d.as_str()) {
                    Some(o) => match o {
                        Ordering::Less => false,
                        _ => true,
                    },
                    None => false,
                },
                None => true,
            };
            if caught_up {
                self.pending_restart = false;
                if self.last_downloaded_version.is_some() {
                    self.current_version = Some(String::from_str(running_version));
                }
            }
        } else if self.current_version.is_none() {
            self.current_version = Some(String::from_str(running_version));
        }
    }
}

/// Whether an update is wanted: a newer remote always, an equal or older
/// one only when forced, incomparable versions never.
pub open spec fn wants_update(order: Option<Ordering>, mode: UpdateMode) -> bool {
    match order {
        Some(Ordering::Greater) => true,
        Some(_) => mode == UpdateMode::Install { force: true },
        None => false,
    }
}

pub fn needs_update(order: Option<Ordering>, mode: UpdateMode) -> (r: bool)
    ensures
        r == wants_update(order, mode),
{
    match order {
        Some(Ordering::Greater) => true,
        Some(_) => mode.force(),
        None => false,
    }
}

/// What a check ends in once the remote version is known.
#[derive(Debug, Clone, Copy, PartialEq, Eq, Structural)]
pub enum UpdateStep {
    /// Report whether an update is available (check-only mode).
    ReportChecked,
    /// Nothing to install.
    ReportUpToDate,
    /// An update would be installed but auto-update is off.
    ReportDisabled,
    /// Download and install the remote version.
    Install,
}

/// The step after a check: check-only runs report; otherwise nothing is
/// installed unless wanted or forced, and only while auto-update is allowed
/// (switched off neither by the environment nor, unless forced, by the
/// stored setting).
pub fn update_step(mode: UpdateMode, needs: bool, env_disabled: bool, auto_update: bool) -> (r: UpdateStep)
    ensures
        r == if mode is CheckOnly {
            UpdateStep::ReportChecked
        } else if !needs && !(mode == UpdateMode::Install { force: true }) {
            UpdateStep::ReportUpToDate
        } else if env_disabled || (!auto_update && !(mode == UpdateMode::Install { force: true })) {
            UpdateStep::ReportDisabled
        } else {
            UpdateStep::Install
        },
{
    if mode.is_check_only() {
        UpdateStep::ReportChecked
    } else if !needs && !mode.force() {
        UpdateStep::ReportUpToDate
    } else if env_disabled || (!auto_update && !mode.force()) {
        UpdateStep::ReportDisabled
    } else {
        UpdateStep::Install
    }
}

/// Whether the auto-update switch in the environment reads as "disabled":
/// `1` or `true` in any ASCII case.
pub fn disables_auto_update(value: &str) -> (r: bool)
    ensures
        r == (value@ == "1"@ || crate::text::eq_ignore_ascii_case_seq(value@, "true"@)),
{
    crate::text::str_eq(value, "1") || crate::text::eq_ignore_ascii_case(value, "true")
}

} // verus!
