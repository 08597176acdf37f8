//! Notification verbosity: which severities the user's setting lets through.
//!
//! Notifications are off by default for successes; apply *errors* surface
//! unless the user turned notifications off entirely.

use vstd::prelude::*;

use crate::text::str_eq;

verus! {

/// Notification verbosity, parsed from `general.notifications` in the config.
#[derive(Debug, Clone, Copy, PartialEq, Eq, Structural)]
pub enum Verbosity {
    Off,
    ErrorsOnly,
    All,
}

/// Severity of a desktop notification.
#[derive(Debug, Clone, Copy, PartialEq, Eq, Structural)]
pub enum Severity {
    Success,
    Error,
}

/// The verbosity a setting string selects: `"all"`, `"off"`, and anything
/// else (including `"errors"`, blank and unknown values) as errors-only.
pub open spec fn verbosity_of(s: Seq<char>) -> Verbosity {
    if s == "all"@ {
        Verbosity::All
    } else if s == "off"@ {
        Verbosity::Off
    } else {
        Verbosity::ErrorsOnly
    }
}

/// Whether a notification of `severity` may be shown under `verbosity`.
pub open spec fn allows(verbosity: Verbosity, severity: Severity) -> bool {
    match severity {
        Severity::Success => verbosity == Verbosity::All,
        Severity::Error => verbosity == Verbosity::All || verbosity == Verbosity::ErrorsOnly,
    }
}

impl Verbosity {
    /// Parse the `general.notifications` setting. Unknown values fall back to
    /// errors-only rather than silently swallowing apply failures.
    pub fn from_setting(s: &str) -> (v: Verbosity)
        ensures
            v == verbosity_of(s@),
    {
        if str_eq(s, "all") {
            Verbosity::All
        } else if str_eq(s, "off") {
            Verbosity::Off
        } else {
            Verbosity::ErrorsOnly
        }
    }

    /// Whether success notifications are shown.
    pub fn allows_success(self) -> (r: bool)
        ensures
            r == allows(self, Severity::Success),
    {
        matches!(self, Verbosity::All)
    }

    /// Whether error notifications are shown.
    pub fn allows_error(self) -> (r: bool)
        ensures
            r == allows(self, Severity::Error),
    {
        matches!(self, Verbosity::All | Verbosity::ErrorsOnly)
    }
}

/// Whether a desktop notification of `severity` goes out under
/// `verbosity`.
pub fn should_notify(severity: Severity, verbosity: Verbosity) -> (r: bool)
    ensures
        r == allows(verbosity, severity),
{
    match severity {
        Severity::Success => verbosity.allows_success(),
        Severity::Error => verbosity.allows_error(),
    }
}

/// Raising the verbosity never hides a notification that a lower one shows:
/// `Off` allows nothing, `ErrorsOnly` allows a subset of what `All` allows.
pub proof fn law_verbosity_monotone(severity: Severity)
    ensures
        !allows(Verbosity::Off, severity),
        allows(Verbosity::ErrorsOnly, severity) ==> allows(Verbosity::All, severity),
        allows(Verbosity::All, severity),
{
}

} // verus!
