//! Desktop-environment checks used to pick the overlay's windowing path on
//! Linux. The caller snapshots the relevant environment variables at its
//! edge and hands them in as plain values; the decisions on them are
//! verified here.

use crate::strutil::{seq_contains_ignore_ascii_case, seq_eq_ignore_ascii_case, str_contains_ignore_ascii_case, str_eq_ignore_ascii_case};
use vstd::prelude::*;

verus! {

/// A snapshot of the environment variables that describe the running
/// desktop session, taken by the caller when the check is made.
pub struct DesktopSession {
    /// Whether `WAYLAND_DISPLAY` is set.
    pub wayland_display_set: bool,
    /// The value of `XDG_SESSION_TYPE`, if set.
    pub session_type: Option<String>,
    /// The value of `XDG_CURRENT_DESKTOP`, if set.
    pub current_desktop: Option<String>,
    /// Whether `KDE_SESSION_VERSION` is set.
    pub kde_session_version_set: bool,
}

/// The session uses the Wayland display server protocol: either
/// `WAYLAND_DISPLAY` is set, or `XDG_SESSION_TYPE` names wayland.
pub open spec fn spec_is_wayland(s: DesktopSession) -> bool {
    s.wayland_display_set || (s.session_type matches Some(t) && seq_eq_ignore_ascii_case(
        t@,
        "wayland"@,
    ))
}

/// The session runs the KDE Plasma desktop: either `XDG_CURRENT_DESKTOP`
/// mentions KDE, or `KDE_SESSION_VERSION` is set.
pub open spec fn spec_is_kde_plasma(s: DesktopSession) -> bool {
    (s.current_desktop matches Some(d) && seq_contains_ignore_ascii_case(d@, "KDE"@))
        || s.kde_session_version_set
}

/// Check if the session uses the Wayland display server protocol.
pub fn is_wayland(session: &DesktopSession) -> (r: bool)
    ensures
        r == spec_is_wayland(*session),
{
    if session.wayland_display_set {
        return true;
    }
    match &session.session_type {
        Some(t) => str_eq_ignore_ascii_case(t.as_str(), "wayland"),
        None => false,
    }
}

/// Check if the session runs the KDE Plasma desktop environment.
pub fn is_kde_plasma(session: &DesktopSession) -> (r: bool)
    ensures
        r == spec_is_kde_plasma(*session),
{
    let on_kde_desktop: bool = match &session.current_desktop {
        Some(d) => str_contains_ignore_ascii_case(d.as_str(), "KDE"),
        None => false,
    };
    on_kde_desktop || session.kde_session_version_set
}

/// Check if the session is KDE Plasma running on Wayland, where the
/// overlay's layer-shell initialization is known to be unstable and a
/// regular always-on-top window is used instead.
pub fn is_kde_wayland(session: &DesktopSession) -> (r: bool)
    ensures
        r == (spec_is_wayland(*session) && spec_is_kde_plasma(*session)),
{
    is_wayland(session) && is_kde_plasma(session)
}

} // verus!
