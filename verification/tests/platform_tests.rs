use handy_core::platform::{is_kde_plasma, is_kde_wayland, is_wayland, DesktopSession};
use handy_core::strutil::{str_contains_ignore_ascii_case, str_eq, str_eq_ignore_ascii_case};

fn session(
    wayland_display_set: bool,
    session_type: Option<&str>,
    current_desktop: Option<&str>,
    kde_session_version_set: bool,
) -> DesktopSession {
    DesktopSession {
        wayland_display_set,
        session_type: session_type.map(|s| s.to_string()),
        current_desktop: current_desktop.map(|s| s.to_string()),
        kde_session_version_set,
    }
}

#[test]
fn wayland_detection() {
    assert!(is_wayland(&session(true, None, None, false)));
    assert!(is_wayland(&session(false, Some("wayland"), None, false)));
    // The session type comparison ignores ASCII case.
    assert!(is_wayland(&session(false, Some("Wayland"), None, false)));
    assert!(!is_wayland(&session(false, Some("x11"), None, false)));
    assert!(!is_wayland(&session(false, None, None, false)));
}

#[test]
fn kde_detection() {
    assert!(is_kde_plasma(&session(false, None, Some("KDE"), false)));
    // The desktop may list several names; KDE anywhere in it counts, in any
    // case.
    assert!(is_kde_plasma(&session(false, None, Some("plasma:kde"), false)));
    assert!(!is_kde_plasma(&session(false, None, Some("ubuntu:GNOME"), false)));
    assert!(is_kde_plasma(&session(false, None, None, true)));
    assert!(!is_kde_plasma(&session(false, None, None, false)));
}

#[test]
fn kde_wayland_needs_both() {
    assert!(is_kde_wayland(&session(true, None, Some("KDE"), false)));
    assert!(!is_kde_wayland(&session(true, None, None, false)));
    assert!(!is_kde_wayland(&session(false, Some("x11"), Some("KDE"), false)));
}

#[test]
fn string_equality_helpers() {
    assert!(str_eq("abc", "abc"));
    assert!(!str_eq("abc", "abd"));
    assert!(!str_eq("abc", "abcd"));
    assert!(str_eq("", ""));

    assert!(str_eq_ignore_ascii_case("WayLand", "wayland"));
    assert!(!str_eq_ignore_ascii_case("wayland", "waylan"));
    // Only ASCII letters fold; other characters must match exactly.
    assert!(str_eq_ignore_ascii_case("a-B", "A-b"));
    assert!(!str_eq_ignore_ascii_case("a_b", "a-b"));
}

#[test]
fn substring_search_helper() {
    assert!(str_contains_ignore_ascii_case("XKdEy", "kde"));
    assert!(str_contains_ignore_ascii_case("kde", "KDE"));
    assert!(!str_contains_ignore_ascii_case("kd", "kde"));
    assert!(!str_contains_ignore_ascii_case("gnome", "kde"));
    // The empty needle occurs everywhere.
    assert!(str_contains_ignore_ascii_case("", ""));
    assert!(str_contains_ignore_ascii_case("abc", ""));
}
