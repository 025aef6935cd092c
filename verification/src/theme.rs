//! Light and dark appearance.

use vstd::prelude::*;

verus! {

/// The appearance a window is drawn in.
#[derive(Clone, Copy, Debug, PartialEq, Eq, Structural)]
pub enum Theme {
    Light,
    Dark,
}

/// The theme to use given what the host reported for a window: the reported
/// theme, or `Light` when the host could not tell.
pub open spec fn theme_or_light(reported: Option<Theme>) -> Theme {
    match reported {
        Some(theme) => theme,
        None => Theme::Light,
    }
}

/// Settles the theme of a window from the host's answer, falling back to
/// `Light` when there is none.
pub fn get_theme(reported: Option<Theme>) -> (theme: Theme)
    ensures
        theme == theme_or_light(reported),
{
    match reported {
        Some(theme) => theme,
        None => Theme::Light,
    }
}

} // verus!
