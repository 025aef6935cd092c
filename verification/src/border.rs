//! The colour of a window's border.
//!
//! The border follows the user's accent colour where the user asked for
//! that and the window is active, and is a neutral gray of the theme
//! otherwise.

use vstd::prelude::*;
use crate::command::{logged, OnFailure, Step, WindowCommand};
use crate::platform::Platform;
use crate::theme::{get_theme, theme_or_light, Theme};

verus! {

/// The alpha byte of a fully opaque colour, in place.
pub const OPAQUE_ALPHA: u32 = 0xff00_0000;

/// The accent colour taken where the user's preferences hold none.
pub const FALLBACK_ACCENT: u32 = 0xffb9_3854;

/// The neutral border of the dark theme, without alpha.
pub const NEUTRAL_DARK: u32 = 0x0038_3838;

/// The neutral border of the light theme, without alpha.
pub const NEUTRAL_LIGHT: u32 = 0x00b5_b5b5;

/// The stored value that switches colour prevalence on.
pub const PREVALENCE_ON: u32 = 1;

/// What the user's preferences hold about window colours, each value
/// `None` where the store has none that can be read.
#[derive(Clone, Copy, Debug, PartialEq, Eq)]
pub struct DwmPreferences {
    /// Whether the accent colour is shown on borders and title bars.
    pub color_prevalence: Option<u32>,
    /// The accent colour, alpha byte first.
    pub accent_color: Option<u32>,
}

/// The accent colour that the preferences give.
pub open spec fn accent_or_fallback(stored: Option<u32>) -> u32 {
    match stored {
        Some(color) => color,
        None => FALLBACK_ACCENT,
    }
}

/// Whether the border of a window shows the accent colour: prevalence is
/// switched on and the window is active. A missing value counts as off.
pub open spec fn accent_prevails(color_prevalence: Option<u32>, active: bool) -> bool {
    color_prevalence == Some(PREVALENCE_ON) && active
}

/// The neutral border of a theme, opaque where transparency is asked for
/// and without alpha otherwise.
pub open spec fn neutral_border(transparent: bool, theme: Theme) -> u32 {
    match (transparent, theme) {
        (true, Theme::Dark) => 0xff38_3838,
        (true, Theme::Light) => 0xffb5_b5b5,
        (false, Theme::Dark) => NEUTRAL_DARK,
        (false, Theme::Light) => NEUTRAL_LIGHT,
    }
}

/// The border colour as a number. Where the accent prevails it is the
/// accent colour as stored if transparency is asked for, and the accent
/// colour less the opaque alpha otherwise.
pub open spec fn border_color(
    preferences: DwmPreferences,
    active: bool,
    transparent: bool,
    theme: Theme,
) -> int {
    if accent_prevails(preferences.color_prevalence, active) {
        if transparent {
            accent_or_fallback(preferences.accent_color) as int
        } else {
            accent_or_fallback(preferences.accent_color) - OPAQUE_ALPHA
        }
    } else {
        neutral_border(transparent, theme) as int
    }
}

/// Whether the border colour is a colour: taking the opaque alpha off the
/// accent does not go below zero. It does for an accent colour whose alpha
/// byte is not fully opaque.
pub open spec fn border_color_defined(
    preferences: DwmPreferences,
    active: bool,
    transparent: bool,
) -> bool {
    accent_prevails(preferences.color_prevalence, active) && !transparent ==> accent_or_fallback(
        preferences.accent_color,
    ) >= OPAQUE_ALPHA
}

/// Gives the accent colour of the user's preferences, or the fallback
/// where they hold none.
pub fn get_window_accent_color(stored: Option<u32>) -> (color: u32)
    ensures
        color == accent_or_fallback(stored),
{
    match stored {
        Some(color) => color,
        None => FALLBACK_ACCENT,
    }
}

/// Computes the border colour of a window.
pub fn get_window_border_color(
    preferences: DwmPreferences,
    active: bool,
    transparent: bool,
    theme: Theme,
) -> (color: u32)
    requires
        border_color_defined(preferences, active, transparent),
    ensures
        color == border_color(preferences, active, transparent, theme),
{
    let prevails = match preferences.color_prevalence {
        Some(value) => value == PREVALENCE_ON && active,
        None => false,
    };
    if prevails {
        let accent = get_window_accent_color(preferences.accent_color);
        if transparent {
            accent
        } else {
            accent - OPAQUE_ALPHA
        }
    } else {
        match (transparent, theme) {
            (true, Theme::Dark) => 0xff38_3838,
            (true, Theme::Light) => 0xffb5_b5b5,
            (false, Theme::Dark) => NEUTRAL_DARK,
            (false, Theme::Light) => NEUTRAL_LIGHT,
        }
    }
}

/// Computes the border colour of a window where it is defined, and says so
/// where it is not.
pub fn checked_window_border_color(
    preferences: DwmPreferences,
    active: bool,
    transparent: bool,
    theme: Theme,
) -> (color: Option<u32>)
    ensures
        border_color_defined(preferences, active, transparent) ==> color == Some(
            border_color(preferences, active, transparent, theme) as u32,
        ),
        !border_color_defined(preferences, active, transparent) ==> color is None,
{
    let prevails = match preferences.color_prevalence {
        Some(value) => value == PREVALENCE_ON && active,
        None => false,
    };
    if prevails && !transparent && get_window_accent_color(preferences.accent_color)
        < OPAQUE_ALPHA {
        None
    } else {
        Some(get_window_border_color(preferences, active, transparent, theme))
    }
}

/// Why a border colour could not be set.
#[derive(Clone, Copy, Debug, PartialEq, Eq, Structural)]
pub enum BorderError {
    /// The accent colour is not fully opaque, so the border colour is not
    /// defined.
    AccentNotOpaque,
}

/// The step that colours the border of a window, where the platform has
/// such a step. The colour is the one without alpha; the border is
/// decoration only, so a failure to set it is logged and nothing more.
pub open spec fn border_step(
    platform: Platform,
    theme: Theme,
    preferences: DwmPreferences,
    active: bool,
) -> Option<Step> {
    if platform.has_border_color() {
        Some(
            logged(
                WindowCommand::SetBorderColor(
                    border_color(preferences, active, false, theme) as u32,
                ),
            ),
        )
    } else {
        None
    }
}

/// Decides how the border of a window is coloured when it becomes active
/// or inactive.
///
/// `reported_theme` is the host's answer for the window's theme, `None`
/// where it has none. Theme and preferences are looked at only where the
/// platform can colour borders.
pub fn set_window_color(
    platform: Platform,
    reported_theme: Option<Theme>,
    preferences: DwmPreferences,
    active: bool,
) -> (order: Result<Option<Step>, BorderError>)
    ensures
        !platform.has_border_color() ==> order == Ok::<Option<Step>, BorderError>(None),
        platform.has_border_color() && border_color_defined(preferences, active, false) ==> order
            == Ok::<Option<Step>, BorderError>(
            border_step(platform, theme_or_light(reported_theme), preferences, active),
        ),
        platform.has_border_color() && !border_color_defined(preferences, active, false) ==> order
            == Err::<Option<Step>, BorderError>(BorderError::AccentNotOpaque),
{
    match platform {
        Platform::Windows => {
            let theme = get_theme(reported_theme);
            match checked_window_border_color(preferences, active, false, theme) {
                Some(color) => Ok(
                    Some(
                        Step {
                            command: WindowCommand::SetBorderColor(color),
                            on_failure: OnFailure::Log,
                        },
                    ),
                ),
                None => Err(BorderError::AccentNotOpaque),
            }
        },
        _ => Ok(None),
    }
}

/// With colour prevalence off, the border is one of four constants, which
/// theme and transparency alone pick; whether the window is active and
/// what the accent colour is make no difference.
pub proof fn lemma_border_without_prevalence(
    preferences: DwmPreferences,
    active: bool,
    transparent: bool,
    theme: Theme,
)
    requires
        preferences.color_prevalence != Some(PREVALENCE_ON),
    ensures
        border_color_defined(preferences, active, transparent),
        border_color(preferences, active, transparent, theme) == neutral_border(transparent, theme),
        neutral_border(true, Theme::Dark) == 0xff38_3838,
        neutral_border(true, Theme::Light) == 0xffb5_b5b5,
        neutral_border(false, Theme::Dark) == 0x0038_3838,
        neutral_border(false, Theme::Light) == 0x00b5_b5b5,
{
}

/// An inactive window has the neutral border of its theme, whatever the
/// preferences say.
pub proof fn lemma_border_of_inactive_window(
    preferences: DwmPreferences,
    transparent: bool,
    theme: Theme,
)
    ensures
        border_color_defined(preferences, false, transparent),
        border_color(preferences, false, transparent, theme) == neutral_border(transparent, theme),
{
}

/// With colour prevalence on, an active window has the accent colour as
/// its border: as stored where transparency is asked for, and with the
/// alpha byte cleared otherwise, given an accent colour that is opaque.
pub proof fn lemma_border_with_prevalence(
    preferences: DwmPreferences,
    transparent: bool,
    theme: Theme,
)
    requires
        preferences.color_prevalence == Some(PREVALENCE_ON),
        border_color_defined(preferences, true, transparent),
    ensures
        transparent ==> border_color(preferences, true, transparent, theme) == accent_or_fallback(
            preferences.accent_color,
        ),
        !transparent ==> border_color(preferences, true, transparent, theme) == accent_or_fallback(
            preferences.accent_color,
        ) & 0x00ff_ffff,
{
    let accent = accent_or_fallback(preferences.accent_color);
    if !transparent {
        assert(accent >= 0xff00_0000u32 ==> accent - 0xff00_0000u32 == accent & 0x00ff_ffffu32)
            by (bit_vector);
    }
}

} // verus!
