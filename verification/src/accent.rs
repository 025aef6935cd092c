//! The accent colour that the front end paints with, as a CSS colour.

use vstd::prelude::*;
use vstd::string::StringExecFns;
use crate::decimal::{decimal, push_decimal};
use crate::platform::Platform;
use crate::theme::Theme;

verus! {

/// A colour by its red, green and blue parts.
#[derive(Clone, Copy, Debug, PartialEq, Eq, Structural)]
pub struct Rgb {
    pub r: u8,
    pub g: u8,
    pub b: u8,
}

/// The shades of the user's accent colour that the shell asks the system
/// for.
#[derive(Clone, Copy, Debug, PartialEq, Eq, Structural)]
pub enum AccentShade {
    /// The accent colour itself.
    Accent,
    /// The second lighter shade, which reads well on dark surfaces.
    AccentLight2,
}

/// The accent colour used where the system gives none.
pub open spec fn default_accent(theme: Theme) -> Rgb {
    match theme {
        Theme::Dark => Rgb { r: 181, g: 173, b: 235 },
        Theme::Light => Rgb { r: 84, g: 56, b: 185 },
    }
}

/// The shade that goes with a theme.
pub open spec fn shade_for(theme: Theme) -> AccentShade {
    match theme {
        Theme::Dark => AccentShade::AccentLight2,
        Theme::Light => AccentShade::Accent,
    }
}

/// The shade to ask the system for, or `None` where the platform cannot be
/// asked.
pub open spec fn accent_query(platform: Platform, theme: Theme) -> Option<AccentShade> {
    if platform.has_accent_query() {
        Some(shade_for(theme))
    } else {
        None
    }
}

/// The accent colour of a window: the system's answer where the platform
/// can be asked and did answer, the default of the theme otherwise.
pub open spec fn accent_of(platform: Platform, theme: Theme, answer: Option<Rgb>) -> Rgb {
    match answer {
        Some(color) if platform.has_accent_query() => color,
        _ => default_accent(theme),
    }
}

/// The text `rgb(r,g,b)` with each part as a decimal numeral.
pub open spec fn rgb_parts_text(r: nat, g: nat, b: nat) -> Seq<char> {
    "rgb("@ + decimal(r) + ","@ + decimal(g) + ","@ + decimal(b) + ")"@
}

/// The CSS text of a colour.
pub open spec fn rgb_text(color: Rgb) -> Seq<char> {
    rgb_parts_text(color.r as nat, color.g as nat, color.b as nat)
}

/// Whether `text` is `rgb(r,g,b)` for some parts from 0 to 255.
pub open spec fn is_rgb_text(text: Seq<char>) -> bool {
    exists|r: nat, g: nat, b: nat|
        r <= 255 && g <= 255 && b <= 255 && text == #[trigger] rgb_parts_text(r, g, b)
}

impl Rgb {
    /// Writes the colour as CSS text.
    pub fn to_css(&self) -> (text: String)
        ensures
            text@ == rgb_text(*self),
    {
        let mut text = String::from_str("rgb(");
        push_decimal(&mut text, self.r);
        text.append(",");
        push_decimal(&mut text, self.g);
        text.append(",");
        push_decimal(&mut text, self.b);
        text.append(")");
        text
    }
}

/// Decides which accent shade to ask the system for, if any.
pub fn accent_query_for(platform: Platform, theme: Theme) -> (shade: Option<AccentShade>)
    ensures
        shade == accent_query(platform, theme),
{
    match platform {
        Platform::Windows => match theme {
            Theme::Dark => Some(AccentShade::AccentLight2),
            Theme::Light => Some(AccentShade::Accent),
        },
        _ => None,
    }
}

/// Gives the accent colour of a window as CSS text.
///
/// `answer` is what the system said to the query of `accent_query_for`,
/// `None` where it failed or was not made.
pub fn get_accent_color(platform: Platform, theme: Theme, answer: Option<Rgb>) -> (text: String)
    ensures
        text@ == rgb_text(accent_of(platform, theme, answer)),
        is_rgb_text(text@),
{
    let fallback = match theme {
        Theme::Dark => Rgb { r: 181, g: 173, b: 235 },
        Theme::Light => Rgb { r: 84, g: 56, b: 185 },
    };
    let color = match platform {
        Platform::Windows => match answer {
            Some(color) => color,
            None => fallback,
        },
        _ => fallback,
    };
    let text = color.to_css();
    proof {
        lemma_rgb_text_well_formed(color);
    }
    text
}

/// The text of every colour is well formed.
pub proof fn lemma_rgb_text_well_formed(color: Rgb)
    ensures
        is_rgb_text(rgb_text(color)),
{
    assert(rgb_text(color) == rgb_parts_text(color.r as nat, color.g as nat, color.b as nat));
}

} // verus!
