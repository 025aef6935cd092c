//! A request to open a window, and the window that is created for it.

use vstd::prelude::*;
use vstd::string::StringExecFns;

verus! {

/// The width of a window whose request names none: 1000 logical pixels.
///
/// Lengths are carried as the bit pattern of their double-precision value,
/// so that any length the host can express passes through unchanged.
pub const DEFAULT_WIDTH_BITS: u64 = 0x408F_4000_0000_0000;

/// The height of a window whose request names none: 700 logical pixels, as
/// a bit pattern like the width.
pub const DEFAULT_HEIGHT_BITS: u64 = 0x4085_E000_0000_0000;

/// What the front end asks for when it opens a window.
#[derive(Debug, PartialEq, Eq)]
pub struct WindowOpenRequest {
    /// The key of the window: no two windows share a label.
    pub label: String,
    pub title: String,
    /// The page that the window shows, as a path inside the application.
    pub location: String,
    /// The inner width, as the bit pattern of a double.
    pub width: Option<u64>,
    /// The inner height, as the bit pattern of a double.
    pub height: Option<u64>,
}

/// Everything the host needs to create a window.
#[derive(Debug, PartialEq, Eq)]
pub struct WindowConfig {
    pub label: String,
    pub title: String,
    pub location: String,
    pub width: u64,
    pub height: u64,
    pub decorations: bool,
    pub transparent: bool,
    pub resizable: bool,
    pub fullscreen: bool,
    pub focused: bool,
}

/// The length to use for a window side: the requested one, or the default.
pub open spec fn side_or(requested: Option<u64>, default_bits: u64) -> u64 {
    match requested {
        Some(bits) => bits,
        None => default_bits,
    }
}

/// The window created for `request`: decorated, transparent, resizable, not
/// fullscreen, focused, with the requested title and page, and with the
/// requested size or 1000 by 700 where none is given.
pub open spec fn config_for(request: WindowOpenRequest) -> WindowConfig {
    WindowConfig {
        label: request.label,
        title: request.title,
        location: request.location,
        width: side_or(request.width, DEFAULT_WIDTH_BITS),
        height: side_or(request.height, DEFAULT_HEIGHT_BITS),
        decorations: true,
        transparent: true,
        resizable: true,
        fullscreen: false,
        focused: true,
    }
}

/// Settles how the window for `request` is created.
pub fn window_config(request: WindowOpenRequest) -> (config: WindowConfig)
    ensures
        config == config_for(request),
{
    let width = match request.width {
        Some(bits) => bits,
        None => DEFAULT_WIDTH_BITS,
    };
    let height = match request.height {
        Some(bits) => bits,
        None => DEFAULT_HEIGHT_BITS,
    };
    WindowConfig {
        label: request.label,
        title: request.title,
        location: request.location,
        width,
        height,
        decorations: true,
        transparent: true,
        resizable: true,
        fullscreen: false,
        focused: true,
    }
}

/// A request that names no size gives a window of the default width and
/// height, whatever else it asks for.
pub proof fn lemma_default_size(request: WindowOpenRequest)
    requires
        request.width is None,
        request.height is None,
    ensures
        config_for(request).width == DEFAULT_WIDTH_BITS,
        config_for(request).height == DEFAULT_HEIGHT_BITS,
{
}

/// The script that tells a new window its own label, so that the page in it
/// can find the window again. The label is put between the quotes as it is.
pub open spec fn name_script(label: Seq<char>) -> Seq<char> {
    "window.name = '"@ + label + "';"@
}

/// Writes the script that names a new window after its label.
pub fn window_name_script(label: &str) -> (script: String)
    ensures
        script@ == name_script(label@),
{
    let mut script = String::from_str("window.name = '");
    script.append(label);
    script.append("';");
    script
}

} // verus!
