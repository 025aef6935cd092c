//! The desktop families the shell runs on, and what each of them offers.

use vstd::prelude::*;

verus! {

/// The desktop family of the running process.
#[derive(Clone, Copy, Debug, PartialEq, Eq, Structural)]
pub enum Platform {
    Windows,
    MacOs,
    Other,
}

impl Platform {
    /// Whether windows can be given a native drop shadow, which also rounds
    /// their corners.
    pub open spec fn has_shadow(self) -> bool {
        self is Windows || self is MacOs
    }

    /// Whether the compositor can draw a translucent backdrop material, and
    /// the version store that tells when it may be used exists.
    pub open spec fn has_backdrop(self) -> bool {
        self is Windows
    }

    /// Whether the border colour of a window is a settable attribute.
    pub open spec fn has_border_color(self) -> bool {
        self is Windows
    }

    /// Whether the user's accent colour can be asked for.
    pub open spec fn has_accent_query(self) -> bool {
        self is Windows
    }
}

} // verus!
