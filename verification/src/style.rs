//! The cosmetic treatment a window receives right after it was created.

use vstd::prelude::*;
use crate::command::{surfaced, vital, OnFailure, Step, WindowCommand};
use crate::decimal::{parse_u32, parsed_u32};
use crate::platform::Platform;

verus! {

/// The backdrop material is applied only on builds above this one.
pub const BACKDROP_BUILD_FLOOR: u32 = 22000;

/// The version text under which the backdrop material is applied.
pub open spec fn backdrop_version() -> Seq<char> {
    seq!['6', '.', '3']
}

/// How the styling of a window ends once its steps have run.
#[derive(Clone, Copy, Debug, PartialEq, Eq, Structural)]
pub enum StyleOutcome {
    /// Nothing more to report.
    Completed,
    /// The version store could not be read; the read error goes to the
    /// caller.
    VersionUnreadable,
    /// The build number is not a number; the operation is abandoned.
    BuildNumberMalformed,
}

/// The steps that style a window, in order, and how the styling ends.
#[derive(Debug, PartialEq, Eq)]
pub struct StylePlan {
    pub steps: Vec<Step>,
    pub outcome: StyleOutcome,
}

/// The shadow step, where the platform has one.
pub open spec fn shadow_steps(platform: Platform) -> Seq<Step> {
    if platform.has_shadow() {
        seq![vital(WindowCommand::SetShadow)]
    } else {
        Seq::empty()
    }
}

/// The backdrop material; then the window is minimised and restored, and
/// maximised and restored, because the compositor paints the material only
/// after such a cycle; then focus goes back to the window. A failure to
/// focus is for the caller to judge, any other abandons the styling.
pub open spec fn backdrop_steps() -> Seq<Step> {
    seq![
        vital(WindowCommand::ApplyBackdrop),
        vital(WindowCommand::Minimize),
        vital(WindowCommand::Unminimize),
        vital(WindowCommand::Maximize),
        vital(WindowCommand::Unmaximize),
        surfaced(WindowCommand::SetFocus),
    ]
}

/// The build number that the version store holds, where it holds one that
/// reads as a number.
pub open spec fn build_number_of(build_number: Option<Seq<char>>) -> Option<u32> {
    match build_number {
        Some(text) => parsed_u32(text),
        None => None,
    }
}

/// Whether the version store shows a system that draws the backdrop
/// material: both values readable, a build above the floor, and the
/// expected version text.
pub open spec fn backdrop_due(
    build_number: Option<Seq<char>>,
    current_version: Option<Seq<char>>,
) -> bool {
    &&& build_number_of(build_number) matches Some(build)
    &&& build > BACKDROP_BUILD_FLOOR
    &&& current_version == Some(backdrop_version())
}

/// The steps of the initial style.
pub open spec fn style_steps(
    platform: Platform,
    build_number: Option<Seq<char>>,
    current_version: Option<Seq<char>>,
) -> Seq<Step> {
    if platform.has_backdrop() && backdrop_due(build_number, current_version) {
        shadow_steps(platform) + backdrop_steps()
    } else {
        shadow_steps(platform)
    }
}

/// How the initial style ends. The build number is read and parsed before
/// the version text is read.
pub open spec fn style_outcome(
    platform: Platform,
    build_number: Option<Seq<char>>,
    current_version: Option<Seq<char>>,
) -> StyleOutcome {
    if !platform.has_backdrop() {
        StyleOutcome::Completed
    } else if build_number is None {
        StyleOutcome::VersionUnreadable
    } else if build_number_of(build_number) is None {
        StyleOutcome::BuildNumberMalformed
    } else if current_version is None {
        StyleOutcome::VersionUnreadable
    } else {
        StyleOutcome::Completed
    }
}

/// Whether `text` is the version text under which the backdrop is applied.
fn is_backdrop_version(text: &str) -> (yes: bool)
    ensures
        yes == (text@ == backdrop_version()),
{
    if text.unicode_len() != 3 {
        return false;
    }
    let yes = text.get_char(0) == '6' && text.get_char(1) == '.' && text.get_char(2) == '3';
    assert(yes == (text@ =~= backdrop_version()));
    yes
}

/// Plans the initial style of a window that exists.
///
/// `build_number` and `current_version` are the two values of the system's
/// version store, each `None` when it could not be read. They are looked at
/// only where the platform has a backdrop material.
pub fn apply_initial_style(
    platform: Platform,
    build_number: Option<&str>,
    current_version: Option<&str>,
) -> (plan: StylePlan)
    ensures
        plan.steps@ == style_steps(
            platform,
            build_number.deep_view(),
            current_version.deep_view(),
        ),
        plan.outcome == style_outcome(
            platform,
            build_number.deep_view(),
            current_version.deep_view(),
        ),
{
    let mut steps: Vec<Step> = Vec::new();
    match platform {
        Platform::Windows | Platform::MacOs => {
            steps.push(Step { command: WindowCommand::SetShadow, on_failure: OnFailure::Abort });
        },
        Platform::Other => {},
    }
    assert(steps@ =~= shadow_steps(platform));
    match platform {
        Platform::Windows => {},
        _ => {
            return StylePlan { steps, outcome: StyleOutcome::Completed };
        },
    }
    let build_text = match build_number {
        Some(text) => text,
        None => {
            return StylePlan { steps, outcome: StyleOutcome::VersionUnreadable };
        },
    };
    let build = match parse_u32(build_text) {
        Some(build) => build,
        None => {
            return StylePlan { steps, outcome: StyleOutcome::BuildNumberMalformed };
        },
    };
    let version_text = match current_version {
        Some(text) => text,
        None => {
            return StylePlan { steps, outcome: StyleOutcome::VersionUnreadable };
        },
    };
    if build > BACKDROP_BUILD_FLOOR && is_backdrop_version(version_text) {
        steps.push(Step { command: WindowCommand::ApplyBackdrop, on_failure: OnFailure::Abort });
        steps.push(Step { command: WindowCommand::Minimize, on_failure: OnFailure::Abort });
        steps.push(Step { command: WindowCommand::Unminimize, on_failure: OnFailure::Abort });
        steps.push(Step { command: WindowCommand::Maximize, on_failure: OnFailure::Abort });
        steps.push(Step { command: WindowCommand::Unmaximize, on_failure: OnFailure::Abort });
        steps.push(Step { command: WindowCommand::SetFocus, on_failure: OnFailure::Surface });
        assert(steps@ =~= shadow_steps(platform) + backdrop_steps());
    }
    StylePlan { steps, outcome: StyleOutcome::Completed }
}

/// At or below the build floor the backdrop material is never applied:
/// the window gets its shadow, where the platform has one, and nothing
/// else.
pub proof fn lemma_no_backdrop_up_to_floor(
    platform: Platform,
    build_number: Option<Seq<char>>,
    current_version: Option<Seq<char>>,
)
    requires
        build_number_of(build_number) matches Some(build) && build <= BACKDROP_BUILD_FLOOR,
    ensures
        style_steps(platform, build_number, current_version) == shadow_steps(platform),
        forall|i: int|
            0 <= i < style_steps(platform, build_number, current_version).len()
                ==> (#[trigger] style_steps(platform, build_number, current_version)[i]).command
                != WindowCommand::ApplyBackdrop,
{
}

/// The backdrop material is applied on no platform but the one that has
/// it, and there only when the version store could be read in full.
pub proof fn lemma_backdrop_needs_platform_and_version(
    platform: Platform,
    build_number: Option<Seq<char>>,
    current_version: Option<Seq<char>>,
)
    requires
        !platform.has_backdrop() || style_outcome(platform, build_number, current_version)
            != StyleOutcome::Completed,
    ensures
        style_steps(platform, build_number, current_version) == shadow_steps(platform),
{
}

} // verus!
