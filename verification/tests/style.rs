use window_styler::command::{OnFailure, Step, WindowCommand};
use window_styler::platform::Platform;
use window_styler::style::{apply_initial_style, StyleOutcome, StylePlan, BACKDROP_BUILD_FLOOR};

fn vital(command: WindowCommand) -> Step {
    Step { command, on_failure: OnFailure::Abort }
}

fn shadow_only() -> Vec<Step> {
    vec![vital(WindowCommand::SetShadow)]
}

fn full_treatment() -> Vec<Step> {
    vec![
        vital(WindowCommand::SetShadow),
        vital(WindowCommand::ApplyBackdrop),
        vital(WindowCommand::Minimize),
        vital(WindowCommand::Unminimize),
        vital(WindowCommand::Maximize),
        vital(WindowCommand::Unmaximize),
        Step { command: WindowCommand::SetFocus, on_failure: OnFailure::Surface },
    ]
}

#[test]
fn build_floor_is_22000() {
    assert_eq!(BACKDROP_BUILD_FLOOR, 22000);
}

#[test]
fn backdrop_above_the_floor() {
    let plan = apply_initial_style(Platform::Windows, Some("22621"), Some("6.3"));
    assert_eq!(plan, StylePlan { steps: full_treatment(), outcome: StyleOutcome::Completed });
    let plan = apply_initial_style(Platform::Windows, Some("22001"), Some("6.3"));
    assert_eq!(plan.steps, full_treatment());
}

#[test]
fn no_backdrop_up_to_the_floor() {
    for build in ["0", "7601", "19045", "21999", "22000", "+22000", "022000"] {
        for version in [Some("6.3"), Some("6.1"), Some(""), None] {
            let plan = apply_initial_style(Platform::Windows, Some(build), version);
            assert_eq!(plan.steps, shadow_only(), "build {}", build);
            assert!(plan.steps.iter().all(|step| step.command != WindowCommand::ApplyBackdrop));
        }
    }
}

#[test]
fn no_backdrop_under_another_version() {
    for version in ["10.0", "6.2", "6.30", " 6.3", "6.3 ", "6,3", "", "63"] {
        let plan = apply_initial_style(Platform::Windows, Some("22621"), Some(version));
        assert_eq!(
            plan,
            StylePlan { steps: shadow_only(), outcome: StyleOutcome::Completed },
            "version {:?}",
            version
        );
    }
}

#[test]
fn unreadable_version_store_is_surfaced_after_the_shadow() {
    let plan = apply_initial_style(Platform::Windows, None, Some("6.3"));
    assert_eq!(plan, StylePlan { steps: shadow_only(), outcome: StyleOutcome::VersionUnreadable });
    let plan = apply_initial_style(Platform::Windows, None, None);
    assert_eq!(plan, StylePlan { steps: shadow_only(), outcome: StyleOutcome::VersionUnreadable });
    let plan = apply_initial_style(Platform::Windows, Some("22621"), None);
    assert_eq!(plan, StylePlan { steps: shadow_only(), outcome: StyleOutcome::VersionUnreadable });
}

#[test]
fn malformed_build_number_is_found_before_the_version_is_missed() {
    for build in ["", "abc", "22621.1", "-1", "99999999999"] {
        for version in [Some("6.3"), None] {
            let plan = apply_initial_style(Platform::Windows, Some(build), version);
            assert_eq!(
                plan,
                StylePlan { steps: shadow_only(), outcome: StyleOutcome::BuildNumberMalformed }
            );
        }
    }
}

#[test]
fn mac_gets_the_shadow_alone() {
    for build in [None, Some("22621"), Some("junk")] {
        for version in [None, Some("6.3")] {
            let plan = apply_initial_style(Platform::MacOs, build, version);
            assert_eq!(plan, StylePlan { steps: shadow_only(), outcome: StyleOutcome::Completed });
        }
    }
}

#[test]
fn other_platforms_get_nothing() {
    for build in [None, Some("22621"), Some("junk")] {
        for version in [None, Some("6.3")] {
            let plan = apply_initial_style(Platform::Other, build, version);
            assert_eq!(plan, StylePlan { steps: vec![], outcome: StyleOutcome::Completed });
        }
    }
}
