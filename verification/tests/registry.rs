use window_styler::command::{OnFailure, Step, WindowCommand};
use window_styler::platform::Platform;
use window_styler::registry::{ClosePlan, OpenPlan, WindowRegistry};
use window_styler::request::{
    window_config, window_name_script, WindowConfig, WindowOpenRequest, DEFAULT_HEIGHT_BITS,
    DEFAULT_WIDTH_BITS,
};
use window_styler::style::{apply_initial_style, StyleOutcome, StylePlan};

fn request(label: &str, width: Option<f64>, height: Option<f64>) -> WindowOpenRequest {
    WindowOpenRequest {
        label: label.to_string(),
        title: format!("Title of {}", label),
        location: format!("pages/{}.html", label),
        width: width.map(f64::to_bits),
        height: height.map(f64::to_bits),
    }
}

fn vital(command: WindowCommand) -> Step {
    Step { command, on_failure: OnFailure::Abort }
}

fn focus_steps() -> Vec<Step> {
    vec![
        vital(WindowCommand::Unminimize),
        vital(WindowCommand::Show),
        vital(WindowCommand::SetFocus),
    ]
}

#[test]
fn default_size_is_1000_by_700() {
    assert_eq!(f64::from_bits(DEFAULT_WIDTH_BITS), 1000.0);
    assert_eq!(f64::from_bits(DEFAULT_HEIGHT_BITS), 700.0);
    let config = window_config(request("settings", None, None));
    assert_eq!(f64::from_bits(config.width), 1000.0);
    assert_eq!(f64::from_bits(config.height), 700.0);
}

#[test]
fn requested_size_is_kept() {
    let config = window_config(request("settings", Some(640.5), Some(480.25)));
    assert_eq!(f64::from_bits(config.width), 640.5);
    assert_eq!(f64::from_bits(config.height), 480.25);
    let config = window_config(request("settings", None, Some(480.0)));
    assert_eq!(f64::from_bits(config.width), 1000.0);
    assert_eq!(f64::from_bits(config.height), 480.0);
    let config = window_config(request("settings", Some(0.0), None));
    assert_eq!(f64::from_bits(config.width), 0.0);
    assert_eq!(f64::from_bits(config.height), 700.0);
}

#[test]
fn new_window_is_decorated_transparent_resizable_and_focused() {
    let config = window_config(request("about", None, None));
    assert_eq!(
        config,
        WindowConfig {
            label: "about".to_string(),
            title: "Title of about".to_string(),
            location: "pages/about.html".to_string(),
            width: 1000.0f64.to_bits(),
            height: 700.0f64.to_bits(),
            decorations: true,
            transparent: true,
            resizable: true,
            fullscreen: false,
            focused: true,
        }
    );
}

#[test]
fn name_script_holds_the_label() {
    assert_eq!(window_name_script("settings"), "window.name = 'settings';");
    assert_eq!(window_name_script(""), "window.name = '';");
    assert_eq!(window_name_script("it's"), "window.name = 'it's';");
}

#[test]
fn empty_registry_knows_no_window() {
    let registry = WindowRegistry::new();
    assert_eq!(registry.len(), 0);
    assert!(!registry.contains("main"));
    assert!(!registry.is_visible("main"));
}

#[test]
fn first_open_creates_the_window() {
    let mut registry = WindowRegistry::new();
    let plan =
        registry.open_window(request("docs", None, None), Platform::Windows, Some("22621"), Some("6.3"));
    assert_eq!(
        plan,
        OpenPlan::Create {
            config: window_config(request("docs", None, None)),
            script: "window.name = 'docs';".to_string(),
            style: apply_initial_style(Platform::Windows, Some("22621"), Some("6.3")),
        }
    );
    assert!(registry.contains("docs"));
    assert!(registry.is_visible("docs"));
    assert_eq!(registry.len(), 1);
}

#[test]
fn open_with_unspecified_size_creates_1000_by_700() {
    let mut registry = WindowRegistry::new();
    match registry.open_window(request("docs", None, None), Platform::Other, None, None) {
        OpenPlan::Create { config, .. } => {
            assert_eq!(f64::from_bits(config.width), 1000.0);
            assert_eq!(f64::from_bits(config.height), 700.0);
        }
        OpenPlan::Focus { .. } => panic!("a new label must be created"),
    }
}

#[test]
fn second_open_only_focuses() {
    let mut registry = WindowRegistry::new();
    let first =
        registry.open_window(request("docs", None, None), Platform::Windows, Some("22621"), Some("6.3"));
    assert!(matches!(first, OpenPlan::Create { .. }));
    let second = registry.open_window(
        request("docs", Some(300.0), Some(200.0)),
        Platform::Windows,
        Some("22621"),
        Some("6.3"),
    );
    assert_eq!(second, OpenPlan::Focus { steps: focus_steps() });
    assert_eq!(registry.len(), 1);
    assert!(registry.is_visible("docs"));
}

#[test]
fn labels_are_told_apart() {
    let mut registry = WindowRegistry::new();
    for label in ["a", "b", "A", "a ", ""] {
        let plan = registry.open_window(request(label, None, None), Platform::Other, None, None);
        assert!(matches!(plan, OpenPlan::Create { .. }), "label {:?}", label);
    }
    assert_eq!(registry.len(), 5);
    for label in ["a", "b", "A", "a ", ""] {
        let plan = registry.open_window(request(label, None, None), Platform::Other, None, None);
        assert_eq!(plan, OpenPlan::Focus { steps: focus_steps() });
    }
    assert_eq!(registry.len(), 5);
}

#[test]
fn new_window_is_styled_for_its_platform() {
    let mut registry = WindowRegistry::new();
    match registry.open_window(request("w", None, None), Platform::Windows, Some("19045"), Some("6.3")) {
        OpenPlan::Create { style, .. } => assert_eq!(
            style,
            StylePlan { steps: vec![vital(WindowCommand::SetShadow)], outcome: StyleOutcome::Completed }
        ),
        OpenPlan::Focus { .. } => panic!("a new label must be created"),
    }
    match registry.open_window(request("m", None, None), Platform::Other, Some("22621"), Some("6.3")) {
        OpenPlan::Create { style, .. } => {
            assert_eq!(style, StylePlan { steps: vec![], outcome: StyleOutcome::Completed })
        }
        OpenPlan::Focus { .. } => panic!("a new label must be created"),
    }
    match registry.open_window(request("u", None, None), Platform::Windows, None, None) {
        OpenPlan::Create { style, .. } => assert_eq!(style.outcome, StyleOutcome::VersionUnreadable),
        OpenPlan::Focus { .. } => panic!("a new label must be created"),
    }
}

#[test]
fn close_hides_and_keeps_the_window() {
    let mut registry = WindowRegistry::new();
    registry.open_window(request("docs", None, None), Platform::Other, None, None);
    let plan = registry.close_requested("docs".to_string());
    assert_eq!(plan, ClosePlan { steps: vec![vital(WindowCommand::Hide)], prevent_close: true });
    assert!(registry.contains("docs"));
    assert!(!registry.is_visible("docs"));
    assert_eq!(registry.len(), 1);
}

#[test]
fn reopening_a_closed_window_shows_the_same_window() {
    let mut registry = WindowRegistry::new();
    registry.open_window(request("docs", None, None), Platform::Other, None, None);
    registry.close_requested("docs".to_string());
    let plan = registry.open_window(request("docs", None, None), Platform::Other, None, None);
    assert_eq!(plan, OpenPlan::Focus { steps: focus_steps() });
    assert!(registry.is_visible("docs"));
    assert_eq!(registry.len(), 1);
}

#[test]
fn closing_an_unknown_window_makes_it_known() {
    let mut registry = WindowRegistry::new();
    let plan = registry.close_requested("main".to_string());
    assert_eq!(plan, ClosePlan { steps: vec![vital(WindowCommand::Hide)], prevent_close: true });
    assert!(registry.contains("main"));
    assert!(!registry.is_visible("main"));
}

#[test]
fn adopted_window_is_known_and_shown() {
    let mut registry = WindowRegistry::new();
    registry.adopt("main".to_string());
    assert!(registry.contains("main"));
    assert!(registry.is_visible("main"));
    assert_eq!(registry.len(), 1);
    let plan = registry.open_window(request("main", None, None), Platform::Other, None, None);
    assert_eq!(plan, OpenPlan::Focus { steps: focus_steps() });
}

#[test]
fn adopting_a_known_window_changes_nothing() {
    let mut registry = WindowRegistry::new();
    registry.adopt("main".to_string());
    registry.close_requested("main".to_string());
    registry.adopt("main".to_string());
    assert!(!registry.is_visible("main"));
    assert_eq!(registry.len(), 1);
}

#[test]
fn styling_an_unknown_label_does_nothing() {
    let registry = WindowRegistry::new();
    let plan = registry.style_window("main", Platform::Windows, Some("22621"), Some("6.3"));
    assert_eq!(plan, StylePlan { steps: vec![], outcome: StyleOutcome::Completed });
    let plan = registry.style_window("main", Platform::Windows, None, None);
    assert_eq!(plan, StylePlan { steps: vec![], outcome: StyleOutcome::Completed });
}

#[test]
fn styling_a_known_label_gives_the_initial_style() {
    let mut registry = WindowRegistry::new();
    registry.adopt("main".to_string());
    for (build, version) in [(Some("22621"), Some("6.3")), (Some("19045"), Some("6.3")), (None, None)] {
        assert_eq!(
            registry.style_window("main", Platform::Windows, build, version),
            apply_initial_style(Platform::Windows, build, version)
        );
    }
    assert_eq!(
        registry.style_window("main", Platform::MacOs, None, None),
        StylePlan { steps: vec![vital(WindowCommand::SetShadow)], outcome: StyleOutcome::Completed }
    );
}
