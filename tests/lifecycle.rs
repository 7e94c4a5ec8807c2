use bootstrap::{replay, Action, Bootstrap, Event, Phase, STYLE_PATH};

fn count_builds(acts: &[Action]) -> usize {
    acts.iter().filter(|a| **a == Action::BuildWindow).count()
}

#[test]
fn style_path_is_the_asset_stylesheet() {
    assert_eq!(STYLE_PATH, "assets/style.css");
}

#[test]
fn fresh_state_is_uninitialized() {
    let b = Bootstrap::new();
    assert_eq!(b.phase, Phase::Uninitialized);
    assert!(!b.style_installed);
    assert!(!b.style_warned);
    assert!(!b.aborted);
    assert_eq!(b.exit_code, None);
}

#[test]
fn display_and_stylesheet_one_activation_builds_one_window() {
    let events = vec![
        Event::Startup { display_available: true },
        Event::Activate,
        Event::LoopExited { code: 3 },
    ];
    let acts = replay(&events);
    assert_eq!(acts, vec![Action::InstallStyle, Action::BuildWindow, Action::Exit { code: 3 }]);
    assert_eq!(count_builds(&acts), 1);
}

#[test]
fn exit_code_is_passed_on_verbatim() {
    for code in [0, 1, -1, i32::MIN, i32::MAX] {
        let mut b = Bootstrap::new();
        assert_eq!(b.handle(Event::Startup { display_available: true }), Action::InstallStyle);
        assert_eq!(b.handle(Event::Activate), Action::BuildWindow);
        assert_eq!(b.handle(Event::LoopExited { code }), Action::Exit { code });
        assert_eq!(b.phase, Phase::Terminated);
        assert_eq!(b.exit_code, Some(code));
    }
}

#[test]
fn missing_stylesheet_warns_and_activation_proceeds() {
    let events = vec![
        Event::Startup { display_available: true },
        Event::StyleError,
        Event::Activate,
        Event::LoopExited { code: 0 },
    ];
    let acts = replay(&events);
    assert_eq!(
        acts,
        vec![Action::InstallStyle, Action::WarnStyle, Action::BuildWindow, Action::Exit { code: 0 }]
    );
    assert_eq!(count_builds(&acts), 1);
}

#[test]
fn style_errors_do_not_change_the_windows_built() {
    let with_errors = vec![
        Event::StyleError,
        Event::Startup { display_available: true },
        Event::StyleError,
        Event::StyleError,
        Event::Activate,
        Event::StyleError,
        Event::Activate,
    ];
    let without: Vec<Event> = with_errors.iter().copied().filter(|e| *e != Event::StyleError).collect();
    let a = replay(&with_errors);
    let b = replay(&without);
    assert_eq!(count_builds(&a), 2);
    assert_eq!(count_builds(&a), count_builds(&b));
}

#[test]
fn no_display_aborts_before_any_window() {
    let events = vec![
        Event::Startup { display_available: false },
        Event::Activate,
        Event::StyleError,
        Event::LoopExited { code: 0 },
    ];
    let acts = replay(&events);
    assert_eq!(acts, vec![Action::AbortNoDisplay, Action::Ignore, Action::Ignore, Action::Ignore]);
    assert_eq!(count_builds(&acts), 0);
}

#[test]
fn no_display_leaves_state_aborted() {
    let mut b = Bootstrap::new();
    assert_eq!(b.handle(Event::Startup { display_available: false }), Action::AbortNoDisplay);
    assert_eq!(b.phase, Phase::Terminated);
    assert!(b.aborted);
    assert!(!b.style_installed);
    assert_eq!(b.exit_code, None);
}

#[test]
fn activation_before_startup_builds_nothing() {
    let events = vec![
        Event::Activate,
        Event::Startup { display_available: true },
        Event::Activate,
    ];
    let acts = replay(&events);
    assert_eq!(acts, vec![Action::Ignore, Action::InstallStyle, Action::BuildWindow]);
}

#[test]
fn style_error_before_startup_is_ignored() {
    let mut b = Bootstrap::new();
    assert_eq!(b.handle(Event::StyleError), Action::Ignore);
    assert!(!b.style_warned);
    assert_eq!(b.phase, Phase::Uninitialized);
}

#[test]
fn startup_runs_once() {
    let mut b = Bootstrap::new();
    assert_eq!(b.handle(Event::Startup { display_available: true }), Action::InstallStyle);
    assert_eq!(b.phase, Phase::Started);
    assert!(b.style_installed);
    assert_eq!(b.handle(Event::Startup { display_available: false }), Action::Ignore);
    assert_eq!(b.phase, Phase::Started);
    assert!(!b.aborted);
}

#[test]
fn every_activation_goes_to_the_window_builder() {
    let events = vec![
        Event::Startup { display_available: true },
        Event::Activate,
        Event::Activate,
        Event::Activate,
    ];
    let acts = replay(&events);
    assert_eq!(count_builds(&acts), 3);
}

#[test]
fn nothing_happens_after_exit() {
    let mut b = Bootstrap::new();
    b.handle(Event::Startup { display_available: true });
    assert_eq!(b.handle(Event::LoopExited { code: 7 }), Action::Exit { code: 7 });
    assert_eq!(b.handle(Event::Activate), Action::Ignore);
    assert_eq!(b.handle(Event::LoopExited { code: 9 }), Action::Ignore);
    assert_eq!(b.exit_code, Some(7));
}

#[test]
fn loop_may_exit_without_startup() {
    let acts = replay(&vec![Event::LoopExited { code: 2 }]);
    assert_eq!(acts, vec![Action::Exit { code: 2 }]);
}

#[test]
fn empty_run_takes_no_action() {
    assert!(replay(&Vec::new()).is_empty());
}
