use crossterm_style::{Color, get};

#[test]
fn handle_starts_without_a_backend() {
    let t = get();
    assert!(!t.is_initialized());
}

#[test]
fn init_is_idempotent() {
    let mut t = get();
    assert!(!t.is_initialized());
    t.init();
    assert!(t.is_initialized());
    t.init();
    t.init();
    assert!(t.is_initialized());
}

#[test]
fn color_operations_initialize_lazily() {
    let mut t = get();
    assert!(!t.is_initialized());
    t.set_fg(Color::Red);
    assert!(t.is_initialized());

    let mut u = get();
    assert!(!u.is_initialized());
    u.set_bg(Color::Blue);
    assert!(u.is_initialized());

    let mut v = get();
    assert!(!v.is_initialized());
    v.reset();
    assert!(v.is_initialized());
}

#[test]
fn set_and_reset_sequence_runs_to_completion() {
    let mut t = get();
    t.set_fg(Color::Green);
    t.set_bg(Color::DarkBlue);
    t.set_fg(Color::Magenta);
    t.reset();
    assert!(t.is_initialized());
}

#[test]
fn end_to_end_scenario_with_independent_handles() {
    assert_eq!(Color::from("red"), Color::Red);
    assert_eq!(Color::from("BLUE"), Color::Blue);

    let mut first = get();
    assert!(!first.is_initialized());
    first.set_fg(Color::from("red"));
    assert!(first.is_initialized());

    let mut second = get();
    assert!(!second.is_initialized());
    second.set_bg(Color::from("BLUE"));
    assert!(second.is_initialized());

    let mut third = get();
    assert!(!third.is_initialized());
    third.reset();
    assert!(third.is_initialized());
}
