use crossterm_style::{Color, ColorType, ObjectStyle, ansi_escape, paint, reset_escape};

#[test]
fn unstyled_round_trip() {
    let out = paint(String::from("Unstyled font")).render();
    assert_eq!(out, "Unstyled font");
}

#[test]
fn unstyled_empty_text_round_trip() {
    let out = paint(String::from("")).render();
    assert_eq!(out, "");
}

#[test]
fn styled_render_applies_fg_then_bg_then_reset() {
    let out = paint(String::from("Colored font")).with(Color::Red).on(Color::Blue).render();
    assert_eq!(out, "\u{1b}[91m\u{1b}[104mColored font\u{1b}[0m");
}

#[test]
fn order_of_with_and_on_does_not_matter() {
    let a = paint(String::from("x")).with(Color::Red).on(Color::Blue).render();
    let b = paint(String::from("x")).on(Color::Blue).with(Color::Red).render();
    assert_eq!(a, b);
    assert_eq!(a, "\u{1b}[91m\u{1b}[104mx\u{1b}[0m");
}

#[test]
fn last_write_wins_on_each_channel() {
    let fg = paint(String::from("x")).with(Color::Red).with(Color::Green).render();
    assert_eq!(fg, "\u{1b}[92mx\u{1b}[0m");
    let bg = paint(String::from("x")).on(Color::Red).on(Color::Green).render();
    assert_eq!(bg, "\u{1b}[102mx\u{1b}[0m");
}

#[test]
fn fg_only_and_bg_only_render() {
    let fg = paint(String::from("f")).with(Color::DarkMagenta).render();
    assert_eq!(fg, "\u{1b}[35mf\u{1b}[0m");
    let bg = paint(String::from("b")).on(Color::Grey).render();
    assert_eq!(bg, "\u{1b}[47mb\u{1b}[0m");
}

#[test]
fn applied_style_is_a_snapshot() {
    let style = ObjectStyle::new();
    let plain = style.apply_to(String::from("v"));
    let colored = style.apply_to(String::from("v")).with(Color::Red);
    assert_eq!(plain.render(), "v");
    assert_eq!(colored.render(), "\u{1b}[91mv\u{1b}[0m");
    assert_eq!(style.apply_to(String::from("v")).render(), "v");
}

#[test]
fn decorate_matches_render() {
    let styled = paint(String::from("t")).with(Color::Cyan).on(Color::Black);
    assert_eq!(styled.object_style.decorate("t"), styled.render());
}

#[test]
fn escape_table_exact_values() {
    assert_eq!(ansi_escape(Color::Black, ColorType::Foreground), "\u{1b}[30m");
    assert_eq!(ansi_escape(Color::Grey, ColorType::Foreground), "\u{1b}[37m");
    assert_eq!(ansi_escape(Color::Red, ColorType::Foreground), "\u{1b}[91m");
    assert_eq!(ansi_escape(Color::White, ColorType::Foreground), "\u{1b}[97m");
    assert_eq!(ansi_escape(Color::Black, ColorType::Background), "\u{1b}[40m");
    assert_eq!(ansi_escape(Color::DarkCyan, ColorType::Background), "\u{1b}[46m");
    assert_eq!(ansi_escape(Color::Green, ColorType::Background), "\u{1b}[102m");
    assert_eq!(ansi_escape(Color::White, ColorType::Background), "\u{1b}[107m");
    assert_eq!(reset_escape(), "\u{1b}[0m");
}

#[test]
fn painting_a_non_string_value() {
    let styled = paint(42u64).with(Color::Yellow);
    assert_eq!(styled.object_style.decorate("42"), "\u{1b}[93m42\u{1b}[0m");
    assert_eq!(styled.content, 42u64);
}
