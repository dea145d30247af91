use crossterm_style::Color;

#[test]
fn parses_every_canonical_name() {
    assert_eq!(Color::parse("black"), Color::Black);
    assert_eq!(Color::parse("red"), Color::Red);
    assert_eq!(Color::parse("dark_red"), Color::DarkRed);
    assert_eq!(Color::parse("green"), Color::Green);
    assert_eq!(Color::parse("dark_green"), Color::DarkGreen);
    assert_eq!(Color::parse("yellow"), Color::Yellow);
    assert_eq!(Color::parse("dark_yellow"), Color::DarkYellow);
    assert_eq!(Color::parse("blue"), Color::Blue);
    assert_eq!(Color::parse("dark_blue"), Color::DarkBlue);
    assert_eq!(Color::parse("magenta"), Color::Magenta);
    assert_eq!(Color::parse("dark_magenta"), Color::DarkMagenta);
    assert_eq!(Color::parse("cyan"), Color::Cyan);
    assert_eq!(Color::parse("dark_cyan"), Color::DarkCyan);
    assert_eq!(Color::parse("grey"), Color::Grey);
    assert_eq!(Color::parse("white"), Color::White);
}

#[test]
fn parses_mixed_case() {
    assert_eq!(Color::parse("BLACK"), Color::Black);
    assert_eq!(Color::parse("Red"), Color::Red);
    assert_eq!(Color::parse("RED"), Color::Red);
    assert_eq!(Color::parse("Dark_Red"), Color::DarkRed);
    assert_eq!(Color::parse("DARK_GREEN"), Color::DarkGreen);
    assert_eq!(Color::parse("yElLoW"), Color::Yellow);
    assert_eq!(Color::parse("Dark_Yellow"), Color::DarkYellow);
    assert_eq!(Color::parse("BLUE"), Color::Blue);
    assert_eq!(Color::parse("dArK_bLuE"), Color::DarkBlue);
    assert_eq!(Color::parse("MAGENTA"), Color::Magenta);
    assert_eq!(Color::parse("Dark_Magenta"), Color::DarkMagenta);
    assert_eq!(Color::parse("CyAn"), Color::Cyan);
    assert_eq!(Color::parse("DARK_CYAN"), Color::DarkCyan);
    assert_eq!(Color::parse("GrEy"), Color::Grey);
    assert_eq!(Color::parse("WHITE"), Color::White);
}

#[test]
fn unrecognized_names_fall_back_to_white() {
    assert_eq!(Color::parse("not_a_color"), Color::White);
    assert_eq!(Color::parse(""), Color::White);
    assert_eq!(Color::parse("RAINBOW"), Color::White);
    assert_eq!(Color::parse("darkred"), Color::White);
    assert_eq!(Color::parse("dark red"), Color::White);
    assert_eq!(Color::parse("red "), Color::White);
    assert_eq!(Color::parse("gray"), Color::White);
}

#[test]
fn str_parse_never_fails() {
    let c: Color = "dark_yellow".parse().unwrap();
    assert_eq!(c, Color::DarkYellow);
    let d: Color = "whatever".parse().unwrap();
    assert_eq!(d, Color::White);
}

#[test]
fn from_str_and_from_string_parse_alike() {
    assert_eq!(Color::from("red"), Color::Red);
    assert_eq!(Color::from("BLUE"), Color::Blue);
    assert_eq!(Color::from(String::from("Dark_Cyan")), Color::DarkCyan);
    assert_eq!(Color::from(String::from("nonsense")), Color::White);
}
