//! The platform backend seam and the escape-sequence strategy compiled into
//! this build.

use vstd::prelude::*;
use crate::color::{Color, ColorType};

verus! {

/// The control sequence that selects `c` on the channel `t`: the standard
/// escape-sequence encoding, with the dark variants on the normal-intensity
/// codes and the bright variants on the high-intensity ones.
pub open spec fn escape_spec(c: Color, t: ColorType) -> Seq<char> {
    match t {
        ColorType::Foreground => match c {
            Color::Black => "\u{1b}[30m"@,
            Color::DarkRed => "\u{1b}[31m"@,
            Color::DarkGreen => "\u{1b}[32m"@,
            Color::DarkYellow => "\u{1b}[33m"@,
            Color::DarkBlue => "\u{1b}[34m"@,
            Color::DarkMagenta => "\u{1b}[35m"@,
            Color::DarkCyan => "\u{1b}[36m"@,
            Color::Grey => "\u{1b}[37m"@,
            Color::Red => "\u{1b}[91m"@,
            Color::Green => "\u{1b}[92m"@,
            Color::Yellow => "\u{1b}[93m"@,
            Color::Blue => "\u{1b}[94m"@,
            Color::Magenta => "\u{1b}[95m"@,
            Color::Cyan => "\u{1b}[96m"@,
            Color::White => "\u{1b}[97m"@,
        },
        ColorType::Background => match c {
            Color::Black => "\u{1b}[40m"@,
            Color::DarkRed => "\u{1b}[41m"@,
            Color::DarkGreen => "\u{1b}[42m"@,
            Color::DarkYellow => "\u{1b}[43m"@,
            Color::DarkBlue => "\u{1b}[44m"@,
            Color::DarkMagenta => "\u{1b}[45m"@,
            Color::DarkCyan => "\u{1b}[46m"@,
            Color::Grey => "\u{1b}[47m"@,
            Color::Red => "\u{1b}[101m"@,
            Color::Green => "\u{1b}[102m"@,
            Color::Yellow => "\u{1b}[103m"@,
            Color::Blue => "\u{1b}[104m"@,
            Color::Magenta => "\u{1b}[105m"@,
            Color::Cyan => "\u{1b}[106m"@,
            Color::White => "\u{1b}[107m"@,
        },
    }
}

/// The control sequence that restores the terminal's default foreground,
/// background and attributes.
pub open spec fn reset_escape_spec() -> Seq<char> {
    "\u{1b}[0m"@
}

/// The control sequence that selects `c` on the channel `t`.
pub fn ansi_escape(c: Color, t: ColorType) -> (r: &'static str)
    ensures
        r@ == escape_spec(c, t),
{
    match t {
        ColorType::Foreground => match c {
            Color::Black => "\u{1b}[30m",
            Color::DarkRed => "\u{1b}[31m",
            Color::DarkGreen => "\u{1b}[32m",
            Color::DarkYellow => "\u{1b}[33m",
            Color::DarkBlue => "\u{1b}[34m",
            Color::DarkMagenta => "\u{1b}[35m",
            Color::DarkCyan => "\u{1b}[36m",
            Color::Grey => "\u{1b}[37m",
            Color::Red => "\u{1b}[91m",
            Color::Green => "\u{1b}[92m",
            Color::Yellow => "\u{1b}[93m",
            Color::Blue => "\u{1b}[94m",
            Color::Magenta => "\u{1b}[95m",
            Color::Cyan => "\u{1b}[96m",
            Color::White => "\u{1b}[97m",
        },
        ColorType::Background => match c {
            Color::Black => "\u{1b}[40m",
            Color::DarkRed => "\u{1b}[41m",
            Color::DarkGreen => "\u{1b}[42m",
            Color::DarkYellow => "\u{1b}[43m",
            Color::DarkBlue => "\u{1b}[44m",
            Color::DarkMagenta => "\u{1b}[45m",
            Color::DarkCyan => "\u{1b}[46m",
            Color::Grey => "\u{1b}[47m",
            Color::Red => "\u{1b}[101m",
            Color::Green => "\u{1b}[102m",
            Color::Yellow => "\u{1b}[103m",
            Color::Blue => "\u{1b}[104m",
            Color::Magenta => "\u{1b}[105m",
            Color::Cyan => "\u{1b}[106m",
            Color::White => "\u{1b}[107m",
        },
    }
}

/// The control sequence that restores the terminal's defaults.
pub fn reset_escape() -> (r: &'static str)
    ensures
        r@ == reset_escape_spec(),
{
    "\u{1b}[0m"
}

/// Relies on std::io::Stdout::write_all: sends the bytes of `s` to standard
/// output, the same channel the caller's own text goes to. A write error is
/// swallowed: terminal coloring is a best-effort visual affordance and must
/// never abort the caller's primary output.
#[verifier::external_body]
fn emit(s: &str) {
    let _ = std::io::Write::write_all(&mut std::io::stdout(), s.as_bytes());
}

/// The contract every platform color strategy meets: select a color on one of
/// the two channels, or restore the defaults, by a mechanism of its own. The
/// effects are external, observable only in the terminal's rendered output or
/// console state. Exactly one concrete backend is compiled into a build; this
/// build carries the escape-sequence strategy.
pub trait ColorBackend {
    /// Makes subsequent output appear with the given foreground color until
    /// changed or reset.
    fn set_fg(&self, color: Color);

    /// Makes subsequent output appear on the given background color until
    /// changed or reset.
    fn set_bg(&self, color: Color);

    /// Restores the terminal's default colors and attributes, undoing every
    /// prior color call on this backend.
    fn reset(&self);
}

/// The escape-sequence strategy: colors are selected by writing control
/// sequences into the output stream itself, never by touching console state.
#[verifier::ext_equal]
pub struct AnsiColor;

/// The escape-sequence strategy carries no state of its own: every value of
/// it is the same backend.
pub proof fn lemma_ansi_backend_unique(a: AnsiColor)
    ensures
        a == AnsiColor,
{
    assert(a =~= AnsiColor);
}

impl AnsiColor {
    pub fn new() -> (r: AnsiColor)
        ensures
            r == AnsiColor,
    {
        AnsiColor
    }
}

impl ColorBackend for AnsiColor {
    fn set_fg(&self, color: Color) {
        emit(ansi_escape(color, ColorType::Foreground));
    }

    fn set_bg(&self, color: Color) {
        emit(ansi_escape(color, ColorType::Background));
    }

    fn reset(&self) {
        emit(reset_escape());
    }
}

} // verus!
