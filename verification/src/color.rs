//! The palette of named colors and its lenient, case-insensitive parser.

use vstd::prelude::*;

verus! {

/// Colors that are available for coloring the terminal font.
#[derive(Debug, Copy, Clone, PartialEq, Eq, Structural)]
pub enum Color {
    Black,
    Red,
    DarkRed,
    Green,
    DarkGreen,
    Yellow,
    DarkYellow,
    Blue,
    DarkBlue,
    Magenta,
    DarkMagenta,
    Cyan,
    DarkCyan,
    Grey,
    White,
}

/// Tells whether a color applies to the foreground or the background channel.
#[derive(Debug, Copy, Clone, PartialEq, Eq, Structural)]
pub enum ColorType {
    Background,
    Foreground,
}

/// A character's scalar value with an ASCII capital letter folded to lower case.
pub open spec fn lower_scalar(c: char) -> int {
    if 0x41 <= c as int && c as int <= 0x5A {
        c as int + 0x20
    } else {
        c as int
    }
}

/// A text's characters, each as its case-folded scalar value.
pub open spec fn lower_scalars(s: Seq<char>) -> Seq<int> {
    s.map_values(|c: char| lower_scalar(c))
}

/// Two texts spell the same name when they agree up to ASCII case.
pub open spec fn name_eq(s: Seq<char>, t: Seq<char>) -> bool {
    lower_scalars(s) == lower_scalars(t)
}

/// The color a text names. Each canonical name, in any mix of ASCII case,
/// yields its variant; any other text falls back to White, never an error.
pub open spec fn color_of_name(s: Seq<char>) -> Color {
    if name_eq(s, "black"@) {
        Color::Black
    } else if name_eq(s, "red"@) {
        Color::Red
    } else if name_eq(s, "dark_red"@) {
        Color::DarkRed
    } else if name_eq(s, "green"@) {
        Color::Green
    } else if name_eq(s, "dark_green"@) {
        Color::DarkGreen
    } else if name_eq(s, "yellow"@) {
        Color::Yellow
    } else if name_eq(s, "dark_yellow"@) {
        Color::DarkYellow
    } else if name_eq(s, "blue"@) {
        Color::Blue
    } else if name_eq(s, "dark_blue"@) {
        Color::DarkBlue
    } else if name_eq(s, "magenta"@) {
        Color::Magenta
    } else if name_eq(s, "dark_magenta"@) {
        Color::DarkMagenta
    } else if name_eq(s, "cyan"@) {
        Color::Cyan
    } else if name_eq(s, "dark_cyan"@) {
        Color::DarkCyan
    } else if name_eq(s, "grey"@) {
        Color::Grey
    } else {
        Color::White
    }
}

/// Parsing depends only on the case-folded text: two texts that agree up to
/// ASCII case always name the same color.
pub proof fn lemma_parse_case_insensitive(s: Seq<char>, t: Seq<char>)
    requires
        name_eq(s, t),
    ensures
        color_of_name(s) == color_of_name(t),
{
}

/// Every canonical name, in any mix of ASCII case, names its own variant:
/// parsing never confuses two canonical names.
pub proof fn lemma_canonical_names(s: Seq<char>)
    ensures
        name_eq(s, "black"@) ==> color_of_name(s) == Color::Black,
        name_eq(s, "red"@) ==> color_of_name(s) == Color::Red,
        name_eq(s, "dark_red"@) ==> color_of_name(s) == Color::DarkRed,
        name_eq(s, "green"@) ==> color_of_name(s) == Color::Green,
        name_eq(s, "dark_green"@) ==> color_of_name(s) == Color::DarkGreen,
        name_eq(s, "yellow"@) ==> color_of_name(s) == Color::Yellow,
        name_eq(s, "dark_yellow"@) ==> color_of_name(s) == Color::DarkYellow,
        name_eq(s, "blue"@) ==> color_of_name(s) == Color::Blue,
        name_eq(s, "dark_blue"@) ==> color_of_name(s) == Color::DarkBlue,
        name_eq(s, "magenta"@) ==> color_of_name(s) == Color::Magenta,
        name_eq(s, "dark_magenta"@) ==> color_of_name(s) == Color::DarkMagenta,
        name_eq(s, "cyan"@) ==> color_of_name(s) == Color::Cyan,
        name_eq(s, "dark_cyan"@) ==> color_of_name(s) == Color::DarkCyan,
        name_eq(s, "grey"@) ==> color_of_name(s) == Color::Grey,
        name_eq(s, "white"@) ==> color_of_name(s) == Color::White,
{
    reveal_strlit("black");
    reveal_strlit("red");
    reveal_strlit("dark_red");
    reveal_strlit("green");
    reveal_strlit("dark_green");
    reveal_strlit("yellow");
    reveal_strlit("dark_yellow");
    reveal_strlit("blue");
    reveal_strlit("dark_blue");
    reveal_strlit("magenta");
    reveal_strlit("dark_magenta");
    reveal_strlit("cyan");
    reveal_strlit("dark_cyan");
    reveal_strlit("grey");
    reveal_strlit("white");
    // Names of different lengths can never agree up to case; for the pairs
    // of equal length, a first differing character settles it.
    assert(lower_scalars("black"@).len() == 5);
    assert(lower_scalars("red"@).len() == 3);
    assert(lower_scalars("dark_red"@).len() == 8);
    assert(lower_scalars("green"@).len() == 5);
    assert(lower_scalars("dark_green"@).len() == 10);
    assert(lower_scalars("yellow"@).len() == 6);
    assert(lower_scalars("dark_yellow"@).len() == 11);
    assert(lower_scalars("blue"@).len() == 4);
    assert(lower_scalars("dark_blue"@).len() == 9);
    assert(lower_scalars("magenta"@).len() == 7);
    assert(lower_scalars("dark_magenta"@).len() == 12);
    assert(lower_scalars("cyan"@).len() == 4);
    assert(lower_scalars("dark_cyan"@).len() == 9);
    assert(lower_scalars("grey"@).len() == 4);
    assert(lower_scalars("white"@).len() == 5);
    assert(lower_scalars("blue"@)[0] != lower_scalars("cyan"@)[0]);
    assert(lower_scalars("blue"@)[0] != lower_scalars("grey"@)[0]);
    assert(lower_scalars("cyan"@)[0] != lower_scalars("grey"@)[0]);
    assert(lower_scalars("black"@)[1] != lower_scalars("green"@)[1]);
    assert(lower_scalars("black"@)[0] != lower_scalars("white"@)[0]);
    assert(lower_scalars("green"@)[0] != lower_scalars("white"@)[0]);
    assert(lower_scalars("dark_blue"@)[5] != lower_scalars("dark_cyan"@)[5]);
}

fn char_lower_eq(a: char, b: char) -> (r: bool)
    ensures
        r == (lower_scalar(a) == lower_scalar(b)),
{
    let x: u32 = a as u32;
    let y: u32 = b as u32;
    let lx: u32 = if 0x41 <= x && x <= 0x5A {
        x + 0x20
    } else {
        x
    };
    let ly: u32 = if 0x41 <= y && y <= 0x5A {
        y + 0x20
    } else {
        y
    };
    lx == ly
}

fn str_name_eq(s: &str, t: &str) -> (r: bool)
    ensures
        r == name_eq(s@, t@),
{
    let n: usize = s.unicode_len();
    if n != t.unicode_len() {
        return false;
    }
    let mut i: usize = 0;
    while i < n
        invariant
            n == s@.len(),
            n == t@.len(),
            i <= n,
            forall|j: int| 0 <= j < i ==> lower_scalar(s@[j]) == lower_scalar(t@[j]),
        decreases n - i,
    {
        let a = s.get_char(i);
        let b = t.get_char(i);
        if !char_lower_eq(a, b) {
            assert(lower_scalars(s@)[i as int] != lower_scalars(t@)[i as int]);
            return false;
        }
        i += 1;
    }
    proof {
        assert(lower_scalars(s@) =~= lower_scalars(t@));
    }
    true
}

impl Color {
    /// Parses a color name without ever failing: each canonical name matches
    /// in any mix of ASCII case, and anything else resolves to White.
    pub fn parse(text: &str) -> (c: Color)
        ensures
            c == color_of_name(text@),
    {
        if str_name_eq(text, "black") {
            Color::Black
        } else if str_name_eq(text, "red") {
            Color::Red
        } else if str_name_eq(text, "dark_red") {
            Color::DarkRed
        } else if str_name_eq(text, "green") {
            Color::Green
        } else if str_name_eq(text, "dark_green") {
            Color::DarkGreen
        } else if str_name_eq(text, "yellow") {
            Color::Yellow
        } else if str_name_eq(text, "dark_yellow") {
            Color::DarkYellow
        } else if str_name_eq(text, "blue") {
            Color::Blue
        } else if str_name_eq(text, "dark_blue") {
            Color::DarkBlue
        } else if str_name_eq(text, "magenta") {
            Color::Magenta
        } else if str_name_eq(text, "dark_magenta") {
            Color::DarkMagenta
        } else if str_name_eq(text, "cyan") {
            Color::Cyan
        } else if str_name_eq(text, "dark_cyan") {
            Color::DarkCyan
        } else if str_name_eq(text, "grey") {
            Color::Grey
        } else {
            Color::White
        }
    }
}

impl<'a> From<&'a str> for Color {
    fn from(src: &'a str) -> (c: Self) {
        Color::parse(src)
    }
}

impl<'a> vstd::std_specs::convert::FromSpecImpl<&'a str> for Color {
    open spec fn obeys_from_spec() -> bool {
        true
    }

    open spec fn from_spec(src: &'a str) -> Self {
        color_of_name(src@)
    }
}

impl core::str::FromStr for Color {
    type Err = ();

    fn from_str(src: &str) -> (c: Result<Self, Self::Err>)
        ensures
            c == Ok::<Color, ()>(color_of_name(src@)),
    {
        Ok(Color::parse(src))
    }
}

impl From<String> for Color {
    fn from(src: String) -> (c: Self) {
        Color::parse(src.as_str())
    }
}

impl vstd::std_specs::convert::FromSpecImpl<String> for Color {
    open spec fn obeys_from_spec() -> bool {
        true
    }

    open spec fn from_spec(src: String) -> Self {
        color_of_name(src@)
    }
}

} // verus!
