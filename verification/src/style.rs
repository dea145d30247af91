//! Styled values: an accumulator of color intent with no side effects, and
//! the wrapper that defers rendering until the value is displayed.

use vstd::prelude::*;
use crate::backend::{escape_spec, reset_escape_spec, ansi_escape, reset_escape};
use crate::color::{Color, ColorType};

verus! {

/// An accumulator of style intent: which color, if any, each channel shall
/// get. Pure data; building one has no side effects.
#[derive(Debug, Copy, Clone, PartialEq, Eq)]
pub struct ObjectStyle {
    pub fg_color: Option<Color>,
    pub bg_color: Option<Color>,
}

/// The empty style: no foreground and no background set.
pub open spec fn unstyled() -> ObjectStyle {
    ObjectStyle { fg_color: None, bg_color: None }
}

/// The style with its foreground channel set, or replaced, by `c`.
pub open spec fn with_fg(s: ObjectStyle, c: Color) -> ObjectStyle {
    ObjectStyle { fg_color: Some(c), bg_color: s.bg_color }
}

/// The style with its background channel set, or replaced, by `c`.
pub open spec fn with_bg(s: ObjectStyle, c: Color) -> ObjectStyle {
    ObjectStyle { fg_color: s.fg_color, bg_color: Some(c) }
}

/// The control sequences that apply a style: the foreground's, then the
/// background's, each empty where its channel is unset.
pub open spec fn style_prefix(s: ObjectStyle) -> Seq<char> {
    (match s.fg_color {
        Some(c) => escape_spec(c, ColorType::Foreground),
        None => Seq::<char>::empty(),
    }) + (match s.bg_color {
        Some(c) => escape_spec(c, ColorType::Background),
        None => Seq::<char>::empty(),
    })
}

/// What rendering a value under a style writes to the terminal: with any
/// channel set, both channels' sequences are applied before the text and a
/// reset follows it; with none set, the text alone, byte for byte.
pub open spec fn rendered(s: ObjectStyle, text: Seq<char>) -> Seq<char> {
    if s.fg_color is None && s.bg_color is None {
        text
    } else {
        style_prefix(s) + text + reset_escape_spec()
    }
}

impl ObjectStyle {
    /// Yields the empty style.
    pub fn new() -> (s: ObjectStyle)
        ensures
            s == unstyled(),
    {
        ObjectStyle { fg_color: None, bg_color: None }
    }

    /// Wraps a value with a snapshot of this style. The snapshot is a copy:
    /// whatever becomes of this style afterwards, the wrapper keeps the
    /// colors it was given here.
    pub fn apply_to<D>(&self, val: D) -> (r: StyledObject<D>)
        ensures
            r.object_style == *self,
            r.content == val,
    {
        StyledObject { object_style: *self, content: val }
    }

    /// The exact text that rendering `text` under this style writes: the
    /// style's control sequences, the text, a reset — or, for the empty
    /// style, the text alone, untouched.
    pub fn decorate(&self, text: &str) -> (r: String)
        ensures
            r@ == rendered(*self, text@),
    {
        if self.fg_color.is_none() && self.bg_color.is_none() {
            return String::from_str(text);
        }
        let mut out = String::new();
        if let Some(c) = self.fg_color {
            out.append(ansi_escape(c, ColorType::Foreground));
        }
        if let Some(c) = self.bg_color {
            out.append(ansi_escape(c, ColorType::Background));
        }
        out.append(text);
        out.append(reset_escape());
        proof {
            assert(out@ =~= rendered(*self, text@));
        }
        out
    }
}

/// A displayable value paired with a resolved style. Rendering is pure and
/// repeatable: it never mutates the value or the style, so rendering the same
/// wrapper twice writes identical output.
pub struct StyledObject<D> {
    pub object_style: ObjectStyle,
    pub content: D,
}

impl<D> StyledObject<D> {
    /// Sets, or replaces, the foreground color of the wrapped value;
    /// chainable.
    pub fn with(self, color: Color) -> (r: StyledObject<D>)
        ensures
            r.object_style == with_fg(self.object_style, color),
            r.content == self.content,
    {
        StyledObject {
            object_style: ObjectStyle {
                fg_color: Some(color),
                bg_color: self.object_style.bg_color,
            },
            content: self.content,
        }
    }

    /// Sets, or replaces, the background color of the wrapped value;
    /// chainable.
    pub fn on(self, color: Color) -> (r: StyledObject<D>)
        ensures
            r.object_style == with_bg(self.object_style, color),
            r.content == self.content,
    {
        StyledObject {
            object_style: ObjectStyle {
                fg_color: self.object_style.fg_color,
                bg_color: Some(color),
            },
            content: self.content,
        }
    }
}

impl StyledObject<String> {
    /// The exact text that displaying this wrapper writes to the terminal.
    pub fn render(&self) -> (r: String)
        ensures
            r@ == rendered(self.object_style, self.content@),
    {
        self.object_style.decorate(self.content.as_str())
    }
}

/// Wraps a displayable value so colors can be chained onto it; the wrapper
/// starts with no style at all.
pub fn paint<D>(val: D) -> (r: StyledObject<D>)
    ensures
        r.object_style == unstyled(),
        r.content == val,
{
    ObjectStyle::new().apply_to(val)
}

/// Unstyled round-trip: under the empty style, rendering writes the text
/// alone — not one control sequence is added.
pub proof fn lemma_unstyled_round_trip(s: ObjectStyle, text: Seq<char>)
    requires
        s == unstyled(),
    ensures
        rendered(s, text) == text,
{
}

/// The final color state does not depend on the order the channels were set
/// in: foreground then background reaches the same style as background then
/// foreground.
pub proof fn lemma_style_order_independent(s: ObjectStyle, fg: Color, bg: Color)
    ensures
        with_bg(with_fg(s, fg), bg) == with_fg(with_bg(s, bg), fg),
{
}

/// Last write wins: setting a channel twice leaves only the second color,
/// on the foreground as on the background.
pub proof fn lemma_last_write_wins(s: ObjectStyle, first: Color, second: Color)
    ensures
        with_fg(with_fg(s, first), second) == with_fg(s, second),
        with_bg(with_bg(s, first), second) == with_bg(s, second),
{
}

} // verus!
