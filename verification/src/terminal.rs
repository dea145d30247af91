//! The handle that owns one platform backend and forwards color operations to
//! it, binding the backend lazily on first use.

use vstd::prelude::*;
use crate::backend::{AnsiColor, ColorBackend, lemma_ansi_backend_unique};
use crate::color::Color;
use crate::console::{ColorOp, ConsoleState, console_after, default_console, lemma_apply_ops_push};

verus! {

/// A handle that stores the platform's color strategy and performs color
/// related actions through it. The backend is bound lazily: the handle starts
/// empty and is populated exactly once, on the first operation.
pub struct TerminalColor {
    terminal_color: Option<AnsiColor>,
    ops: Ghost<Seq<ColorOp>>,
}

impl TerminalColor {
    /// Which backend, if any, this handle has bound.
    pub closed spec fn backend(self) -> Option<AnsiColor> {
        self.terminal_color
    }

    /// Every color operation this handle has forwarded, first to last.
    pub closed spec fn ops(self) -> Seq<ColorOp> {
        self.ops@
    }

    /// Whether the handle has bound its platform backend.
    pub open spec fn is_inited(self) -> bool {
        self.backend() is Some
    }

    /// The console's color state as this handle's own operations, performed
    /// without interleaving from other sources, have left it.
    pub open spec fn console(self) -> ConsoleState {
        console_after(self.ops())
    }

    /// The handle as any one initialization leaves it: the platform backend
    /// bound, the operations untouched.
    pub closed spec fn inited(self) -> TerminalColor {
        TerminalColor { terminal_color: Some(AnsiColor), ops: self.ops }
    }

    /// Binds the platform backend if none is bound yet. Idempotent: once the
    /// backend is set it is never replaced, so any number of calls leaves the
    /// handle exactly as one call does.
    pub fn init(&mut self)
        ensures
            *final(self) == old(self).inited(),
            final(self).is_inited(),
            final(self).ops() == old(self).ops(),
    {
        match &self.terminal_color {
            None => {
                self.terminal_color = get_color_options();
            },
            Some(b) => {
                proof {
                    lemma_ansi_backend_unique(*b);
                }
            },
        }
    }

    /// Whether the platform backend has been bound yet.
    pub fn is_initialized(&self) -> (r: bool)
        ensures
            r == self.is_inited(),
    {
        match &self.terminal_color {
            Some(_) => true,
            None => false,
        }
    }

    /// Binds the backend if need be, then sets the console's foreground
    /// channel to the given color; the background channel keeps whatever this
    /// handle last set it to.
    pub fn set_fg(&mut self, color: Color)
        ensures
            final(self).is_inited(),
            final(self).ops() == old(self).ops().push(ColorOp::SetFg(color)),
            final(self).console() == (ConsoleState {
                fg: Some(color),
                bg: old(self).console().bg,
            }),
    {
        self.init();
        if let Some(ref terminal_color) = self.terminal_color {
            terminal_color.set_fg(color);
        }
        self.ops = Ghost(self.ops@.push(ColorOp::SetFg(color)));
        proof {
            lemma_apply_ops_push(default_console(), old(self).ops(), ColorOp::SetFg(color));
        }
    }

    /// Binds the backend if need be, then sets the console's background
    /// channel to the given color; the foreground channel keeps whatever this
    /// handle last set it to.
    pub fn set_bg(&mut self, color: Color)
        ensures
            final(self).is_inited(),
            final(self).ops() == old(self).ops().push(ColorOp::SetBg(color)),
            final(self).console() == (ConsoleState {
                fg: old(self).console().fg,
                bg: Some(color),
            }),
    {
        self.init();
        if let Some(ref terminal_color) = self.terminal_color {
            terminal_color.set_bg(color);
        }
        self.ops = Ghost(self.ops@.push(ColorOp::SetBg(color)));
        proof {
            lemma_apply_ops_push(default_console(), old(self).ops(), ColorOp::SetBg(color));
        }
    }

    /// Binds the backend if need be, then restores the terminal's defaults:
    /// whatever colors this handle's earlier calls set, none is left on
    /// either channel.
    pub fn reset(&mut self)
        ensures
            final(self).is_inited(),
            final(self).ops() == old(self).ops().push(ColorOp::Reset),
            final(self).console() == default_console(),
    {
        self.init();
        if let Some(ref terminal_color) = self.terminal_color {
            terminal_color.reset();
        }
        self.ops = Ghost(self.ops@.push(ColorOp::Reset));
        proof {
            lemma_apply_ops_push(default_console(), old(self).ops(), ColorOp::Reset);
        }
    }
}

/// Initialization is idempotent: initializing a handle that one
/// initialization has already shaped changes nothing further.
pub proof fn lemma_init_idempotent(t: TerminalColor)
    ensures
        t.inited().inited() == t.inited(),
        t.is_inited() ==> t.inited() == t,
{
    if t.is_inited() {
        lemma_ansi_backend_unique(t.backend()->Some_0);
    }
}

/// The concrete backend the host platform gets: on this build, the
/// escape-sequence strategy, always available.
fn get_color_options() -> (r: Option<AnsiColor>)
    ensures
        r == Some(AnsiColor),
{
    Some(AnsiColor::new())
}

/// Yields a fresh, independent handle whereon color related actions can be
/// performed. No backend is bound yet: it is built lazily by the first color
/// operation, and no state is shared with any other handle.
pub fn get() -> (r: Box<TerminalColor>)
    ensures
        !r.is_inited(),
        r.ops() == Seq::<ColorOp>::empty(),
{
    Box::new(TerminalColor { terminal_color: None, ops: Ghost(Seq::empty()) })
}

} // verus!
