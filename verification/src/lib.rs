//! Cross-platform terminal text coloring.
//!
//! A caller either obtains a [`TerminalColor`] handle and sets the console's
//! foreground and background colors directly, or wraps a value with [`paint`]
//! and chains colors onto it, deferring every effect until the styled value is
//! rendered. Both paths go through one platform backend behind the
//! [`ColorBackend`] seam; this build carries the escape-sequence backend.

mod backend;
mod color;
mod console;
mod style;
mod terminal;

pub use backend::{AnsiColor, ColorBackend, ansi_escape, escape_spec, reset_escape,
    reset_escape_spec};
pub use color::{Color, ColorType, color_of_name, lemma_canonical_names,
    lemma_parse_case_insensitive, lower_scalar,
    lower_scalars, name_eq};
pub use style::{ObjectStyle, StyledObject, lemma_last_write_wins, lemma_style_order_independent,
    lemma_unstyled_round_trip, paint, rendered, style_prefix, unstyled, with_bg, with_fg};
pub use terminal::{TerminalColor, get, lemma_init_idempotent};
pub use console::{ColorOp, ConsoleState, apply_op, apply_ops, console_after, default_console,
    lemma_apply_ops_push, lemma_reset_completeness};
