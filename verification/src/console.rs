//! A model of the console's color state and of the operations a handle
//! performs on it, over which the handle's contracts are stated.

use vstd::prelude::*;
use crate::color::Color;

verus! {

/// One color operation a handle forwards to its backend.
pub enum ColorOp {
    SetFg(Color),
    SetBg(Color),
    Reset,
}

/// The console's color state: which color, if any, each channel has been set
/// to. Both channels empty is the terminal's default state.
pub struct ConsoleState {
    pub fg: Option<Color>,
    pub bg: Option<Color>,
}

/// The terminal's default state: no color set on either channel.
pub open spec fn default_console() -> ConsoleState {
    ConsoleState { fg: None, bg: None }
}

/// What one operation does to the console's color state.
pub open spec fn apply_op(st: ConsoleState, op: ColorOp) -> ConsoleState {
    match op {
        ColorOp::SetFg(c) => ConsoleState { fg: Some(c), bg: st.bg },
        ColorOp::SetBg(c) => ConsoleState { fg: st.fg, bg: Some(c) },
        ColorOp::Reset => default_console(),
    }
}

/// The console's color state after a sequence of operations, first to last.
pub open spec fn apply_ops(st: ConsoleState, ops: Seq<ColorOp>) -> ConsoleState
    decreases ops.len(),
{
    if ops.len() == 0 {
        st
    } else {
        apply_ops(apply_op(st, ops[0]), ops.drop_first())
    }
}

/// The console's color state after the given operations, starting from the
/// terminal's default state.
pub open spec fn console_after(ops: Seq<ColorOp>) -> ConsoleState {
    apply_ops(default_console(), ops)
}

/// Operations apply one at a time: one more operation at the end acts on the
/// state the earlier ones reached.
pub proof fn lemma_apply_ops_push(st: ConsoleState, ops: Seq<ColorOp>, op: ColorOp)
    ensures
        apply_ops(st, ops.push(op)) == apply_op(apply_ops(st, ops), op),
    decreases ops.len(),
{
    let pushed = ops.push(op);
    if ops.len() == 0 {
        assert(pushed[0] == op);
        assert(pushed.drop_first() =~= Seq::<ColorOp>::empty());
        assert(apply_ops(st, pushed) == apply_ops(apply_op(st, op), pushed.drop_first()));
        assert(apply_ops(apply_op(st, op), pushed.drop_first()) == apply_op(st, op));
        assert(apply_ops(st, ops) == st);
    } else {
        assert(pushed[0] == ops[0]);
        assert(pushed.drop_first() =~= ops.drop_first().push(op));
        assert(apply_ops(st, pushed) == apply_ops(apply_op(st, ops[0]), pushed.drop_first()));
        lemma_apply_ops_push(apply_op(st, ops[0]), ops.drop_first(), op);
        assert(apply_ops(st, ops) == apply_ops(apply_op(st, ops[0]), ops.drop_first()));
    }
}

/// Reset completeness: whatever any sequence of operations has done to the
/// console's color state, one reset after it leaves the console in its
/// default state, with no residual channel set.
pub proof fn lemma_reset_completeness(st: ConsoleState, ops: Seq<ColorOp>)
    ensures
        apply_ops(st, ops.push(ColorOp::Reset)) == default_console(),
{
    lemma_apply_ops_push(st, ops, ColorOp::Reset);
}

} // verus!
