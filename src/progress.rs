//! What the progress display shows: a bar position and the last line of text.
//! The display takes reports in any order, and clamps each one.

use crate::messages::{Info, Messages, Progress, ProgressMessage, PROGRESS_COMPLETE};
use vstd::prelude::*;

verus! {

/// The share of the whole task that `value` stands for, in millionths,
/// clamped to at most the whole.
pub open spec fn clamped(value: int) -> int {
    if value > PROGRESS_COMPLETE as int {
        PROGRESS_COMPLETE as int
    } else {
        value
    }
}

/// The bar position for `value` on a bar of length `scale`: the scaled,
/// clamped fraction, rounded to the nearest whole (halves round up).
pub open spec fn position_for(value: int, scale: int) -> int {
    (2 * scale * clamped(value) + PROGRESS_COMPLETE as int) / (2 * PROGRESS_COMPLETE as int)
}

/// The bar position for a progress report of `value` millionths on a bar of
/// length `scale`.
pub fn bar_position(value: u32, scale: u64) -> (r: u64)
    ensures
        r as int == position_for(value as int, scale as int),
        r <= scale,
{
    let c: u128 = if value > PROGRESS_COMPLETE {
        PROGRESS_COMPLETE as u128
    } else {
        value as u128
    };
    let one: u128 = PROGRESS_COMPLETE as u128;
    let s: u128 = scale as u128;
    assert(2 * s * c <= 2 * s * one) by (nonlinear_arith)
        requires
            c <= one,
    ;
    assert(2 * s * one < 0x1_0000_0000_0000_0000_0000_0000) by (nonlinear_arith)
        requires
            s < 0x1_0000_0000_0000_0000,
            one == 1_000_000,
    ;
    let q = (2 * s * c + one) / (2 * one);
    assert(q <= s) by (nonlinear_arith)
        requires
            q == (2 * s * c + one) / (2 * one),
            c <= one,
            one == 1_000_000,
    ;
    q as u64
}

/// The display state of one session.
pub struct ProgressState {
    /// The length of the bar.
    pub scale: u64,
    /// Where the bar stands.
    pub position: u64,
    /// The last line of text received.
    pub message: String,
}

impl ProgressState {
    /// A bar of length `scale` at its start, with no text.
    pub fn new(scale: u64) -> (r: ProgressState)
        ensures
            r.scale == scale,
            r.position == 0,
            r.message@ == Seq::<char>::empty(),
    {
        ProgressState { scale, position: 0, message: String::new() }
    }

    /// Takes one message: a progress report moves the bar to its position,
    /// whether ahead of or behind where it stood; text replaces the text.
    pub fn apply(&mut self, msg: Messages)
        ensures
            final(self).scale == old(self).scale,
            match msg@ {
                ProgressMessage::Progress(v) => {
                    &&& final(self).position as int == position_for(v as int, old(self).scale as int)
                    &&& final(self).message@ == old(self).message@
                },
                ProgressMessage::Info(t) => {
                    &&& final(self).position == old(self).position
                    &&& final(self).message@ == t
                },
            },
    {
        match msg {
            Messages::Progress(Progress { value }) => {
                self.position = bar_position(value, self.scale);
            },
            Messages::Info(Info { message }) => {
                self.message = message;
            },
        }
    }

    /// The channel closed: the bar is full.
    pub fn close(&mut self)
        ensures
            final(self).scale == old(self).scale,
            final(self).position == old(self).scale,
            final(self).message@ == old(self).message@,
    {
        self.position = self.scale;
    }
}

} // verus!
