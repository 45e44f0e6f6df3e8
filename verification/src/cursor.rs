//! The selection cursor: a current/previous pair of optional channel
//! indices, with direct selection, wrapping relative shifts, and
//! independent clearing of either slot.

use vstd::prelude::*;
use vstd::arithmetic::div_mod::{
    lemma_fundamental_div_mod, lemma_fundamental_div_mod_converse_mod,
};

use crate::common::CHANNELS_COUNT;
use crate::errors::CommandError;

verus! {

/// Names one of the cursor's two slots.
#[derive(Clone, Copy, PartialEq, Eq, Structural, Debug)]
pub enum ChannelDataRow {
    Previous,
    Current,
}

/// The current/previous selection pair. `None` means unselected/cleared.
/// The two slots are independent; holding the same index in both is valid.
#[derive(Clone, Copy, PartialEq, Eq, Debug)]
pub struct SelectionCursor {
    pub current: Option<usize>,
    pub previous: Option<usize>,
}

/// Any index a slot holds is a valid channel index.
pub open spec fn slot_wf(slot: Option<usize>) -> bool {
    slot is Some ==> slot->0 < CHANNELS_COUNT
}

/// The cursor after a direct selection of `index`: an existing current
/// selection moves into the previous slot, then `index` becomes current.
pub open spec fn spec_selected(c: SelectionCursor, index: usize) -> SelectionCursor {
    SelectionCursor {
        current: Some(index),
        previous: if c.current is Some {
            c.current
        } else {
            c.previous
        },
    }
}

/// The index reached from `cur` by a relative offset of `delta`, wrapped
/// into `[0, CHANNELS_COUNT)` with Euclidean (always-nonnegative) modulo.
pub open spec fn wrapped_index(cur: int, delta: int) -> int {
    (cur + delta) % (CHANNELS_COUNT as int)
}

/// The cursor after a relative shift by `delta`. With no current
/// selection the shift falls back to selecting index 0; otherwise the
/// current selection moves into the previous slot and the wrapped target
/// becomes current.
pub open spec fn spec_shifted(c: SelectionCursor, delta: i32) -> SelectionCursor {
    if c.current is None {
        spec_selected(c, 0)
    } else {
        SelectionCursor {
            current: Some(wrapped_index(c.current->0 as int, delta as int) as usize),
            previous: c.current,
        }
    }
}

/// The cursor after clearing one slot; the other slot is untouched.
pub open spec fn spec_cleared(c: SelectionCursor, row: ChannelDataRow) -> SelectionCursor {
    match row {
        ChannelDataRow::Current => SelectionCursor { current: None, previous: c.previous },
        ChannelDataRow::Previous => SelectionCursor { current: c.current, previous: None },
    }
}

impl SelectionCursor {
    /// Both slots hold valid channel indices when set.
    pub open spec fn wf(self) -> bool {
        slot_wf(self.current) && slot_wf(self.previous)
    }

    /// A fresh cursor: nothing selected yet.
    pub fn new() -> (c: Self)
        ensures
            c.current is None,
            c.previous is None,
            c.wf(),
    {
        SelectionCursor { current: None, previous: None }
    }

    /// The current slot.
    pub fn current(&self) -> (r: Option<usize>)
        ensures
            r == self.current,
    {
        self.current
    }

    /// The previous slot.
    pub fn previous(&self) -> (r: Option<usize>)
        ensures
            r == self.previous,
    {
        self.previous
    }

    /// Select a channel by zero-based index. An out-of-range index is
    /// rejected and leaves the cursor unchanged.
    pub fn select(&mut self, index: usize) -> (r: Result<(), CommandError>)
        requires
            old(self).wf(),
        ensures
            final(self).wf(),
            index < CHANNELS_COUNT ==> r == Ok::<(), CommandError>(())
                && *final(self) == spec_selected(*old(self), index),
            index >= CHANNELS_COUNT ==> r == Err::<(), CommandError>(CommandError::IndexOutOfRange)
                && *final(self) == *old(self),
    {
        if index >= CHANNELS_COUNT {
            return Err(CommandError::IndexOutOfRange);
        }
        if self.current.is_some() {
            self.previous = self.current;
        }
        self.current = Some(index);
        Ok(())
    }

    /// Shift the current selection by `delta`, wrapping around the channel
    /// range; any `delta` is accepted. With no current selection this
    /// falls back to selecting index 0.
    pub fn shift(&mut self, delta: i32)
        requires
            old(self).wf(),
        ensures
            final(self).wf(),
            *final(self) == spec_shifted(*old(self), delta),
    {
        let n32: u32 = CHANNELS_COUNT as u32;
        match self.current {
            None => {
                self.current = Some(0);
            },
            Some(cur) => {
                self.previous = Some(cur);
                let offset: u32 = if delta >= 0 {
                    (delta as u32) % n32
                } else {
                    // |delta| computed without negating i32::MIN
                    let magnitude: u32 = ((-(delta + 1)) as u32) + 1;
                    let m: u32 = magnitude % n32;
                    if m == 0 {
                        0
                    } else {
                        n32 - m
                    }
                };
                let target: usize = (cur + offset as usize) % CHANNELS_COUNT;
                proof {
                    lemma_shift_target(cur as int, delta as int, offset as int, target as int);
                }
                self.current = Some(target);
            },
        }
    }

    /// Clear one slot; clearing an already-empty slot is a no-op.
    pub fn clear(&mut self, row: ChannelDataRow)
        requires
            old(self).wf(),
        ensures
            final(self).wf(),
            *final(self) == spec_cleared(*old(self), row),
    {
        match row {
            ChannelDataRow::Current => {
                self.current = None;
            },
            ChannelDataRow::Previous => {
                self.previous = None;
            },
        }
    }
}

/// The executable offset-and-wrap computation in `shift` lands on the
/// Euclidean modulo the specification names.
proof fn lemma_shift_target(cur: int, delta: int, offset: int, target: int)
    requires
        0 <= cur < CHANNELS_COUNT,
        0 <= offset < CHANNELS_COUNT,
        target == (cur + offset) % (CHANNELS_COUNT as int),
        delta >= 0 ==> offset == delta % (CHANNELS_COUNT as int),
        delta < 0 ==> {
            let m = (-delta) % (CHANNELS_COUNT as int);
            offset == if m == 0 {
                0int
            } else {
                CHANNELS_COUNT - m
            }
        },
    ensures
        target == wrapped_index(cur, delta),
{
    let n = CHANNELS_COUNT as int;
    let q2 = (cur + offset) / n;
    lemma_fundamental_div_mod(cur + offset, n);
    if delta >= 0 {
        let q = delta / n;
        lemma_fundamental_div_mod(delta, n);
        assert(cur + delta == (q + q2) * n + target) by (nonlinear_arith)
            requires
                delta == q * n + offset,
                cur + offset == q2 * n + target,
        ;
        lemma_fundamental_div_mod_converse_mod(cur + delta, n, q + q2, target);
    } else {
        let mag = -delta;
        let qm = mag / n;
        let m = mag % n;
        lemma_fundamental_div_mod(mag, n);
        if m == 0 {
            assert(cur + delta == (-qm + q2) * n + target) by (nonlinear_arith)
                requires
                    mag == qm * n,
                    delta == -mag,
                    cur + offset == q2 * n + target,
                    offset == 0,
            ;
            lemma_fundamental_div_mod_converse_mod(cur + delta, n, -qm + q2, target);
        } else {
            assert(cur + delta == (-qm - 1 + q2) * n + target) by (nonlinear_arith)
                requires
                    mag == qm * n + m,
                    delta == -mag,
                    cur + offset == q2 * n + target,
                    offset == n - m,
            ;
            lemma_fundamental_div_mod_converse_mod(cur + delta, n, -qm - 1 + q2, target);
        }
    }
}

} // verus!
