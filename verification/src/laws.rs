//! Properties that hold of the state machine across commands, stated
//! over the spec-level transitions and proved once for all states.

use vstd::prelude::*;

use crate::common::{classified, value_in_range, ChannelInfo, CHANNELS_COUNT};
use crate::cursor::ChannelDataRow;
use crate::machine::{
    spec_apply_threshold, spec_clear_row, spec_row_view, spec_select_channel,
    spec_set_threshold, spec_shift_channel, MachineView, RowView,
};

verus! {

/// After selecting channel `number` (one-based), the current slot holds
/// index `number - 1`, and the row the snapshot exposes for it carries
/// exactly the dataset's stored reading and flag for that slot.
pub proof fn lemma_select_reports_stored_channel(m: MachineView, number: usize)
    requires
        m.wf(),
        1 <= number <= CHANNELS_COUNT,
    ensures
        spec_select_channel(m, number).cursor.current == Some((number - 1) as usize),
        spec_row_view(
            spec_select_channel(m, number).channels,
            spec_select_channel(m, number).cursor.current,
        ) == Some(
            RowView {
                integer_value: m.channels[number - 1].integer_value,
                is_suspicious: m.channels[number - 1].is_suspicious,
                channel_number: number,
            },
        ),
{
}

/// Clearing a row twice in a row yields the same machine state as
/// clearing it once.
pub proof fn lemma_clear_row_idempotent(m: MachineView, row: ChannelDataRow)
    ensures
        spec_clear_row(spec_clear_row(m, row), row) == spec_clear_row(m, row),
{
}

/// After a selection or a shift made while a current selection existed,
/// the new previous slot holds exactly the old current index.
pub proof fn lemma_history_preserved(m: MachineView, number: usize, delta: i32)
    requires
        m.cursor.current is Some,
        1 <= number <= CHANNELS_COUNT,
    ensures
        spec_select_channel(m, number).cursor.previous == m.cursor.current,
        spec_shift_channel(m, delta).cursor.previous == m.cursor.current,
{
}

/// Storing a threshold alone changes no channel; only the commit
/// reclassifies, and then every flag equals `reading > value` while every
/// reading stays what it was.
pub proof fn lemma_threshold_gating(m: MachineView, value: u32)
    requires
        m.wf(),
        value_in_range(value),
    ensures
        spec_set_threshold(m, value).channels == m.channels,
        spec_apply_threshold(spec_set_threshold(m, value)).channels.len() == m.channels.len(),
        forall|i: int|
            0 <= i < m.channels.len()
                ==> (#[trigger] spec_apply_threshold(spec_set_threshold(m, value)).channels[i])
                == (ChannelInfo {
                integer_value: m.channels[i].integer_value,
                is_suspicious: classified(m.channels[i].integer_value, value),
            }),
{
}

} // verus!
