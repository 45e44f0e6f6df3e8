//! The channel state machine: the sole entry point for commands. It
//! composes the dataset, the cursor and the policy, validates each
//! command, and derives the snapshot a rendering layer consumes.

use vstd::prelude::*;

use crate::common::{
    classified, value_in_range, ChannelInfo, CHANNELS_COUNT, SUSPICIOUS_LIMIT,
};
use crate::cursor::{
    slot_wf, spec_cleared, spec_selected, spec_shifted, ChannelDataRow, SelectionCursor,
};
use crate::dataset::{reclassified, ChannelDataset};
use crate::errors::CommandError;
use crate::policy::SuspicionPolicy;

verus! {

/// The machine's whole observable state: the channel contents, the
/// cursor pair, and the active threshold.
#[verifier::ext_equal]
pub ghost struct MachineView {
    pub channels: Seq<ChannelInfo>,
    pub cursor: SelectionCursor,
    pub threshold: u32,
}

impl MachineView {
    /// Fixed length, in-range readings, valid cursor slots, in-range
    /// threshold.
    pub open spec fn wf(self) -> bool {
        &&& self.channels.len() == CHANNELS_COUNT
        &&& forall|i: int| 0 <= i < self.channels.len() ==> (#[trigger] self.channels[i]).wf()
        &&& self.cursor.wf()
        &&& value_in_range(self.threshold)
    }
}

/// The machine after `SelectChannel(number)`, for a valid one-based
/// `number`: only the cursor moves.
pub open spec fn spec_select_channel(m: MachineView, number: usize) -> MachineView {
    MachineView { cursor: spec_selected(m.cursor, (number - 1) as usize), ..m }
}

/// The machine after `ShiftChannel(delta)`: only the cursor moves.
pub open spec fn spec_shift_channel(m: MachineView, delta: i32) -> MachineView {
    MachineView { cursor: spec_shifted(m.cursor, delta), ..m }
}

/// The machine after `ClearRow(row)`: only the named slot empties.
pub open spec fn spec_clear_row(m: MachineView, row: ChannelDataRow) -> MachineView {
    MachineView { cursor: spec_cleared(m.cursor, row), ..m }
}

/// The machine after `SetThreshold(value)`, for an in-range `value`: only
/// the threshold moves; no channel flag changes yet.
pub open spec fn spec_set_threshold(m: MachineView, value: u32) -> MachineView {
    MachineView { threshold: value, ..m }
}

/// The machine after `ApplyThreshold`: every channel reclassified against
/// the active threshold; readings, cursor and threshold untouched.
pub open spec fn spec_apply_threshold(m: MachineView) -> MachineView {
    MachineView { channels: reclassified(m.channels, m.threshold), ..m }
}

/// The command set a front-end drives the machine with.
#[derive(Clone, Copy, PartialEq, Eq, Structural, Debug)]
pub enum Command {
    /// Select a channel by its human-facing one-based number.
    SelectChannel(usize),
    /// Move the current selection by a relative offset, wrapping around.
    ShiftChannel(i32),
    /// Empty one cursor slot.
    ClearRow(ChannelDataRow),
    /// Store a new threshold without reclassifying anything yet.
    SetThreshold(u32),
    /// Commit the stored threshold into every channel's flag.
    ApplyThreshold,
}

/// What one cursor slot exposes when it holds a selection: the selected
/// channel's reading, its flag, and its one-based number.
#[derive(Clone, Copy, PartialEq, Eq, Structural, Debug)]
pub struct RowView {
    pub integer_value: u32,
    pub is_suspicious: bool,
    pub channel_number: usize,
}

/// One entry of the per-channel list a grid of buttons renders.
#[derive(Clone, Copy, PartialEq, Eq, Structural, Debug)]
pub struct ChannelCell {
    pub channel_number: usize,
    pub integer_value: u32,
    pub is_suspicious: bool,
    pub is_current: bool,
}

/// The read-only projection of the machine's state; the only data a
/// rendering layer consumes.
#[derive(Clone, PartialEq, Eq, Debug)]
pub struct Snapshot {
    pub current: Option<RowView>,
    pub previous: Option<RowView>,
    pub channels: Vec<ChannelCell>,
    pub threshold: u32,
}

/// What a cursor slot exposes: a `RowView` of the held channel, or
/// nothing when the slot is empty.
pub open spec fn spec_row_view(channels: Seq<ChannelInfo>, slot: Option<usize>) -> Option<
    RowView,
> {
    match slot {
        None => None,
        Some(i) => Some(
            RowView {
                integer_value: channels[i as int].integer_value,
                is_suspicious: channels[i as int].is_suspicious,
                channel_number: (i + 1) as usize,
            },
        ),
    }
}

/// The grid entry for the channel at zero-based index `i`.
pub open spec fn spec_channel_cell(m: MachineView, i: int) -> ChannelCell {
    ChannelCell {
        channel_number: (i + 1) as usize,
        integer_value: m.channels[i].integer_value,
        is_suspicious: m.channels[i].is_suspicious,
        is_current: m.cursor.current == Some(i as usize),
    }
}

/// Composes the dataset, the cursor and the policy; owns them
/// exclusively and is the sole entry point for commands.
pub struct ChannelBasedApp {
    pub dataset: ChannelDataset,
    pub cursor: SelectionCursor,
    pub policy: SuspicionPolicy,
}

impl View for ChannelBasedApp {
    type V = MachineView;

    open spec fn view(&self) -> MachineView {
        MachineView {
            channels: self.dataset@,
            cursor: self.cursor,
            threshold: self.policy.threshold,
        }
    }
}

impl ChannelBasedApp {
    /// The composed components are well formed.
    pub open spec fn wf(self) -> bool {
        self@.wf()
    }

    /// Build a machine from the given components and issue the implicit
    /// initial selection of channel 1.
    fn bootstrap(dataset: ChannelDataset, policy: SuspicionPolicy) -> (m: Self)
        requires
            dataset.wf(),
            policy.wf(),
        ensures
            m.wf(),
            m@.channels == dataset@,
            m@.threshold == policy.threshold,
            m@.cursor.current == Some(0usize),
            m@.cursor.previous is None,
    {
        let mut m = ChannelBasedApp { dataset, cursor: SelectionCursor::new(), policy };
        let _ = m.cursor.select(0);
        m
    }

    /// A fresh machine: random readings classified against the default
    /// threshold, and channel 1 already selected.
    pub fn new() -> (m: Self)
        ensures
            m.wf(),
            m@.threshold == SUSPICIOUS_LIMIT,
            m@.cursor.current == Some(0usize),
            m@.cursor.previous is None,
            forall|i: int|
                0 <= i < m@.channels.len() ==> (#[trigger] m@.channels[i]).is_suspicious
                    == classified(m@.channels[i].integer_value, SUSPICIOUS_LIMIT),
    {
        let policy = SuspicionPolicy::new();
        let dataset = ChannelDataset::new_random(policy.threshold());
        Self::bootstrap(dataset, policy)
    }

    /// A machine over the given readings instead of random ones,
    /// classified against the default threshold, with channel 1 already
    /// selected.
    pub fn with_readings(readings: &Vec<u32>) -> (m: Self)
        requires
            readings@.len() == CHANNELS_COUNT,
            forall|i: int| 0 <= i < readings@.len() ==> value_in_range(#[trigger] readings@[i]),
        ensures
            m.wf(),
            m@.threshold == SUSPICIOUS_LIMIT,
            m@.cursor.current == Some(0usize),
            m@.cursor.previous is None,
            forall|i: int|
                0 <= i < m@.channels.len() ==> #[trigger] m@.channels[i] == (ChannelInfo {
                    integer_value: readings@[i],
                    is_suspicious: classified(readings@[i], SUSPICIOUS_LIMIT),
                }),
    {
        let policy = SuspicionPolicy::new();
        let dataset = ChannelDataset::from_readings(readings, policy.threshold());
        Self::bootstrap(dataset, policy)
    }

    /// Select a channel by its one-based number; numbers outside `1..=9`
    /// are rejected and leave the machine unchanged.
    pub fn select_channel(&mut self, number: usize) -> (r: Result<(), CommandError>)
        requires
            old(self).wf(),
        ensures
            final(self).wf(),
            1 <= number <= CHANNELS_COUNT ==> r == Ok::<(), CommandError>(())
                && final(self)@ == spec_select_channel(old(self)@, number),
            !(1 <= number <= CHANNELS_COUNT) ==> r == Err::<(), CommandError>(
                CommandError::IndexOutOfRange,
            ) && *final(self) == *old(self),
    {
        if number < 1 || number > CHANNELS_COUNT {
            return Err(CommandError::IndexOutOfRange);
        }
        let r = self.cursor.select(number - 1);
        r
    }

    /// Shift the current selection by `delta`, wrapping around; never
    /// fails. Falls back to selecting channel 1 when nothing is selected.
    pub fn shift_channel(&mut self, delta: i32)
        requires
            old(self).wf(),
        ensures
            final(self).wf(),
            final(self)@ == spec_shift_channel(old(self)@, delta),
    {
        self.cursor.shift(delta);
    }

    /// Empty one cursor slot; the other slot and all channel data are
    /// untouched. Never fails, also on an already-empty slot.
    pub fn clear_row(&mut self, row: ChannelDataRow)
        requires
            old(self).wf(),
        ensures
            final(self).wf(),
            final(self)@ == spec_clear_row(old(self)@, row),
    {
        self.cursor.clear(row);
    }

    /// Store a new threshold without touching any channel's flag; values
    /// outside the domain bounds are rejected and leave the machine
    /// unchanged.
    pub fn set_threshold(&mut self, value: u32) -> (r: Result<(), CommandError>)
        requires
            old(self).wf(),
        ensures
            final(self).wf(),
            value_in_range(value) ==> r == Ok::<(), CommandError>(())
                && final(self)@ == spec_set_threshold(old(self)@, value),
            !value_in_range(value) ==> r == Err::<(), CommandError>(CommandError::ValueOutOfRange)
                && *final(self) == *old(self),
    {
        let r = self.policy.set_threshold(value);
        r
    }

    /// Commit the stored threshold: reclassify every channel against it.
    /// Readings, cursor and threshold are untouched. Never fails.
    pub fn update_suspicious(&mut self)
        requires
            old(self).wf(),
        ensures
            final(self).wf(),
            final(self)@ =~= spec_apply_threshold(old(self)@),
    {
        self.policy.apply(&mut self.dataset);
    }

    /// Dispatch one command, validating it first; a rejected command
    /// leaves all state unchanged.
    pub fn handle_command(&mut self, cmd: Command) -> (r: Result<(), CommandError>)
        requires
            old(self).wf(),
        ensures
            final(self).wf(),
            match cmd {
                Command::SelectChannel(number) => {
                    &&& 1 <= number <= CHANNELS_COUNT ==> r == Ok::<(), CommandError>(())
                        && final(self)@ == spec_select_channel(old(self)@, number)
                    &&& !(1 <= number <= CHANNELS_COUNT) ==> r == Err::<(), CommandError>(
                        CommandError::IndexOutOfRange,
                    ) && *final(self) == *old(self)
                },
                Command::ShiftChannel(delta) => r == Ok::<(), CommandError>(()) && final(self)@
                    == spec_shift_channel(old(self)@, delta),
                Command::ClearRow(row) => r == Ok::<(), CommandError>(()) && final(self)@
                    == spec_clear_row(old(self)@, row),
                Command::SetThreshold(value) => {
                    &&& value_in_range(value) ==> r == Ok::<(), CommandError>(()) && final(self)@
                        == spec_set_threshold(old(self)@, value)
                    &&& !value_in_range(value) ==> r == Err::<(), CommandError>(
                        CommandError::ValueOutOfRange,
                    ) && *final(self) == *old(self)
                },
                Command::ApplyThreshold => r == Ok::<(), CommandError>(()) && final(self)@
                    =~= spec_apply_threshold(old(self)@),
            },
    {
        match cmd {
            Command::SelectChannel(number) => self.select_channel(number),
            Command::ShiftChannel(delta) => {
                self.shift_channel(delta);
                Ok(())
            },
            Command::ClearRow(row) => {
                self.clear_row(row);
                Ok(())
            },
            Command::SetThreshold(value) => self.set_threshold(value),
            Command::ApplyThreshold => {
                self.update_suspicious();
                Ok(())
            },
        }
    }

    /// Derive the read-only snapshot: what each cursor slot exposes, the
    /// per-channel grid list, and the active threshold.
    pub fn snapshot(&self) -> (s: Snapshot)
        requires
            self.wf(),
        ensures
            s.current == spec_row_view(self@.channels, self@.cursor.current),
            s.previous == spec_row_view(self@.channels, self@.cursor.previous),
            s.threshold == self@.threshold,
            s.channels@.len() == CHANNELS_COUNT,
            forall|i: int|
                0 <= i < s.channels@.len() ==> #[trigger] s.channels@[i] == spec_channel_cell(
                    self@,
                    i,
                ),
    {
        let current = self.row_view(self.cursor.current());
        let previous = self.row_view(self.cursor.previous());
        let mut channels: Vec<ChannelCell> = Vec::new();
        for k in 0..CHANNELS_COUNT
            invariant
                self.wf(),
                channels@.len() == k,
                forall|i: int|
                    0 <= i < k ==> #[trigger] channels@[i] == spec_channel_cell(self@, i),
        {
            let info = self.dataset.channels[k];
            let is_current = match self.cursor.current {
                Some(c) => c == k,
                None => false,
            };
            channels.push(
                ChannelCell {
                    channel_number: k + 1,
                    integer_value: info.integer_value,
                    is_suspicious: info.is_suspicious,
                    is_current,
                },
            );
        }
        Snapshot { current, previous, channels, threshold: self.policy.threshold() }
    }

    /// What one cursor slot exposes, given the slot's content.
    fn row_view(&self, slot: Option<usize>) -> (r: Option<RowView>)
        requires
            self.wf(),
            slot_wf(slot),
        ensures
            r == spec_row_view(self@.channels, slot),
    {
        match slot {
            None => None,
            Some(i) => {
                let info = self.dataset.channels[i];
                Some(
                    RowView {
                        integer_value: info.integer_value,
                        is_suspicious: info.is_suspicious,
                        channel_number: i + 1,
                    },
                )
            },
        }
    }
}

} // verus!
