use channel_machine::common::{
    ChannelInfo, CHANNELS_COUNT, HIGH_INTEGER_LIMIT, LOW_INTEGER_LIMIT, SUSPICIOUS_LIMIT,
};
use channel_machine::cursor::{ChannelDataRow, SelectionCursor};
use channel_machine::dataset::ChannelDataset;
use channel_machine::errors::CommandError;
use channel_machine::machine::{ChannelBasedApp, Command};
use channel_machine::policy::SuspicionPolicy;

fn seeded_readings() -> Vec<u32> {
    vec![10, 20, 30, 40, 50, 60, 70, 80, 90]
}

fn seeded_machine() -> ChannelBasedApp {
    ChannelBasedApp::with_readings(&seeded_readings())
}

#[test]
fn select_every_channel_reports_its_reading() {
    let readings = seeded_readings();
    for number in 1..=CHANNELS_COUNT {
        let mut m = seeded_machine();
        assert_eq!(m.select_channel(number), Ok(()));
        let s = m.snapshot();
        let row = s.current.expect("a selection must be exposed");
        assert_eq!(row.channel_number, number);
        assert_eq!(row.integer_value, readings[number - 1]);
    }
}

#[test]
fn clear_row_is_idempotent() {
    let mut once = seeded_machine();
    once.clear_row(ChannelDataRow::Current);
    let mut twice = seeded_machine();
    twice.clear_row(ChannelDataRow::Current);
    twice.clear_row(ChannelDataRow::Current);
    assert_eq!(once.snapshot(), twice.snapshot());

    let mut once_prev = seeded_machine();
    once_prev.clear_row(ChannelDataRow::Previous);
    let mut twice_prev = seeded_machine();
    twice_prev.clear_row(ChannelDataRow::Previous);
    twice_prev.clear_row(ChannelDataRow::Previous);
    assert_eq!(once_prev.snapshot(), twice_prev.snapshot());
}

#[test]
fn shift_wraps_around_both_ends() {
    let mut m = seeded_machine();
    assert_eq!(m.select_channel(1), Ok(()));
    m.shift_channel(-1);
    assert_eq!(m.cursor.current(), Some(CHANNELS_COUNT - 1));

    let mut m2 = seeded_machine();
    assert_eq!(m2.select_channel(CHANNELS_COUNT), Ok(()));
    m2.shift_channel(1);
    assert_eq!(m2.cursor.current(), Some(0));
}

#[test]
fn shift_handles_large_and_extreme_deltas() {
    let mut m = seeded_machine();
    assert_eq!(m.select_channel(3), Ok(()));
    m.shift_channel(9);
    assert_eq!(m.cursor.current(), Some(2));
    m.shift_channel(-19);
    assert_eq!(m.cursor.current(), Some(1));
    m.shift_channel(i32::MIN);
    // -2147483648 mod 9 leaves 7, so index 1 moves to 8
    assert_eq!(m.cursor.current(), Some(8));
    m.shift_channel(i32::MAX);
    // 2147483647 mod 9 leaves 1, so index 8 wraps to 0
    assert_eq!(m.cursor.current(), Some(0));
}

#[test]
fn history_tracks_old_current_selection() {
    let mut m = seeded_machine();
    assert_eq!(m.select_channel(4), Ok(()));
    assert_eq!(m.cursor.previous(), Some(0));
    assert_eq!(m.select_channel(8), Ok(()));
    assert_eq!(m.cursor.previous(), Some(3));
    m.shift_channel(2);
    assert_eq!(m.cursor.previous(), Some(7));
    assert_eq!(m.cursor.current(), Some(0));
}

#[test]
fn select_with_no_current_keeps_previous() {
    let mut m = seeded_machine();
    assert_eq!(m.select_channel(5), Ok(()));
    m.clear_row(ChannelDataRow::Current);
    assert_eq!(m.cursor.current(), None);
    let old_previous = m.cursor.previous();
    assert_eq!(m.select_channel(2), Ok(()));
    assert_eq!(m.cursor.current(), Some(1));
    assert_eq!(m.cursor.previous(), old_previous);
}

#[test]
fn shift_with_no_current_falls_back_to_first_channel() {
    let mut m = seeded_machine();
    m.clear_row(ChannelDataRow::Current);
    let old_previous = m.cursor.previous();
    m.shift_channel(-3);
    assert_eq!(m.cursor.current(), Some(0));
    assert_eq!(m.cursor.previous(), old_previous);
}

#[test]
fn clearing_one_row_leaves_the_other() {
    let mut m = seeded_machine();
    assert_eq!(m.select_channel(6), Ok(()));
    m.clear_row(ChannelDataRow::Previous);
    assert_eq!(m.cursor.previous(), None);
    assert_eq!(m.cursor.current(), Some(5));
    m.clear_row(ChannelDataRow::Current);
    assert_eq!(m.cursor.current(), None);
    assert_eq!(m.cursor.previous(), None);
}

#[test]
fn set_threshold_alone_changes_no_flag() {
    let mut m = seeded_machine();
    let before: Vec<bool> = m.snapshot().channels.iter().map(|c| c.is_suspicious).collect();
    assert_eq!(m.set_threshold(90), Ok(()));
    let after: Vec<bool> = m.snapshot().channels.iter().map(|c| c.is_suspicious).collect();
    assert_eq!(before, after);
    assert_eq!(m.snapshot().threshold, 90);
}

#[test]
fn apply_threshold_reclassifies_every_channel() {
    let mut m = seeded_machine();
    assert_eq!(m.set_threshold(90), Ok(()));
    m.update_suspicious();
    let s = m.snapshot();
    for cell in &s.channels {
        assert_eq!(cell.is_suspicious, cell.integer_value > 90);
    }
    // with readings 10..=90 nothing exceeds 90
    assert!(s.channels.iter().all(|c| !c.is_suspicious));
}

#[test]
fn out_of_range_select_is_rejected_without_effect() {
    let mut m = seeded_machine();
    assert_eq!(m.select_channel(3), Ok(()));
    let before = m.snapshot();
    assert_eq!(m.select_channel(0), Err(CommandError::IndexOutOfRange));
    assert_eq!(m.select_channel(CHANNELS_COUNT + 1), Err(CommandError::IndexOutOfRange));
    assert_eq!(m.snapshot(), before);
}

#[test]
fn out_of_range_threshold_is_rejected_without_effect() {
    let mut m = seeded_machine();
    let before = m.snapshot();
    assert_eq!(m.set_threshold(0), Err(CommandError::ValueOutOfRange));
    assert_eq!(m.set_threshold(101), Err(CommandError::ValueOutOfRange));
    assert_eq!(m.snapshot(), before);
}

#[test]
fn threshold_bounds_are_inclusive() {
    let mut m = seeded_machine();
    assert_eq!(m.set_threshold(LOW_INTEGER_LIMIT), Ok(()));
    assert_eq!(m.snapshot().threshold, LOW_INTEGER_LIMIT);
    assert_eq!(m.set_threshold(HIGH_INTEGER_LIMIT), Ok(()));
    assert_eq!(m.snapshot().threshold, HIGH_INTEGER_LIMIT);
}

#[test]
fn seeded_scenario_walkthrough() {
    let mut m = seeded_machine();
    let s0 = m.snapshot();
    assert_eq!(s0.threshold, 75);
    let row0 = s0.current.expect("bootstrap selects channel 1");
    assert_eq!(row0.channel_number, 1);
    assert_eq!(row0.integer_value, 10);
    assert!(!row0.is_suspicious);
    assert_eq!(s0.previous, None);

    m.shift_channel(7);
    let s1 = m.snapshot();
    let row1 = s1.current.expect("a shift always leaves a selection");
    assert_eq!(row1.channel_number, 8);
    assert_eq!(row1.integer_value, 80);
    assert!(row1.is_suspicious);
    assert_eq!(s1.previous.expect("history was kept").channel_number, 1);
}

#[test]
fn handle_command_drives_the_same_transitions() {
    let mut m = seeded_machine();
    assert_eq!(m.handle_command(Command::SelectChannel(4)), Ok(()));
    assert_eq!(m.cursor.current(), Some(3));
    assert_eq!(m.handle_command(Command::ShiftChannel(-4)), Ok(()));
    assert_eq!(m.cursor.current(), Some(8));
    assert_eq!(m.handle_command(Command::ClearRow(ChannelDataRow::Previous)), Ok(()));
    assert_eq!(m.cursor.previous(), None);
    assert_eq!(m.handle_command(Command::SetThreshold(40)), Ok(()));
    assert_eq!(m.handle_command(Command::ApplyThreshold), Ok(()));
    let s = m.snapshot();
    for cell in &s.channels {
        assert_eq!(cell.is_suspicious, cell.integer_value > 40);
    }
    assert_eq!(
        m.handle_command(Command::SelectChannel(0)),
        Err(CommandError::IndexOutOfRange)
    );
    assert_eq!(
        m.handle_command(Command::SetThreshold(200)),
        Err(CommandError::ValueOutOfRange)
    );
}

#[test]
fn snapshot_grid_lists_every_channel_once() {
    let mut m = seeded_machine();
    assert_eq!(m.select_channel(2), Ok(()));
    let s = m.snapshot();
    assert_eq!(s.channels.len(), CHANNELS_COUNT);
    let readings = seeded_readings();
    for (i, cell) in s.channels.iter().enumerate() {
        assert_eq!(cell.channel_number, i + 1);
        assert_eq!(cell.integer_value, readings[i]);
        assert_eq!(cell.is_suspicious, readings[i] > SUSPICIOUS_LIMIT);
        assert_eq!(cell.is_current, i == 1);
    }
}

#[test]
fn random_machine_holds_its_invariants() {
    let m = ChannelBasedApp::new();
    let s = m.snapshot();
    assert_eq!(s.threshold, SUSPICIOUS_LIMIT);
    assert_eq!(s.channels.len(), CHANNELS_COUNT);
    for cell in &s.channels {
        assert!((LOW_INTEGER_LIMIT..=HIGH_INTEGER_LIMIT).contains(&cell.integer_value));
        assert_eq!(cell.is_suspicious, cell.integer_value > SUSPICIOUS_LIMIT);
    }
    let row = s.current.expect("bootstrap selects channel 1");
    assert_eq!(row.channel_number, 1);
    assert_eq!(s.previous, None);
}

#[test]
fn dataset_get_checks_bounds() {
    let readings = seeded_readings();
    let d = ChannelDataset::from_readings(&readings, 75);
    assert_eq!(
        d.get(7),
        Ok(ChannelInfo { integer_value: 80, is_suspicious: true })
    );
    assert_eq!(
        d.get(0),
        Ok(ChannelInfo { integer_value: 10, is_suspicious: false })
    );
    assert_eq!(d.get(CHANNELS_COUNT), Err(CommandError::IndexOutOfRange));
    assert_eq!(d.get(usize::MAX), Err(CommandError::IndexOutOfRange));
}

#[test]
fn cursor_starts_empty_and_policy_at_default() {
    let c = SelectionCursor::new();
    assert_eq!(c.current(), None);
    assert_eq!(c.previous(), None);
    let p = SuspicionPolicy::new();
    assert_eq!(p.threshold(), SUSPICIOUS_LIMIT);
}
