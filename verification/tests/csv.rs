use respeaker::binary32::Binary32;
use respeaker::cache::ParamState;
use respeaker::csv::{header, row};
use respeaker::params::ParamKind;
use respeaker::recorder::keep_recording;
use respeaker::value::Value;

#[test]
fn header_names_the_timestamps_and_then_each_parameter() {
    let titles = header();
    assert_eq!(titles.len(), 42);
    assert_eq!(titles[0], "timestamp_before_read");
    assert_eq!(titles[1], "timestamp_after_read");
    let names: Vec<String> = ParamKind::sorted().iter().map(|k| format!("{k:?}")).collect();
    assert_eq!(titles[2..].to_vec(), names);
    assert_eq!(titles[2], "AECFREEZEONOFF");
    assert_eq!(titles[41], "RT60");
}

#[test]
fn row_holds_a_cell_for_each_parameter_in_display_order() {
    let mut values = ParamState::new();
    values.set(ParamKind::RT60, Value::Float(Binary32::from_bits(0.5f32.to_bits())));
    values.set(ParamKind::AECFREEZEONOFF, Value::Int(1));
    values.set(ParamKind::DOAANGLE, Value::Int(270));
    let cells = row(&values);
    assert_eq!(cells.len(), 40);
    let sorted = ParamKind::sorted();
    for (cell, kind) in cells.iter().zip(sorted.iter()) {
        assert_eq!(*cell, values.get(*kind));
    }
    assert_eq!(cells[0], Some(Value::Int(1)));
    assert_eq!(cells[1], None);
    assert_eq!(cells[34], Some(Value::Int(270)));
    assert_eq!(cells[39], Some(Value::Float(Binary32::from_bits(0.5f32.to_bits()))));
}

#[test]
fn row_of_an_empty_state_is_empty_cells() {
    assert_eq!(row(&ParamState::new()), vec![None; 40]);
}

#[test]
fn a_recording_goes_on_until_stopped_or_out_of_time() {
    assert!(keep_recording(true, 0, None));
    assert!(keep_recording(true, u64::MAX, None));
    assert!(keep_recording(true, 1500, Some(1500)));
    assert!(!keep_recording(true, 1501, Some(1500)));
    assert!(!keep_recording(false, 0, None));
    assert!(!keep_recording(false, 0, Some(1500)));
}

#[test]
fn a_snapshot_is_a_copy() {
    let mut values = ParamState::new();
    values.set(ParamKind::HPFONOFF, Value::Int(1));
    let copy = values.snapshot();
    values.set(ParamKind::HPFONOFF, Value::Int(2));
    values.set(ParamKind::AGCONOFF, Value::Int(1));
    assert_eq!(copy.get(ParamKind::HPFONOFF), Some(Value::Int(1)));
    assert_eq!(copy.get(ParamKind::AGCONOFF), None);
    assert_eq!(values.get(ParamKind::HPFONOFF), Some(Value::Int(2)));
    assert_eq!(values.clone().get(ParamKind::AGCONOFF), Some(Value::Int(1)));
}

#[test]
fn values_and_states_are_reached_through_the_table_module_too() {
    let mut values = respeaker::params::ParamState::new();
    values.set(ParamKind::HPFONOFF, respeaker::params::Value::Int(1));
    assert_eq!(values.get(ParamKind::HPFONOFF), Some(Value::Int(1)));
}
