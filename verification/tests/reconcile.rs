use respeaker::binary32::Binary32;
use respeaker::cache::ParamState;
use respeaker::params::ParamKind;
use respeaker::reconcile::{pending_writes, PendingWrite, Reconciler};
use respeaker::respeaker_device::{DeviceError, ReSpeakerDevice, TransportError};
use respeaker::usb::{InterfaceId, ValidationError};
use respeaker::value::Value;

fn float(x: f32) -> Binary32 {
    Binary32::from_bits(x.to_bits())
}

fn device() -> ReSpeakerDevice {
    let interfaces = [InterfaceId { class_code: 0xfe, sub_class_code: 1, interface_number: 3 }];
    ReSpeakerDevice::open(0, &interfaces, ParamState::new()).unwrap()
}

fn state(values: &[(ParamKind, Value)]) -> ParamState {
    let mut state = ParamState::new();
    for (kind, value) in values {
        state.set(*kind, *value);
    }
    state
}

#[test]
fn one_changed_value_gives_one_write() {
    let a = ParamKind::HPFONOFF;
    let b = ParamKind::MIN_NS;
    let previous = state(&[(a, Value::Int(1)), (b, Value::Float(float(0.5)))]);
    let current = state(&[(a, Value::Int(1)), (b, Value::Float(float(0.7)))]);
    assert_eq!(
        pending_writes(&previous, &current),
        vec![PendingWrite { kind: b, value: Value::Float(float(0.7)) }]
    );
}

#[test]
fn one_changed_value_is_written_once() {
    let a = ParamKind::HPFONOFF;
    let b = ParamKind::MIN_NS;
    let mut device = device();
    let mut loop_state = Reconciler::new(state(&[(a, Value::Int(1)), (b, Value::Float(float(0.5)))]));
    let current = state(&[(a, Value::Int(1)), (b, Value::Float(float(0.7)))]);

    let mut sent: Vec<(ParamKind, Vec<u8>)> = Vec::new();
    let mut outcomes = Vec::new();
    for write in loop_state.plan(&current) {
        let transfer = device.write_request(&write.kind, &write.value).unwrap();
        sent.push((write.kind, transfer.payload.clone()));
        outcomes.push(Ok(transfer.payload.len()));
    }
    assert_eq!(loop_state.tick(&mut device, &current, &outcomes), Ok(1));
    assert_eq!(sent.len(), 1);
    assert_eq!(sent[0].0, b);
    let mut payload = 10i32.to_le_bytes().to_vec();
    payload.extend_from_slice(&0.7f32.to_le_bytes());
    payload.extend_from_slice(&0i32.to_le_bytes());
    assert_eq!(sent[0].1, payload);
    assert_eq!(device.params().get(b), Some(Value::Float(float(0.7))));

    assert!(loop_state.plan(&current).is_empty());
    assert_eq!(loop_state.tick(&mut device, &current, &vec![]), Ok(0));
}

#[test]
fn nothing_is_written_where_nothing_changed() {
    let values = state(&[
        (ParamKind::HPFONOFF, Value::Int(1)),
        (ParamKind::MIN_NS, Value::Float(float(0.5))),
        (ParamKind::DOAANGLE, Value::Int(12)),
    ]);
    assert!(pending_writes(&values, &values.snapshot()).is_empty());
    assert!(pending_writes(&ParamState::new(), &ParamState::new()).is_empty());
}

#[test]
fn a_read_only_value_is_never_written_back() {
    let previous = state(&[(ParamKind::DOAANGLE, Value::Int(12)), (ParamKind::RT60, Value::Float(float(0.3)))]);
    let current = state(&[(ParamKind::DOAANGLE, Value::Int(13)), (ParamKind::RT60, Value::Float(float(0.4)))]);
    assert!(pending_writes(&previous, &current).is_empty());
    assert!(pending_writes(&ParamState::new(), &current).is_empty());
}

#[test]
fn writes_come_in_the_order_of_registration() {
    let previous = ParamState::new();
    let current = state(&[
        (ParamKind::TRANSIENTONOFF, Value::Int(1)),
        (ParamKind::AECNORM, Value::Float(float(2.0))),
        (ParamKind::HPFONOFF, Value::Int(3)),
        (ParamKind::VOICEACTIVITY, Value::Int(1)),
    ]);
    assert_eq!(
        pending_writes(&previous, &current),
        vec![
            PendingWrite { kind: ParamKind::AECNORM, value: Value::Float(float(2.0)) },
            PendingWrite { kind: ParamKind::HPFONOFF, value: Value::Int(3) },
            PendingWrite { kind: ParamKind::TRANSIENTONOFF, value: Value::Int(1) },
        ]
    );
}

#[test]
fn a_value_that_went_away_is_not_written() {
    let previous = state(&[(ParamKind::HPFONOFF, Value::Int(1))]);
    assert!(pending_writes(&previous, &ParamState::new()).is_empty());
}

#[test]
fn the_two_zeros_do_not_differ_and_a_nan_always_does() {
    let kind = ParamKind::MIN_NS;
    let plus = state(&[(kind, Value::Float(float(0.0)))]);
    let minus = state(&[(kind, Value::Float(float(-0.0)))]);
    assert!(pending_writes(&plus, &minus).is_empty());
    let nan = state(&[(kind, Value::Float(float(f32::NAN)))]);
    assert_eq!(pending_writes(&nan, &nan.snapshot()).len(), 1);
}

#[test]
fn a_change_of_sort_is_a_change() {
    let kind = ParamKind::HPFONOFF;
    let previous = state(&[(kind, Value::Int(1))]);
    let current = state(&[(kind, Value::Float(float(1.0)))]);
    assert_eq!(
        pending_writes(&previous, &current),
        vec![PendingWrite { kind, value: Value::Float(float(1.0)) }]
    );
}

#[test]
fn a_tick_adopts_the_cache_when_every_write_is_made() {
    let mut device = device();
    let mut loop_state = Reconciler::new(ParamState::new());
    let current = state(&[
        (ParamKind::HPFONOFF, Value::Int(3)),
        (ParamKind::AECNORM, Value::Float(float(2.0))),
        (ParamKind::DOAANGLE, Value::Int(77)),
    ]);
    assert_eq!(loop_state.tick(&mut device, &current, &vec![Ok(12), Ok(12)]), Ok(2));
    assert_eq!(loop_state.previous().get(ParamKind::HPFONOFF), Some(Value::Int(3)));
    assert_eq!(loop_state.previous().get(ParamKind::AECNORM), Some(Value::Float(float(2.0))));
    assert_eq!(loop_state.previous().get(ParamKind::DOAANGLE), Some(Value::Int(77)));
    assert_eq!(device.params().get(ParamKind::HPFONOFF), Some(Value::Int(3)));
    assert_eq!(device.params().get(ParamKind::AECNORM), Some(Value::Float(float(2.0))));
    assert_eq!(device.params().get(ParamKind::DOAANGLE), None);
}

#[test]
fn a_failed_tick_keeps_what_was_written() {
    let mut device = device();
    let mut loop_state = Reconciler::new(state(&[(ParamKind::TRANSIENTONOFF, Value::Int(0))]));
    let current = state(&[
        (ParamKind::AECNORM, Value::Float(float(2.0))),
        (ParamKind::HPFONOFF, Value::Int(3)),
        (ParamKind::TRANSIENTONOFF, Value::Int(1)),
    ]);
    let outcomes = vec![Ok(12), Err(TransportError::Timeout), Ok(12)];
    assert_eq!(
        loop_state.tick(&mut device, &current, &outcomes),
        Err(DeviceError::Transport(TransportError::Timeout))
    );
    assert_eq!(loop_state.previous().get(ParamKind::AECNORM), Some(Value::Float(float(2.0))));
    assert_eq!(loop_state.previous().get(ParamKind::HPFONOFF), None);
    assert_eq!(loop_state.previous().get(ParamKind::TRANSIENTONOFF), Some(Value::Int(0)));
    assert_eq!(device.params().get(ParamKind::AECNORM), Some(Value::Float(float(2.0))));
    assert_eq!(device.params().get(ParamKind::HPFONOFF), None);
    assert_eq!(device.params().get(ParamKind::TRANSIENTONOFF), None);
    assert_eq!(
        loop_state.plan(&current),
        vec![
            PendingWrite { kind: ParamKind::HPFONOFF, value: Value::Int(3) },
            PendingWrite { kind: ParamKind::TRANSIENTONOFF, value: Value::Int(1) },
        ]
    );
}

#[test]
fn a_tick_stops_at_a_value_that_may_not_be_written() {
    let mut device = device();
    let mut loop_state = Reconciler::new(ParamState::new());
    let current = state(&[
        (ParamKind::AECNORM, Value::Float(float(2.0))),
        (ParamKind::HPFONOFF, Value::Int(9)),
        (ParamKind::TRANSIENTONOFF, Value::Int(1)),
    ]);
    assert_eq!(
        loop_state.tick(&mut device, &current, &vec![Ok(12)]),
        Err(DeviceError::Validation(ValidationError::OutOfRange {
            min: Value::Int(0),
            max: Value::Int(3),
            actual: Value::Int(9)
        }))
    );
    assert_eq!(loop_state.previous().get(ParamKind::AECNORM), Some(Value::Float(float(2.0))));
    assert_eq!(loop_state.previous().get(ParamKind::TRANSIENTONOFF), None);
}

#[test]
fn a_tick_wants_an_outcome_for_each_write() {
    let mut device = device();
    let mut loop_state = Reconciler::new(ParamState::new());
    let current = state(&[
        (ParamKind::AECNORM, Value::Float(float(2.0))),
        (ParamKind::HPFONOFF, Value::Int(3)),
    ]);
    assert_eq!(loop_state.tick(&mut device, &current, &vec![Ok(12)]), Err(DeviceError::NoOutcome));
    assert_eq!(loop_state.previous().get(ParamKind::AECNORM), Some(Value::Float(float(2.0))));
    assert_eq!(loop_state.previous().get(ParamKind::HPFONOFF), None);
}

#[test]
fn write_each_counts_the_writes_made() {
    let mut device = device();
    let plan = vec![
        PendingWrite { kind: ParamKind::HPFONOFF, value: Value::Int(1) },
        PendingWrite { kind: ParamKind::AGCONOFF, value: Value::Int(1) },
    ];
    assert_eq!(device.write_each(&plan, &vec![Ok(12), Ok(12)]), (2, None));
    assert_eq!(
        device.write_each(&plan, &vec![Err(TransportError::Io)]),
        (0, Some(DeviceError::Transport(TransportError::Io)))
    );
    device.close();
    assert_eq!(device.write_each(&plan, &vec![]), (0, Some(DeviceError::Closed)));
    assert_eq!(device.write_each(&vec![], &vec![]), (0, None));
}
