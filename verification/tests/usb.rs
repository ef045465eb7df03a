use respeaker::binary32::Binary32;
use respeaker::params::{Access, ParamKind, ParamType};
use respeaker::usb::{
    control_interface, is_mic_array, open_device, payload, read, read_command, read_request,
    reset, validate, ControlRead, DecodeError, InterfaceId, OpenError, ValidationError,
};
use respeaker::value::Value;

fn float(x: f32) -> Binary32 {
    Binary32::from_bits(x.to_bits())
}

fn response(mantissa: i32, exponent: i32) -> Vec<u8> {
    let mut bytes = mantissa.to_le_bytes().to_vec();
    bytes.extend_from_slice(&exponent.to_le_bytes());
    bytes
}

#[test]
fn read_command_of_an_integer_parameter_has_both_flags() {
    let def = ParamKind::HPFONOFF.def();
    assert_eq!(read_command(&def), 0x80 | 0x40 | 27);
    assert_eq!(read_command(&ParamKind::DOAANGLE.def()), 0xC0);
    for kind in ParamKind::all() {
        let def = kind.def();
        let mut expected = 0x80 | def.cmd;
        if def.param_type.is_int() {
            expected |= 0x40;
        }
        assert_eq!(read_command(&def), expected);
        assert_eq!(read_command(&def) & 0x3f, def.cmd);
    }
}

#[test]
fn read_command_of_a_float_parameter_has_the_read_flag_only() {
    assert_eq!(read_command(&ParamKind::AECNORM.def()), 0x80 | 19);
    assert_eq!(read_command(&ParamKind::GAMMAVAD_SR.def()), 0x80 | 39);
}

#[test]
fn read_request_is_a_vendor_read_of_eight_bytes() {
    assert_eq!(
        read_request(&ParamKind::HPFONOFF.def()),
        ControlRead {
            request_type: 0xC0,
            request: 0,
            value: 0xC0 | 27,
            index: 18,
            length: 8,
            timeout_ms: 2000
        }
    );
    assert_eq!(
        read_request(&ParamKind::AGCGAIN.def()),
        ControlRead {
            request_type: 0xC0,
            request: 0,
            value: 0x80 | 3,
            index: 19,
            length: 8,
            timeout_ms: 2000
        }
    );
    assert_eq!(
        read_request(&ParamKind::AGCGAIN.def()).request_type,
        rusb::request_type(rusb::Direction::In, rusb::RequestType::Vendor, rusb::Recipient::Device)
    );
}

#[test]
fn read_of_an_integer_parameter_is_the_mantissa() {
    let def = ParamKind::DOAANGLE.def();
    assert_eq!(read(&def, &response(270, 0)), Ok(Value::Int(270)));
    assert_eq!(read(&def, &response(270, 12345)), Ok(Value::Int(270)));
    assert_eq!(read(&def, &response(-1, -1)), Ok(Value::Int(-1)));
    assert_eq!(read(&def, &response(i32::MIN, 3)), Ok(Value::Int(i32::MIN)));
    assert_eq!(read(&def, &response(i32::MAX, 3)), Ok(Value::Int(i32::MAX)));
    assert_eq!(read(&def, &[0x78, 0x56, 0x34, 0x12, 0, 0, 0, 0]), Ok(Value::Int(0x12345678)));
}

#[test]
fn read_of_a_float_parameter_scales_the_mantissa() {
    let def = ParamKind::AGCGAIN.def();
    let value = read(&def, &response(15000, -10)).unwrap();
    match value {
        Value::Float(f) => {
            let x = f32::from_bits(f.to_bits());
            assert!((x - 14.648).abs() < 1e-3);
            assert_eq!(x, 15000.0 / 1024.0);
        }
        Value::Int(_) => panic!("an integer for a float parameter"),
    }
    assert_eq!(read(&def, &response(1, 0)), Ok(Value::Float(float(1.0))));
    assert_eq!(read(&def, &response(-3, -1)), Ok(Value::Float(float(-1.5))));
    assert_eq!(read(&def, &response(0, 0)), Ok(Value::Float(float(0.0))));
    assert_eq!(read(&def, &response(1, 200)), Ok(Value::Float(float(f32::INFINITY))));
}

#[test]
fn read_takes_the_first_eight_bytes_of_a_longer_response() {
    let mut bytes = response(7, 0);
    bytes.extend_from_slice(&[9, 9, 9]);
    assert_eq!(read(&ParamKind::DOAANGLE.def(), &bytes), Ok(Value::Int(7)));
}

#[test]
fn read_refuses_a_short_response() {
    let def = ParamKind::DOAANGLE.def();
    for length in 0..8 {
        let bytes = vec![1u8; length];
        assert_eq!(read(&def, &bytes), Err(DecodeError::ShortResponse { length }));
        assert_eq!(
            read(&ParamKind::AGCGAIN.def(), &bytes),
            Err(DecodeError::ShortResponse { length })
        );
    }
}

#[test]
fn payload_of_an_integer_write() {
    let def = ParamKind::HPFONOFF.def();
    assert_eq!(payload(&def, &Value::Int(2)), vec![27, 0, 0, 0, 2, 0, 0, 0, 1, 0, 0, 0]);
    assert_eq!(
        payload(&def, &Value::Int(-2)),
        vec![27, 0, 0, 0, 0xfe, 0xff, 0xff, 0xff, 1, 0, 0, 0]
    );
    assert_eq!(
        payload(&def, &Value::Int(0x12345678)),
        vec![27, 0, 0, 0, 0x78, 0x56, 0x34, 0x12, 1, 0, 0, 0]
    );
}

#[test]
fn payload_of_a_float_write_holds_the_pattern() {
    let def = ParamKind::AGCGAIN.def();
    assert_eq!(
        payload(&def, &Value::Float(float(1.5))),
        vec![3, 0, 0, 0, 0x00, 0x00, 0xc0, 0x3f, 0, 0, 0, 0]
    );
    let x = 0.7f32;
    let mut expected = 3i32.to_le_bytes().to_vec();
    expected.extend_from_slice(&x.to_le_bytes());
    expected.extend_from_slice(&0i32.to_le_bytes());
    assert_eq!(payload(&def, &Value::Float(float(x))), expected);
}

#[test]
fn payload_is_the_command_the_value_and_the_tag() {
    for kind in ParamKind::all() {
        let def = kind.def();
        for v in [0i32, 1, -1, 359, i32::MIN, i32::MAX] {
            let mut expected = i32::from(def.cmd).to_le_bytes().to_vec();
            expected.extend_from_slice(&v.to_le_bytes());
            expected.extend_from_slice(&1i32.to_le_bytes());
            assert_eq!(payload(&def, &Value::Int(v)), expected);
        }
    }
}

#[test]
fn write_is_a_vendor_write_to_the_page() {
    let transfer = respeaker::usb::write(&ParamKind::HPFONOFF.def(), &Value::Int(3)).unwrap();
    assert_eq!(transfer.request_type, 0x40);
    assert_eq!(transfer.request, 0);
    assert_eq!(transfer.value, 0);
    assert_eq!(transfer.index, 18);
    assert_eq!(transfer.payload, vec![27, 0, 0, 0, 3, 0, 0, 0, 1, 0, 0, 0]);
    assert_eq!(transfer.timeout_ms, 2000);
    assert_eq!(
        transfer.request_type,
        rusb::request_type(rusb::Direction::Out, rusb::RequestType::Vendor, rusb::Recipient::Device)
    );
}

#[test]
fn an_integer_written_and_read_back_is_unchanged() {
    for kind in ParamKind::all() {
        let def = kind.def();
        let (min, max) = match def.param_type {
            ParamType::IntDiscete { min, max } => (min, max),
            ParamType::IntRange { min, max } => (min, max),
            ParamType::FloatRange { .. } => continue,
        };
        for v in min..=max {
            let sent = payload(&def, &Value::Int(v));
            let mut back = sent[4..8].to_vec();
            back.extend_from_slice(&[0xaa, 0xbb, 0xcc, 0xdd]);
            assert_eq!(read(&def, &back), Ok(Value::Int(v)));
        }
    }
}

#[test]
fn a_float_for_an_integer_parameter_is_a_mismatch() {
    let def = ParamKind::HPFONOFF.def();
    assert_eq!(validate(&def, &Value::Float(float(1.0))), Err(ValidationError::TypeMismatch));
    assert_eq!(validate(&def, &Value::Float(float(1e30))), Err(ValidationError::TypeMismatch));
    assert_eq!(validate(&def, &Value::Float(float(f32::NAN))), Err(ValidationError::TypeMismatch));
    assert_eq!(
        validate(&def, &Value::Float(Binary32::from_bits(0xffff_ffff))),
        Err(ValidationError::TypeMismatch)
    );
    assert_eq!(respeaker::usb::write(&def, &Value::Float(float(1.0))), Err(ValidationError::TypeMismatch));
}

#[test]
fn an_integer_for_a_float_parameter_is_a_mismatch() {
    let def = ParamKind::AGCGAIN.def();
    assert_eq!(validate(&def, &Value::Int(1)), Err(ValidationError::TypeMismatch));
    assert_eq!(validate(&def, &Value::Int(100000)), Err(ValidationError::TypeMismatch));
}

#[test]
fn a_mismatch_comes_before_the_access() {
    assert_eq!(
        validate(&ParamKind::DOAANGLE.def(), &Value::Float(float(1.0))),
        Err(ValidationError::TypeMismatch)
    );
    assert_eq!(
        validate(&ParamKind::RT60.def(), &Value::Int(0)),
        Err(ValidationError::TypeMismatch)
    );
}

#[test]
fn the_bounds_of_an_integer_parameter_can_be_written() {
    let def = ParamKind::HPFONOFF.def();
    assert_eq!(validate(&def, &Value::Int(0)), Ok(()));
    assert_eq!(validate(&def, &Value::Int(3)), Ok(()));
    assert_eq!(
        validate(&def, &Value::Int(-1)),
        Err(ValidationError::OutOfRange {
            min: Value::Int(0),
            max: Value::Int(3),
            actual: Value::Int(-1)
        })
    );
    assert_eq!(
        validate(&def, &Value::Int(4)),
        Err(ValidationError::OutOfRange {
            min: Value::Int(0),
            max: Value::Int(3),
            actual: Value::Int(4)
        })
    );
}

#[test]
fn the_bounds_of_every_writable_parameter_can_be_written() {
    for kind in ParamKind::all() {
        let def = kind.def();
        if def.access != Access::ReadWrite {
            continue;
        }
        assert_eq!(validate(&def, &def.min()), Ok(()), "{kind:?}");
        assert_eq!(validate(&def, &def.max()), Ok(()), "{kind:?}");
        assert!(respeaker::usb::write(&def, &def.min()).is_ok());
        assert!(respeaker::usb::write(&def, &def.max()).is_ok());
        let (below, above) = match def.param_type {
            ParamType::IntDiscete { min, max } | ParamType::IntRange { min, max } => {
                (Value::Int(min - 1), Value::Int(max + 1))
            }
            ParamType::FloatRange { min, max } => (
                Value::Float(float(f32::from_bits(min.to_bits()) - 1.0)),
                Value::Float(float(f32::from_bits(max.to_bits()) + 1.0)),
            ),
        };
        for outside in [below, above] {
            assert_eq!(
                validate(&def, &outside),
                Err(ValidationError::OutOfRange { min: def.min(), max: def.max(), actual: outside }),
                "{kind:?}"
            );
        }
    }
}

#[test]
fn the_bounds_of_a_float_parameter_can_be_written() {
    let def = ParamKind::AECNORM.def();
    assert_eq!(validate(&def, &Value::Float(float(0.25))), Ok(()));
    assert_eq!(validate(&def, &Value::Float(float(16.0))), Ok(()));
    assert_eq!(validate(&def, &Value::Float(float(1.0))), Ok(()));
    let just_below = f32::from_bits(0.25f32.to_bits() - 1);
    let just_above = f32::from_bits(16.0f32.to_bits() + 1);
    for outside in [just_below, just_above, -1.0, 0.0, -0.0, 17.0, f32::INFINITY, f32::NEG_INFINITY] {
        assert_eq!(
            validate(&def, &Value::Float(float(outside))),
            Err(ValidationError::OutOfRange {
                min: Value::Float(float(0.25)),
                max: Value::Float(float(16.0)),
                actual: Value::Float(float(outside))
            }),
            "{outside}"
        );
    }
}

#[test]
fn a_nan_is_out_of_range() {
    let def = ParamKind::AECNORM.def();
    assert!(matches!(
        validate(&def, &Value::Float(float(f32::NAN))),
        Err(ValidationError::OutOfRange { .. })
    ));
}

#[test]
fn the_negative_zero_is_the_lower_bound_zero() {
    assert_eq!(validate(&ParamKind::MIN_NS.def(), &Value::Float(float(-0.0))), Ok(()));
}

#[test]
fn nothing_can_be_written_to_a_read_only_parameter() {
    let def = ParamKind::DOAANGLE.def();
    for v in [0, 1, 180, 359] {
        assert_eq!(validate(&def, &Value::Int(v)), Err(ValidationError::ReadOnlyViolation));
        assert_eq!(respeaker::usb::write(&def, &Value::Int(v)), Err(ValidationError::ReadOnlyViolation));
    }
    assert_eq!(
        validate(&ParamKind::RT60.def(), &Value::Float(float(0.5))),
        Err(ValidationError::ReadOnlyViolation)
    );
    for kind in ParamKind::read_only() {
        let def = kind.def();
        assert_eq!(validate(&def, &def.min()), Err(ValidationError::ReadOnlyViolation));
        assert_eq!(validate(&def, &def.max()), Err(ValidationError::ReadOnlyViolation));
    }
}

#[test]
fn the_range_comes_before_the_access() {
    assert_eq!(
        validate(&ParamKind::DOAANGLE.def(), &Value::Int(360)),
        Err(ValidationError::OutOfRange {
            min: Value::Int(0),
            max: Value::Int(359),
            actual: Value::Int(360)
        })
    );
}

#[test]
fn reset_is_a_class_request_to_the_interface() {
    let transfer = reset(3);
    assert_eq!(transfer.request_type, 0x21);
    assert_eq!(transfer.request, 0xF0);
    assert_eq!(transfer.value, 0);
    assert_eq!(transfer.index, 3);
    assert!(transfer.payload.is_empty());
    assert_eq!(transfer.timeout_ms, 2000);
    assert_eq!(
        transfer.request_type,
        rusb::request_type(rusb::Direction::Out, rusb::RequestType::Class, rusb::Recipient::Interface)
    );
    assert_eq!(reset(255).index, 255);
}

#[test]
fn open_device_takes_the_index_asked_for() {
    assert_eq!(open_device(Some(0), 1), Ok(0));
    assert_eq!(open_device(Some(2), 3), Ok(2));
    assert_eq!(open_device(Some(3), 3), Err(OpenError::IndexOutOfRange { index: 3, found: 3 }));
    assert_eq!(open_device(Some(0), 0), Err(OpenError::IndexOutOfRange { index: 0, found: 0 }));
}

#[test]
fn open_device_without_an_index_wants_one_device() {
    assert_eq!(open_device(None, 1), Ok(0));
    assert_eq!(open_device(None, 0), Err(OpenError::NoDevices));
    assert_eq!(open_device(None, 2), Err(OpenError::MultipleDevices));
    assert_eq!(open_device(None, usize::MAX), Err(OpenError::MultipleDevices));
}

#[test]
fn control_interface_is_the_first_of_its_class() {
    let audio = InterfaceId { class_code: 1, sub_class_code: 1, interface_number: 0 };
    let other = InterfaceId { class_code: 0xfe, sub_class_code: 2, interface_number: 1 };
    let first = InterfaceId { class_code: 0xfe, sub_class_code: 1, interface_number: 4 };
    let second = InterfaceId { class_code: 0xfe, sub_class_code: 1, interface_number: 5 };
    assert_eq!(control_interface(&[]), None);
    assert_eq!(control_interface(&[audio, other]), None);
    assert_eq!(control_interface(&[audio, other, first, second]), Some(4));
    assert_eq!(control_interface(&[second, first]), Some(5));
}

#[test]
fn the_microphone_array_is_known_by_its_ids() {
    assert!(is_mic_array(0x2886, 0x0018));
    assert!(!is_mic_array(0x2886, 0x0019));
    assert!(!is_mic_array(0x2887, 0x0018));
}
