use respeaker::binary32::Binary32;
use respeaker::params::{Access, ParamKind, ParamType, ParseError, KIND_COUNT};
use respeaker::value::Value;

fn float(x: f32) -> Binary32 {
    Binary32::from_bits(x.to_bits())
}

fn registration_order() -> Vec<ParamKind> {
    vec![
        ParamKind::AECFREEZEONOFF,
        ParamKind::AECNORM,
        ParamKind::AECPATHCHANGE,
        ParamKind::AECSILENCELEVEL,
        ParamKind::AECSILENCEMODE,
        ParamKind::AGCDESIREDLEVEL,
        ParamKind::AGCGAIN,
        ParamKind::AGCMAXGAIN,
        ParamKind::AGCONOFF,
        ParamKind::AGCTIME,
        ParamKind::CNIONOFF,
        ParamKind::DOAANGLE,
        ParamKind::ECHOONOFF,
        ParamKind::FREEZEONOFF,
        ParamKind::FSBPATHCHANGE,
        ParamKind::FSBUPDATED,
        ParamKind::GAMMAVAD_SR,
        ParamKind::GAMMA_E,
        ParamKind::GAMMA_ENL,
        ParamKind::GAMMA_ETAIL,
        ParamKind::GAMMA_NN,
        ParamKind::GAMMA_NN_SR,
        ParamKind::GAMMA_NS,
        ParamKind::GAMMA_NS_SR,
        ParamKind::HPFONOFF,
        ParamKind::MIN_NN,
        ParamKind::MIN_NN_SR,
        ParamKind::MIN_NS,
        ParamKind::MIN_NS_SR,
        ParamKind::NLAEC_MODE,
        ParamKind::NLATTENONOFF,
        ParamKind::NONSTATNOISEONOFF,
        ParamKind::NONSTATNOISEONOFF_SR,
        ParamKind::RT60,
        ParamKind::RT60ONOFF,
        ParamKind::SPEECHDETECTED,
        ParamKind::STATNOISEONOFF,
        ParamKind::STATNOISEONOFF_SR,
        ParamKind::TRANSIENTONOFF,
        ParamKind::VOICEACTIVITY,
    ]
}

fn display_order() -> Vec<ParamKind> {
    vec![
        ParamKind::AECFREEZEONOFF,
        ParamKind::AGCONOFF,
        ParamKind::CNIONOFF,
        ParamKind::ECHOONOFF,
        ParamKind::FREEZEONOFF,
        ParamKind::HPFONOFF,
        ParamKind::NLAEC_MODE,
        ParamKind::NLATTENONOFF,
        ParamKind::NONSTATNOISEONOFF,
        ParamKind::NONSTATNOISEONOFF_SR,
        ParamKind::RT60ONOFF,
        ParamKind::STATNOISEONOFF,
        ParamKind::STATNOISEONOFF_SR,
        ParamKind::TRANSIENTONOFF,
        ParamKind::AECNORM,
        ParamKind::AECSILENCELEVEL,
        ParamKind::AGCDESIREDLEVEL,
        ParamKind::AGCGAIN,
        ParamKind::AGCMAXGAIN,
        ParamKind::AGCTIME,
        ParamKind::GAMMAVAD_SR,
        ParamKind::GAMMA_E,
        ParamKind::GAMMA_ENL,
        ParamKind::GAMMA_ETAIL,
        ParamKind::GAMMA_NN,
        ParamKind::GAMMA_NN_SR,
        ParamKind::GAMMA_NS,
        ParamKind::GAMMA_NS_SR,
        ParamKind::MIN_NN,
        ParamKind::MIN_NN_SR,
        ParamKind::MIN_NS,
        ParamKind::MIN_NS_SR,
        ParamKind::AECPATHCHANGE,
        ParamKind::AECSILENCEMODE,
        ParamKind::DOAANGLE,
        ParamKind::FSBPATHCHANGE,
        ParamKind::FSBUPDATED,
        ParamKind::SPEECHDETECTED,
        ParamKind::VOICEACTIVITY,
        ParamKind::RT60,
    ]
}

#[test]
fn all_lists_every_kind_in_registration_order() {
    assert_eq!(ParamKind::all(), registration_order());
    assert_eq!(ParamKind::all().len(), KIND_COUNT);
}

#[test]
fn index_and_from_index_are_inverse() {
    for (i, kind) in registration_order().into_iter().enumerate() {
        assert_eq!(kind.index(), i);
        assert_eq!(ParamKind::from_index(i), Some(kind));
    }
    assert_eq!(ParamKind::from_index(KIND_COUNT), None);
    assert_eq!(ParamKind::from_index(usize::MAX), None);
}

#[test]
fn name_is_the_declared_name() {
    for kind in ParamKind::all() {
        assert_eq!(kind.name(), format!("{kind:?}"));
    }
    assert_eq!(ParamKind::GAMMA_NN_SR.name(), "GAMMA_NN_SR");
}

#[test]
fn sorted_is_the_display_order() {
    assert_eq!(ParamKind::sorted(), display_order());
}

#[test]
fn sorted_is_the_same_at_every_call() {
    assert_eq!(ParamKind::sorted(), ParamKind::sorted());
    for kind in ParamKind::all() {
        let a = kind.def();
        let b = kind.def();
        assert_eq!(a.kind, b.kind);
        assert_eq!(a.id, b.id);
        assert_eq!(a.cmd, b.cmd);
        assert_eq!(a.access, b.access);
        assert_eq!(a.param_type, b.param_type);
        assert_eq!(a.description, b.description);
        assert_eq!(a.value_descriptions, b.value_descriptions);
    }
}

#[test]
fn sorted_is_a_stable_permutation_of_all() {
    let sorted = ParamKind::sorted();
    let all = ParamKind::all();
    assert_eq!(sorted.len(), all.len());
    for kind in &all {
        assert_eq!(sorted.iter().filter(|k| *k == kind).count(), 1);
    }
    for pair in sorted.windows(2) {
        let (a, b) = (pair[0], pair[1]);
        assert!(a.rank() <= b.rank());
        if a.rank() == b.rank() {
            assert!(a.index() < b.index());
        }
    }
    let mut expected = all.clone();
    expected.sort_by_key(|k| {
        let def = k.def();
        (
            match def.access {
                Access::ReadOnly => 1,
                Access::ReadWrite => 0,
            },
            if def.param_type.is_int() { 0 } else { 1 },
        )
    });
    assert_eq!(sorted, expected);
}

#[test]
fn rank_puts_writable_first_and_integers_first() {
    assert_eq!(ParamKind::HPFONOFF.rank(), 0);
    assert_eq!(ParamKind::AECNORM.rank(), 1);
    assert_eq!(ParamKind::DOAANGLE.rank(), 2);
    assert_eq!(ParamKind::RT60.rank(), 3);
}

#[test]
fn read_only_lists_the_eight_read_only_kinds() {
    assert_eq!(
        ParamKind::read_only(),
        vec![
            ParamKind::AECPATHCHANGE,
            ParamKind::AECSILENCEMODE,
            ParamKind::DOAANGLE,
            ParamKind::FSBPATHCHANGE,
            ParamKind::FSBUPDATED,
            ParamKind::RT60,
            ParamKind::SPEECHDETECTED,
            ParamKind::VOICEACTIVITY,
        ]
    );
}

#[test]
fn def_of_a_float_parameter() {
    let def = ParamKind::AECNORM.def();
    assert_eq!(def.kind, ParamKind::AECNORM);
    assert_eq!(def.id, 18);
    assert_eq!(def.cmd, 19);
    assert_eq!(def.access, Access::ReadWrite);
    assert_eq!(def.param_type, ParamType::FloatRange { min: float(0.25), max: float(16.0) });
    assert_eq!(def.description, "Limit on norm of AEC filter coefficients");
    assert!(def.value_descriptions.is_empty());
    assert!(!def.param_type.is_int());
    assert_eq!(def.min(), Value::Float(float(0.25)));
    assert_eq!(def.max(), Value::Float(float(16.0)));
}

#[test]
fn def_of_a_discrete_parameter() {
    let def = ParamKind::HPFONOFF.def();
    assert_eq!(def.id, 18);
    assert_eq!(def.cmd, 27);
    assert_eq!(def.access, Access::ReadWrite);
    assert_eq!(def.param_type, ParamType::IntDiscete { min: 0, max: 3 });
    assert_eq!(def.description, "High-pass Filter on microphone signals.");
    assert_eq!(
        def.value_descriptions,
        ["0 = OFF", "1 = ON - 70 Hz cut-off", "2 = ON - 125 Hz cut-off", "3 = ON - 180 Hz cut-off"]
    );
    assert!(def.param_type.is_int());
    assert_eq!(def.min(), Value::Int(0));
    assert_eq!(def.max(), Value::Int(3));
}

#[test]
fn def_of_the_angle() {
    let def = ParamKind::DOAANGLE.def();
    assert_eq!(def.id, 21);
    assert_eq!(def.cmd, 0);
    assert_eq!(def.access, Access::ReadOnly);
    assert_eq!(def.param_type, ParamType::IntRange { min: 0, max: 359 });
    assert_eq!(def.value_descriptions, ["[0 .. 359] Angle"]);
    assert_eq!(
        def.description,
        "DOA angle. Current value. Orientation depends on build configuration."
    );
}

#[test]
fn def_keeps_the_padding_of_labels() {
    assert_eq!(ParamKind::AGCONOFF.def().value_descriptions, ["0 = OFF ", "1 = ON"]);
    assert_eq!(ParamKind::AGCONOFF.def().description, "Automatic Gain Control. ");
    assert_eq!(
        ParamKind::AECSILENCEMODE.def().value_descriptions,
        ["0 = false (signal detected) ", "1 = true (silence detected)"]
    );
}

#[test]
fn float_bounds_are_the_patterns_of_the_decimal_bounds() {
    let expected: [(ParamKind, f32, f32); 19] = [
        (ParamKind::AECNORM, 0.25, 16.),
        (ParamKind::RT60, 0.25, 0.9),
        (ParamKind::AECSILENCELEVEL, 1e-09, 1.),
        (ParamKind::AGCMAXGAIN, 1., 1000.),
        (ParamKind::AGCDESIREDLEVEL, 1e-08, 0.99),
        (ParamKind::AGCGAIN, 1., 1000.),
        (ParamKind::AGCTIME, 0.1, 1.),
        (ParamKind::GAMMA_NS, 0., 3.),
        (ParamKind::MIN_NS, 0., 1.),
        (ParamKind::GAMMA_NN, 0., 3.),
        (ParamKind::MIN_NN, 0., 1.),
        (ParamKind::GAMMA_E, 0., 3.),
        (ParamKind::GAMMA_ETAIL, 0., 3.),
        (ParamKind::GAMMA_ENL, 0., 5.),
        (ParamKind::GAMMA_NS_SR, 0., 3.),
        (ParamKind::GAMMA_NN_SR, 0., 3.),
        (ParamKind::MIN_NS_SR, 0., 1.),
        (ParamKind::MIN_NN_SR, 0., 1.),
        (ParamKind::GAMMAVAD_SR, 0., 1000.),
    ];
    for (kind, min, max) in expected {
        match kind.def().param_type {
            ParamType::FloatRange { min: lo, max: hi } => {
                assert_eq!(lo.to_bits(), min.to_bits(), "{kind:?}");
                assert_eq!(hi.to_bits(), max.to_bits(), "{kind:?}");
            }
            _ => panic!("{kind:?} is not a float parameter"),
        }
    }
    let floats = ParamKind::all().into_iter().filter(|k| !k.def().param_type.is_int()).count();
    assert_eq!(floats, expected.len());
}

#[test]
fn discrete_parameters_have_a_label_for_each_value() {
    for kind in ParamKind::all() {
        let def = kind.def();
        match def.param_type {
            ParamType::IntDiscete { min, max } => {
                assert_eq!(min, 0);
                assert_eq!(def.value_descriptions.len(), (max + 1) as usize);
            }
            ParamType::IntRange { min, max } => assert!(min <= max),
            ParamType::FloatRange { min, max } => {
                assert!(f32::from_bits(min.to_bits()) <= f32::from_bits(max.to_bits()));
                assert!(def.value_descriptions.is_empty());
            }
        }
    }
}

#[test]
fn addresses_are_distinct_and_commands_leave_the_flags_free() {
    let all = ParamKind::all();
    for a in &all {
        assert!(a.def().cmd < 64);
        assert_eq!(a.def().kind, *a);
        for b in &all {
            if a != b {
                assert!((a.def().id, a.def().cmd) != (b.def().id, b.def().cmd));
            }
        }
    }
}

#[test]
fn access_of_each_kind() {
    let read_only = ParamKind::read_only();
    for kind in ParamKind::all() {
        let expected =
            if read_only.contains(&kind) { Access::ReadOnly } else { Access::ReadWrite };
        assert_eq!(kind.def().access, expected);
    }
    assert_eq!(read_only.len(), 8);
}

#[test]
fn parse_value_of_an_integer_parameter() {
    assert_eq!(ParamKind::HPFONOFF.parse_value("2", None), Ok(Value::Int(2)));
    assert_eq!(ParamKind::DOAANGLE.parse_value("-17", None), Ok(Value::Int(-17)));
    assert_eq!(ParamKind::DOAANGLE.parse_value("+359", None), Ok(Value::Int(359)));
    assert_eq!(ParamKind::DOAANGLE.parse_value("2147483647", None), Ok(Value::Int(i32::MAX)));
    assert_eq!(ParamKind::HPFONOFF.parse_value("2", Some(float(2.0))), Ok(Value::Int(2)));
}

#[test]
fn parse_value_refuses_what_is_no_integer() {
    assert_eq!(ParamKind::HPFONOFF.parse_value("two", None), Err(ParseError::MustBeInt));
    assert_eq!(ParamKind::HPFONOFF.parse_value("", None), Err(ParseError::MustBeInt));
    assert_eq!(ParamKind::HPFONOFF.parse_value(" 2", None), Err(ParseError::MustBeInt));
    assert_eq!(ParamKind::HPFONOFF.parse_value("2147483648", None), Err(ParseError::MustBeInt));
    assert_eq!(
        ParamKind::HPFONOFF.parse_value("1.5", Some(float(1.5))),
        Err(ParseError::MustBeInt)
    );
}

#[test]
fn parse_value_of_a_float_parameter() {
    let text = "0.7";
    let parsed = text.parse::<f32>().ok().map(float);
    assert_eq!(ParamKind::MIN_NS.parse_value(text, parsed), Ok(Value::Float(float(0.7))));
    assert_eq!(ParamKind::MIN_NS.parse_value("3", Some(float(3.0))), Ok(Value::Float(float(3.0))));
    assert_eq!(ParamKind::MIN_NS.parse_value("x", None), Err(ParseError::MustBeFloat));
}

#[test]
fn value_from_parsed_goes_by_the_type_of_the_parameter() {
    assert_eq!(
        ParamKind::AGCONOFF.value_from_parsed(Some(1), Some(float(1.0))),
        Ok(Value::Int(1))
    );
    assert_eq!(
        ParamKind::AGCGAIN.value_from_parsed(Some(1), Some(float(1.0))),
        Ok(Value::Float(float(1.0)))
    );
    assert_eq!(ParamKind::AGCONOFF.value_from_parsed(None, Some(float(1.0))), Err(ParseError::MustBeInt));
    assert_eq!(ParamKind::AGCGAIN.value_from_parsed(Some(1), None), Err(ParseError::MustBeFloat));
}
