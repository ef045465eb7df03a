use respeaker::binary32::Binary32;

fn reference(mantissa: i32, exponent: i32) -> f32 {
    (f64::from(mantissa) * f64::from(exponent).exp2()) as f32
}

fn agrees(mantissa: i32, exponent: i32) {
    let expected = reference(mantissa, exponent);
    let got = Binary32::from_scaled(mantissa, exponent);
    if expected.is_nan() {
        assert!(f32::from_bits(got.to_bits()).is_nan(), "{mantissa} {exponent}");
    } else {
        assert_eq!(got.to_bits(), expected.to_bits(), "{mantissa} * 2^{exponent}");
    }
}

#[test]
fn scaled_fifteen_thousand_over_1024() {
    let got = Binary32::from_scaled(15000, -10);
    assert_eq!(got.to_bits(), 14.6484375f32.to_bits());
    assert!((f32::from_bits(got.to_bits()) - 14.648).abs() < 1e-3);
}

#[test]
fn scaled_agrees_with_float_arithmetic_on_a_grid() {
    let mantissas: [i32; 24] = [
        0, 1, -1, 2, 3, 5, 7, 255, 256, 15000, -15000, 8388607, 8388608, 8388609, 16777215,
        16777216, 16777217, 16777219, 33554433, 0x7fff_ffff, -0x7fff_ffff, i32::MIN,
        0x7fff_ff80, 0x7fff_ff40,
    ];
    for m in mantissas {
        for e in -1100..1100 {
            agrees(m, e);
        }
        for e in [i32::MIN, i32::MIN + 1, -100000, 100000, i32::MAX - 1, i32::MAX] {
            agrees(m, e);
        }
    }
}

#[test]
fn scaled_agrees_with_float_arithmetic_on_scattered_mantissas() {
    let mut state: u64 = 0x9e37_79b9_7f4a_7c15;
    for _ in 0..20000 {
        state = state.wrapping_mul(6364136223846793005).wrapping_add(1442695040888963407);
        let m = (state >> 32) as u32 as i32;
        state = state.wrapping_mul(6364136223846793005).wrapping_add(1442695040888963407);
        let e = ((state >> 33) % 400) as i32 - 200;
        agrees(m, e);
    }
}
