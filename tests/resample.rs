use flov::resample::{resample, to_model_rate, MODEL_RATE};

fn lerp(a: f32, b: f32, w: u32, d: u32) -> f32 {
    let frac = w as f64 / d as f64;
    a * (1.0 - frac as f32) + b * frac as f32
}

fn sine(freq: f32, rate: u32, n: usize) -> Vec<f32> {
    (0..n)
        .map(|i| (2.0 * std::f32::consts::PI * freq * i as f32 / rate as f32).sin())
        .collect()
}

fn rising_zero_crossings(s: &[f32]) -> usize {
    s.windows(2).filter(|w| w[0] < 0.0 && w[1] >= 0.0).count()
}

#[test]
fn same_rate_is_identity() {
    let input: Vec<f32> = vec![0.5, -0.25, 1.0, f32::MIN_POSITIVE, -1.0, 0.1];
    let out = to_model_rate(input.clone(), MODEL_RATE, &lerp);
    assert_eq!(out.len(), input.len());
    for (a, b) in out.iter().zip(input.iter()) {
        assert_eq!(a.to_bits(), b.to_bits());
    }
    let out = resample(&input, 44100, 44100, &lerp);
    assert_eq!(out, input);
}

#[test]
fn double_rate_halves_and_keeps_frequency() {
    let input = sine(1000.0, 32000, 32000);
    let out = to_model_rate(input.clone(), 32000, &lerp);
    assert_eq!(out.len(), 16000);
    for i in 0..out.len() {
        assert_eq!(out[i], input[2 * i]);
    }
    // 1000 Hz over one second on both sides.
    let before = rising_zero_crossings(&input);
    let after = rising_zero_crossings(&out);
    assert!((before as i64 - 1000).abs() <= 1);
    assert!((after as i64 - 1000).abs() <= 1);
}

#[test]
fn odd_length_at_double_rate() {
    let out = resample(&[1u8, 2, 3, 4, 5], 2, 1, &|a: u8, _b: u8, _w: u32, _d: u32| a);
    assert_eq!(out, vec![1, 3]);
}

#[test]
fn cd_rate_two_seconds_of_a4() {
    let input = sine(440.0, 44100, 88200);
    let out = to_model_rate(input, 44100, &lerp);
    assert!((out.len() as i64 - 32000).abs() <= 1);
    assert_eq!(out.len(), 32000);
    let crossings = rising_zero_crossings(&out);
    assert!((crossings as i64 - 880).abs() <= 1);
    let expected = sine(440.0, 16000, out.len());
    for (a, b) in out.iter().zip(expected.iter()) {
        assert!((a - b).abs() < 0.02);
    }
}

#[test]
fn interpolation_weights_are_exact() {
    // 3 samples at 3 Hz to 2 Hz: positions 0 and 1.5.
    let calls = std::cell::Cell::new(0);
    let out = resample(&[10i64, 20, 30], 3, 2, &|a: i64, b: i64, w: u32, d: u32| {
        calls.set(calls.get() + 1);
        (a * (d - w) as i64 + b * w as i64) / d as i64
    });
    assert_eq!(out, vec![10, 25]);
    assert_eq!(calls.get(), 1);
}

#[test]
fn upsampling_holds_the_last_sample() {
    // 2 samples at 1 Hz to 2 Hz: positions 0, 0.5, 1, 1.5; the last has
    // no right neighbour.
    let out = resample(&[0i64, 100], 1, 2, &|a: i64, b: i64, w: u32, d: u32| {
        (a * (d - w) as i64 + b * w as i64) / d as i64
    });
    assert_eq!(out, vec![0, 50, 100, 100]);
}

#[test]
fn empty_input_gives_empty_output() {
    let out = to_model_rate(Vec::<f32>::new(), 48000, &lerp);
    assert!(out.is_empty());
}
