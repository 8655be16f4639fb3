use ym38x6::lfo::{xorshift32, LFO_RNG_SEED};
use ym38x6::wave::{
    encode_log_entry, entry_is_negative, entry_is_silent, entry_log_value, gen_op_square,
    gen_square, resample_wave_32, silent_entry, BuiltinWaveform, WaveSlots, WaveTable,
    LOG_SILENCE, WAVE_SIZE,
};

#[test]
fn wave_table_basics() {
    let t = WaveTable::new();
    assert_eq!(t.len(), WAVE_SIZE);
    assert_eq!(t.entry(5), LOG_SILENCE);
    assert!(WaveTable::from_entries(vec![0; 1023]).is_none());
    let mut v = vec![0u16; 1024];
    v[3] = 77;
    let t = WaveTable::from_entries(v).unwrap();
    assert_eq!(t.entry(3), 77);
    assert_eq!(t.entry(1027), 77);
}

#[test]
fn square_table_levels() {
    let t = gen_square();
    assert_eq!(t.len(), 1024);
    assert_eq!(t.entry(0), 0x0000);
    assert_eq!(t.entry(511), 0x0000);
    assert_eq!(t.entry(512), 0x8000);
    assert_eq!(t.entry(1023), 0x8000);
    let u = gen_op_square();
    for i in 0..1024 {
        assert_eq!(t.entry(i), u.entry(i));
    }
}

#[test]
fn log_entry_codec() {
    assert_eq!(encode_log_entry(false, 0), 0);
    assert_eq!(encode_log_entry(true, 256), 0x8100);
    assert_eq!(encode_log_entry(false, -5), 0);
    assert_eq!(encode_log_entry(true, 100_000), 0xFFFF);
    assert_eq!(silent_entry(false), 0x7FFF);
    assert_eq!(silent_entry(true), 0xFFFF);
    assert!(entry_is_negative(0x8001));
    assert!(!entry_is_negative(0x7FFF));
    assert_eq!(entry_log_value(0x8123), 0x0123);
    assert!(entry_is_silent(0x7E00));
    assert!(entry_is_silent(0xFFFF));
    assert!(!entry_is_silent(0x7DFF));
}

#[test]
fn resample_hits_input_points_and_midpoints() {
    let mut input = [0i8; 32];
    for k in 0..32 {
        input[k] = (k as i32 * 8 - 128) as i8;
    }
    let r = resample_wave_32(&input);
    assert_eq!(r.len(), 1024);
    for k in 0..32 {
        assert_eq!(r[k * 32], 32 * input[k] as i32);
        assert_eq!(r[k * 32 + 16], 16 * input[k] as i32 + 16 * input[(k + 1) % 32] as i32);
    }
    assert_eq!(r[31 * 32 + 8], 32 * 120 + 8 * (-128 - 120));
    let zero = resample_wave_32(&[0i8; 32]);
    assert!(zero.iter().all(|&v| v == 0));
}

#[test]
fn builtin_waveform_indices() {
    assert_eq!(BuiltinWaveform::from_index(0), BuiltinWaveform::Sine);
    assert_eq!(BuiltinWaveform::from_index(3), BuiltinWaveform::Square);
    assert_eq!(BuiltinWaveform::from_index(6), BuiltinWaveform::PulseSine);
    assert_eq!(BuiltinWaveform::from_index(7), BuiltinWaveform::OctaveSine);
    assert_eq!(BuiltinWaveform::from_index(200), BuiltinWaveform::OctaveSine);
}

fn table_with(first: u16) -> WaveTable {
    let mut v = vec![0u16; 1024];
    v[0] = first;
    WaveTable::from_entries(v).unwrap()
}

#[test]
fn wave_slots_fall_back_to_slot_zero() {
    let builtins: Vec<WaveTable> = (0..8).map(|i| table_with(i as u16 + 1)).collect();
    let mut slots = WaveSlots::new(builtins);
    assert_eq!(slots.table_for(3).entry(0), 4);
    assert_eq!(slots.table_for(9).entry(0), 1);
    slots.set_user_wave(9, table_with(500));
    assert_eq!(slots.table_for(9).entry(0), 500);
    assert_eq!(slots.table_for(255).entry(0), 1);
    assert_eq!(slots.table_for(7).entry(0), 8);
}

#[test]
fn xorshift_sequence() {
    let a = xorshift32(LFO_RNG_SEED);
    let mut x = LFO_RNG_SEED;
    x ^= x << 13;
    x ^= x >> 17;
    x ^= x << 5;
    assert_eq!(a, x);
    assert_eq!(xorshift32(0), 0);
    let mut s = 1u32;
    for _ in 0..1000 {
        s = xorshift32(s);
        assert_ne!(s, 0);
    }
}

/// Linear value of a table entry: `±2^(-log/256)`, 0 for silent entries.
fn sample_at(t: &WaveTable, idx: usize) -> f32 {
    let e = t.entry(idx);
    if entry_is_silent(e) {
        return 0.0;
    }
    let sign = if entry_is_negative(e) { -1.0f32 } else { 1.0 };
    sign * 2.0f32.powf(-(entry_log_value(e) as f32 / 256.0))
}

const WAVE_LEN: usize = 1024;

#[test]
fn square_wave_levels() {
    let t = gen_op_square();
    assert!((sample_at(&t, 0) - 1.0).abs() < 0.01);
    assert!((sample_at(&t, WAVE_LEN / 2) - (-1.0)).abs() < 0.01);
}

#[test]
fn square_wave_shape() {
    let t = gen_square();
    let n = t.len();
    assert!((sample_at(&t, 0) - 1.0).abs() < 0.01, "square(0) should be ~1");
    assert!((sample_at(&t, n / 2 - 1) - 1.0).abs() < 0.01, "square(1/2-) should be ~1");
    assert!((sample_at(&t, n / 2) + 1.0).abs() < 0.01, "square(1/2) should be ~-1");
    assert!((sample_at(&t, n - 1) + 1.0).abs() < 0.01, "square(end) should be ~-1");
}
