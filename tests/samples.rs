use anti_rec::sample::{
    denormalize_u16, denormalize_u8, normalize_u16, normalize_u8, to_pcm16, EQUILIBRIUM,
    EQUILIBRIUM_U16, EQUILIBRIUM_U8, FULL_SCALE,
};

#[test]
fn normalize_u8_extremes() {
    assert_eq!(normalize_u8(0) as i64, -FULL_SCALE);
    assert_eq!(normalize_u8(255), 32512);
    assert_eq!(normalize_u8(128), 0);
}

#[test]
fn normalize_u16_extremes() {
    assert_eq!(normalize_u16(0) as i64, -FULL_SCALE);
    assert_eq!(normalize_u16(65535), 32767);
    assert_eq!(normalize_u16(32768), 0);
    assert_eq!(normalize_u16(40000), 7232);
}

#[test]
fn normalized_extremes_are_full_scale_within_one_step() {
    let max_u8 = normalize_u8(u8::MAX) as f64 / FULL_SCALE as f64;
    let max_u16 = normalize_u16(u16::MAX) as f64 / FULL_SCALE as f64;
    let max_i16 = i16::MAX as f64 / FULL_SCALE as f64;
    assert!((max_u8 - 1.0).abs() <= 1.0 / 128.0);
    assert!((max_u16 - 1.0).abs() <= 1.0 / 32768.0);
    assert!((max_i16 - 1.0).abs() <= 1.0 / 32768.0);
    assert_eq!(normalize_u8(u8::MIN) as f64 / FULL_SCALE as f64, -1.0);
    assert_eq!(normalize_u16(u16::MIN) as f64 / FULL_SCALE as f64, -1.0);
    assert_eq!(i16::MIN as f64 / FULL_SCALE as f64, -1.0);
}

#[test]
fn denormalize_u16_moves_zero_to_midpoint() {
    assert_eq!(denormalize_u16(0), 32768);
    assert_eq!(denormalize_u16(-32768), 0);
    assert_eq!(denormalize_u16(32767), 65535);
    assert_eq!(denormalize_u16(EQUILIBRIUM), EQUILIBRIUM_U16);
}

#[test]
fn denormalize_u8_keeps_high_byte() {
    assert_eq!(denormalize_u8(0), 128);
    assert_eq!(denormalize_u8(-32768), 0);
    assert_eq!(denormalize_u8(32767), 255);
    assert_eq!(denormalize_u8(-1), 127);
    assert_eq!(denormalize_u8(256), 129);
    assert_eq!(denormalize_u8(EQUILIBRIUM), EQUILIBRIUM_U8);
}

#[test]
fn pcm_of_full_scale_is_extreme() {
    assert_eq!(to_pcm16(FULL_SCALE), i16::MAX);
    assert_eq!(to_pcm16(-FULL_SCALE), i16::MIN);
}

#[test]
fn pcm_clamps_and_keeps_in_range_values() {
    assert_eq!(to_pcm16(100_000), 32767);
    assert_eq!(to_pcm16(-100_000), -32768);
    assert_eq!(to_pcm16(1234), 1234);
    assert_eq!(to_pcm16(-1234), -1234);
    assert_eq!(to_pcm16(0), 0);
}
