use synthwave::audio::types::{
    validate_sensitivity, AudioConfig, AudioDevice, AudioFrame, DEFAULT_FFT_SIZE, DEFAULT_FPS, MAX_FFT_SIZE, MAX_FPS,
    MIN_FFT_SIZE, MIN_FPS,
};
use synthwave::encoding::{HALF, MINUS_ONE, ONE, TWO, ZERO};

fn plain_config(fft_size: usize, target_fps: u32, sensitivity: f32) -> AudioConfig {
    AudioConfig { device_name: None, fft_size, target_fps, sensitivity: sensitivity.to_bits() }
}

#[test]
fn default_config() {
    let c = AudioConfig::default();
    assert_eq!(c.device_name, None);
    assert_eq!(c.fft_size, 2048);
    assert_eq!(c.target_fps, 60);
    assert_eq!(f32::from_bits(c.sensitivity), 1.0);
    assert_eq!(c.sensitivity, ONE);
    assert_eq!(DEFAULT_FFT_SIZE, 2048);
    assert_eq!(DEFAULT_FPS, 60);
}

#[test]
fn every_power_of_two_in_range_is_kept() {
    for size in [256usize, 512, 1024, 2048, 4096, 8192, 16384] {
        assert_eq!(plain_config(size, 60, 1.0).validated().fft_size, size);
    }
    assert_eq!(MIN_FFT_SIZE, 256);
    assert_eq!(MAX_FFT_SIZE, 16384);
}

#[test]
fn other_window_sizes_become_the_default() {
    for size in [0usize, 1, 2, 128, 255, 257, 1000, 2047, 2049, 3000, 16383, 16385, 32768, 65536, usize::MAX] {
        assert_eq!(plain_config(size, 60, 1.0).validated().fft_size, 2048, "{size}");
    }
}

#[test]
fn frame_rate_is_clamped() {
    assert_eq!(plain_config(2048, 0, 1.0).validated().target_fps, 1);
    assert_eq!(plain_config(2048, 1, 1.0).validated().target_fps, 1);
    assert_eq!(plain_config(2048, 30, 1.0).validated().target_fps, 30);
    assert_eq!(plain_config(2048, 120, 1.0).validated().target_fps, 120);
    assert_eq!(plain_config(2048, 121, 1.0).validated().target_fps, 120);
    assert_eq!(plain_config(2048, u32::MAX, 1.0).validated().target_fps, 120);
    assert_eq!(MIN_FPS, 1);
    assert_eq!(MAX_FPS, 120);
}

#[test]
fn sensitivity_is_clamped() {
    assert_eq!(plain_config(2048, 60, 3.0).validated().sensitivity, TWO);
    assert_eq!(plain_config(2048, 60, 0.1).validated().sensitivity, HALF);
    assert_eq!(plain_config(2048, 60, -1.0).validated().sensitivity, HALF);
    assert_eq!(plain_config(2048, 60, 0.5).validated().sensitivity, HALF);
    assert_eq!(plain_config(2048, 60, 2.0).validated().sensitivity, TWO);
    assert_eq!(f32::from_bits(plain_config(2048, 60, 1.3).validated().sensitivity), 1.3);
    assert_eq!(plain_config(2048, 60, f32::INFINITY).validated().sensitivity, TWO);
}

#[test]
fn a_sensitivity_that_is_not_a_number_becomes_the_default() {
    for pattern in [f32::NAN.to_bits(), (-f32::NAN).to_bits(), 0x7f80_0001, 0xffff_ffff] {
        let c = AudioConfig { device_name: None, fft_size: 2048, target_fps: 60, sensitivity: pattern };
        assert_eq!(c.validated().sensitivity, ONE);
    }
    assert_eq!(validate_sensitivity(f32::NAN.to_bits()), ONE);
    assert_eq!(validate_sensitivity(7.0f32.to_bits()), TWO);
    assert_eq!(validate_sensitivity((-0.0f32).to_bits()), HALF);
    assert_eq!(validate_sensitivity(0.75f32.to_bits()), 0.75f32.to_bits());
}

#[test]
fn valid_config_is_unchanged() {
    let c = AudioConfig {
        device_name: Some("Test Mic".to_string()),
        fft_size: 4096,
        target_fps: 30,
        sensitivity: 1.5f32.to_bits(),
    };
    let v = c.clone().validated();
    assert_eq!(v.device_name, c.device_name);
    assert_eq!(v.fft_size, 4096);
    assert_eq!(v.target_fps, 30);
    assert_eq!(v.sensitivity, 1.5f32.to_bits());
}

#[test]
fn validation_settles() {
    let once = plain_config(1000, 500, 9.0).validated();
    let twice = once.clone().validated();
    assert_eq!(once.fft_size, twice.fft_size);
    assert_eq!(once.target_fps, twice.target_fps);
    assert_eq!(once.sensitivity, twice.sensitivity);
    assert_eq!((once.fft_size, once.target_fps, once.sensitivity), (2048, 120, TWO));
}

#[test]
fn sentinel_frame() {
    let frame = AudioFrame::source_lost(3.25f64.to_bits());
    assert!(frame.is_sentinel());
    assert_eq!(f32::from_bits(frame.rms), -1.0);
    assert_eq!(frame.rms, MINUS_ONE);
    assert!(frame.spectrum.is_empty());
    assert!(frame.waveform.is_empty());
    assert_eq!((frame.centroid, frame.flux, frame.zcr, frame.bpm), (ZERO, ZERO, ZERO, ZERO));
    assert!(!frame.beat);
    assert_eq!(f64::from_bits(frame.timestamp), 3.25);
}

#[test]
fn ordinary_frame_is_no_sentinel() {
    let mut frame = AudioFrame::source_lost(0);
    frame.rms = 0.5f32.to_bits();
    assert!(!frame.is_sentinel());
    frame.rms = 1.0f32.to_bits();
    assert!(!frame.is_sentinel());
    frame.rms = f32::NAN.to_bits();
    assert!(!frame.is_sentinel());
}

#[test]
fn device_holds_its_fields() {
    let d = AudioDevice { name: "Mic".to_string(), is_default: true, is_input: true };
    let e = d.clone();
    assert_eq!(e.name, "Mic");
    assert!(e.is_default && e.is_input);
}
