use synthwave::audio::analysis::AnalysisResult;
use synthwave::audio::ring_buffer::AudioRingBuffer;
use synthwave::audio::types::AudioConfig;
use synthwave::commands::{
    assemble_frame, frame_interval_micros, get_app_info, remaining_micros, AnalysisLoop,
    AudioState, LoopStep, SessionState, SourceKind, Teardown, RING_WINDOWS, STALL_LIMIT,
};

const NOTHING: Teardown = Teardown { drop_stream: false, join_source: false, join_analysis: false };

fn mic_config(fft_size: usize, target_fps: u32, sensitivity: f32) -> AudioConfig {
    AudioConfig {
        device_name: Some("Mic".to_string()),
        fft_size,
        target_fps,
        sensitivity: sensitivity.to_bits(),
    }
}

#[test]
fn stop_on_idle_session_changes_nothing() {
    let mut state = AudioState::new();
    let before = state;
    assert_eq!(state.state(), SessionState::Idle);
    assert_eq!(state.stop_audio(), NOTHING);
    assert_eq!(state, before);
    assert_eq!(state.state(), SessionState::Idle);
    assert_eq!(state.stop_existing(), NOTHING);
    assert_eq!(state, before);
    assert_eq!(AudioState::default(), before);
}

#[test]
fn start_validates_and_sizes_the_ring() {
    let mut state = AudioState::new();
    let mut startup = state.start(mic_config(1000, 500, 9.0));
    assert_eq!(startup.config.device_name, Some("Mic".to_string()));
    assert_eq!(startup.config.fft_size, 2048);
    assert_eq!(startup.config.target_fps, 120);
    assert_eq!(f32::from_bits(startup.config.sensitivity), 2.0);
    assert_eq!(startup.teardown, NOTHING);
    assert_eq!(startup.frame_interval_micros, 8_333);
    assert_eq!(startup.producer.vacant_len(), 4 * 2048);
    assert_eq!(RING_WINDOWS, 4);
    assert_eq!(state.state(), SessionState::Running);
    assert!(state.running && !state.paused);
    assert!(!state.stream && !state.file_handle && !state.analysis_handle);
}

#[test]
fn ring_of_a_session_carries_samples() {
    let mut state = AudioState::new();
    let mut startup = state.start(mic_config(256, 60, 1.0));
    assert_eq!(startup.producer.vacant_len(), 1024);
    let data: Vec<u32> = (0..2000).collect();
    assert_eq!(startup.producer.push_slice(&data), 1024);
    let mut window = vec![0u32; 256];
    assert_eq!(startup.consumer.pop_slice(&mut window), 256);
    assert_eq!(window, (0..256).collect::<Vec<u32>>());
}

#[test]
fn live_session_lifecycle() {
    let mut state = AudioState::new();
    let _ = state.start(mic_config(2048, 60, 1.0));
    state.source_started(SourceKind::Live);
    state.analysis_started();
    assert!(state.stream && state.analysis_handle && !state.file_handle);
    assert_eq!(state.state(), SessionState::Running);
    let teardown = state.stop_audio();
    assert_eq!(teardown, Teardown { drop_stream: true, join_source: false, join_analysis: true });
    assert_eq!(state.state(), SessionState::Stopped);
    assert!(!state.running && !state.paused);
    assert!(!state.stream && !state.file_handle && !state.analysis_handle);
    assert_eq!(state.stop_audio(), NOTHING);
    assert_eq!(state.state(), SessionState::Stopped);
}

#[test]
fn a_start_ends_the_session_before() {
    let mut state = AudioState::new();
    let _ = state.start(mic_config(2048, 60, 1.0));
    state.source_started(SourceKind::File);
    state.analysis_started();
    assert!(state.toggle_pause());
    let mut second = state.start(mic_config(512, 30, 1.0));
    assert_eq!(second.teardown, Teardown { drop_stream: false, join_source: true, join_analysis: true });
    assert!(state.running && !state.paused);
    assert!(!state.stream && !state.file_handle && !state.analysis_handle);
    assert_eq!(second.producer.vacant_len(), 2048);
    assert_eq!(second.frame_interval_micros, 33_333);
}

#[test]
fn failed_start_leaves_nothing_running() {
    let mut state = AudioState::new();
    let before = state;
    let startup = state.start(mic_config(2048, 60, 1.0));
    assert_eq!(startup.before, before);
    assert_eq!(state.start_failed(startup.before), NOTHING);
    assert_eq!(state, before);
    assert_eq!(state.state(), SessionState::Idle);
}

#[test]
fn failed_start_keeps_the_pause_flag_of_an_idle_session() {
    let mut state = AudioState::new();
    assert!(state.toggle_pause());
    let before = state;
    let startup = state.start(mic_config(2048, 60, 1.0));
    assert!(state.running && !state.paused && state.started);
    assert_eq!(state.start_failed(startup.before), NOTHING);
    assert_eq!(state, before);
    assert!(state.paused && !state.started);
}

#[test]
fn failed_start_after_a_session_leaves_it_stopped() {
    let mut state = AudioState::new();
    let _ = state.start(mic_config(2048, 60, 1.0));
    state.source_started(SourceKind::Live);
    state.analysis_started();
    let startup = state.start(mic_config(512, 60, 1.0));
    assert_eq!(
        startup.teardown,
        Teardown { drop_stream: true, join_source: false, join_analysis: true }
    );
    assert_eq!(state.start_failed(startup.before), NOTHING);
    assert_eq!(state.state(), SessionState::Stopped);
    assert!(!state.running && !state.stream && !state.analysis_handle && !state.file_handle);
}

#[test]
fn stop_on_idle_session_keeps_a_set_pause_flag() {
    let mut state = AudioState::new();
    assert!(state.toggle_pause());
    let before = state;
    assert_eq!(state.stop_audio(), NOTHING);
    assert_eq!(state, before);
    assert!(state.paused);
    assert_eq!(state.state(), SessionState::Idle);
}

#[test]
fn poll_reads_a_window_that_is_queued() {
    let mut buf = AudioRingBuffer::new(16);
    assert_eq!(buf.push(&[1, 2, 3, 4, 5]), 5);
    let (_producer, mut consumer) = buf.split();
    let mut analysis = AnalysisLoop::new(4);
    let mut window = vec![0u32; 4];
    assert_eq!(analysis.poll(&mut consumer, &mut window), (LoopStep::Analyze, 4));
    assert_eq!(window, vec![1, 2, 3, 4]);
}

#[test]
fn pause_toggles() {
    let mut state = AudioState::new();
    assert!(state.toggle_pause());
    assert!(state.paused);
    assert!(!state.toggle_pause());
    assert!(!state.paused);
    assert!(state.toggle_pause());
    let _ = state.stop_existing();
    assert!(state.paused);
    let _ = state.start(mic_config(2048, 60, 1.0));
    assert!(!state.paused);
    assert!(state.toggle_pause());
    let _ = state.stop_audio();
    assert!(!state.paused);
}

#[test]
fn frame_interval() {
    assert_eq!(frame_interval_micros(60), 16_666);
    assert_eq!(frame_interval_micros(1), 1_000_000);
    assert_eq!(frame_interval_micros(120), 8_333);
    assert_eq!(frame_interval_micros(30), 33_333);
}

#[test]
fn sleep_is_never_negative() {
    assert_eq!(remaining_micros(0, 16_666), Some(16_666));
    assert_eq!(remaining_micros(10_000, 16_666), Some(6_666));
    assert_eq!(remaining_micros(16_665, 16_666), Some(1));
    assert_eq!(remaining_micros(16_666, 16_666), None);
    assert_eq!(remaining_micros(u64::MAX, 16_666), None);
}

#[test]
fn a_full_window_is_analysed() {
    let mut analysis = AnalysisLoop::new(2048);
    assert_eq!(analysis.on_read(2048), LoopStep::Analyze);
    assert_eq!(analysis.on_read(4096), LoopStep::Analyze);
    assert_eq!(analysis.on_read(2047), LoopStep::Wait);
    assert_eq!(analysis.on_read(0), LoopStep::Wait);
}

#[test]
fn source_is_given_up_at_the_180th_short_read() {
    let mut analysis = AnalysisLoop::new(2048);
    for _ in 0..179 {
        assert_eq!(analysis.on_read(0), LoopStep::Wait);
    }
    assert_eq!(analysis.on_read(0), LoopStep::SourceLost);
    assert_eq!(STALL_LIMIT, 180);
}

#[test]
fn a_full_window_resets_the_stall_count() {
    let mut analysis = AnalysisLoop::new(512);
    for _ in 0..179 {
        assert_eq!(analysis.on_read(511), LoopStep::Wait);
    }
    assert_eq!(analysis.on_read(512), LoopStep::Analyze);
    for _ in 0..179 {
        assert_eq!(analysis.on_read(0), LoopStep::Wait);
    }
    assert_eq!(analysis.on_read(100), LoopStep::SourceLost);
}

#[test]
fn poll_reads_the_ring() {
    let (mut producer, mut consumer) = AudioRingBuffer::new(16).split();
    let mut analysis = AnalysisLoop::new(4);
    let mut window = vec![0u32; 4];
    assert_eq!(analysis.poll(&mut consumer, &mut window), (LoopStep::Wait, 0));
    assert_eq!(producer.push_slice(&[1, 2, 3]), 3);
    assert_eq!(analysis.poll(&mut consumer, &mut window), (LoopStep::Wait, 3));
    assert_eq!(window, vec![1, 2, 3, 0]);
    assert_eq!(producer.push_slice(&[4, 5, 6, 7, 8]), 5);
    assert_eq!(analysis.poll(&mut consumer, &mut window), (LoopStep::Analyze, 4));
    assert_eq!(window, vec![4, 5, 6, 7]);
}

#[test]
fn frame_is_assembled_from_its_parts() {
    let result = AnalysisResult {
        spectrum: vec![1, 2, 3],
        waveform: vec![4, 5],
        rms: 0.5f32.to_bits(),
        centroid: 0.25f32.to_bits(),
        flux: 0.125f32.to_bits(),
        zcr: 0.0625f32.to_bits(),
    };
    let frame = assemble_frame(result, true, 120.0f32.to_bits(), 1.5f64.to_bits());
    assert_eq!(frame.spectrum, vec![1, 2, 3]);
    assert_eq!(frame.waveform, vec![4, 5]);
    assert_eq!(f32::from_bits(frame.rms), 0.5);
    assert_eq!(f32::from_bits(frame.centroid), 0.25);
    assert_eq!(f32::from_bits(frame.flux), 0.125);
    assert_eq!(f32::from_bits(frame.zcr), 0.0625);
    assert!(frame.beat);
    assert_eq!(f32::from_bits(frame.bpm), 120.0);
    assert_eq!(f64::from_bits(frame.timestamp), 1.5);
    assert!(!frame.is_sentinel());
}

#[test]
fn app_info() {
    assert_eq!(get_app_info(), "SynthWave v0.1.0");
}

#[test]
fn a_long_pause_counts_as_a_lost_source() {
    let mut state = AudioState::new();
    let mut startup = state.start(mic_config(256, 60, 1.0));
    state.source_started(SourceKind::File);
    state.analysis_started();
    assert!(state.toggle_pause());
    let mut analysis = AnalysisLoop::new(startup.config.fft_size);
    let mut window = vec![0u32; startup.config.fft_size];
    for _ in 0..179 {
        assert_eq!(analysis.poll(&mut startup.consumer, &mut window), (LoopStep::Wait, 0));
    }
    assert_eq!(analysis.poll(&mut startup.consumer, &mut window), (LoopStep::SourceLost, 0));
    assert_eq!(state.state(), SessionState::Running);
}

#[test]
fn loop_ends_on_a_lost_source_or_a_closed_sink() {
    assert!(!AnalysisLoop::is_over(LoopStep::Analyze, true));
    assert!(AnalysisLoop::is_over(LoopStep::Analyze, false));
    assert!(!AnalysisLoop::is_over(LoopStep::Wait, true));
    assert!(!AnalysisLoop::is_over(LoopStep::Wait, false));
    assert!(AnalysisLoop::is_over(LoopStep::SourceLost, true));
    assert!(AnalysisLoop::is_over(LoopStep::SourceLost, false));
}
