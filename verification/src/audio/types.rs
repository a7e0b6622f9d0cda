//! The values that cross the boundary of the pipeline.

use crate::encoding::{clamp, clamped, is_nan, le, nan, HALF, MINUS_ONE, ONE, TWO, ZERO};
use vstd::arithmetic::power2::{lemma2_to64, lemma_pow2_strictly_increases, pow2};
use vstd::prelude::*;

verus! {

/// The window size used when the configured one is not acceptable.
pub const DEFAULT_FFT_SIZE: usize = 2048;

/// The smallest window size.
pub const MIN_FFT_SIZE: usize = 256;

/// The largest window size.
pub const MAX_FFT_SIZE: usize = 16384;

/// The frame rate of a default configuration.
pub const DEFAULT_FPS: u32 = 60;

/// The lowest frame rate.
pub const MIN_FPS: u32 = 1;

/// The highest frame rate.
pub const MAX_FPS: u32 = 120;

/// One analysed window, ready for the sink. Numbers are single-precision
/// bit patterns, the timestamp a double-precision one.
#[derive(Debug, Clone)]
pub struct AudioFrame {
    pub spectrum: Vec<u32>,
    pub waveform: Vec<u32>,
    pub rms: u32,
    pub centroid: u32,
    pub flux: u32,
    pub zcr: u32,
    pub beat: bool,
    pub bpm: u32,
    /// Seconds since the session started.
    pub timestamp: u64,
}

impl AudioFrame {
    /// Whether this is the frame that reports the loss of the source: its
    /// `rms` is -1, and no other field means anything.
    pub open spec fn sentinel(&self) -> bool {
        self.rms == MINUS_ONE
    }

    /// The frame that reports the loss of the source.
    pub fn source_lost(timestamp: u64) -> (frame: Self)
        ensures
            frame.sentinel(),
            frame.spectrum@ == Seq::<u32>::empty(),
            frame.waveform@ == Seq::<u32>::empty(),
            frame.centroid == ZERO,
            frame.flux == ZERO,
            frame.zcr == ZERO,
            !frame.beat,
            frame.bpm == ZERO,
            frame.timestamp == timestamp,
    {
        AudioFrame {
            spectrum: Vec::new(),
            waveform: Vec::new(),
            rms: MINUS_ONE,
            centroid: ZERO,
            flux: ZERO,
            zcr: ZERO,
            beat: false,
            bpm: ZERO,
            timestamp,
        }
    }

    /// Whether this frame reports the loss of the source.
    pub fn is_sentinel(&self) -> (r: bool)
        ensures
            r == self.sentinel(),
    {
        self.rms == MINUS_ONE
    }
}

/// An input device as shown to the user.
#[derive(Debug, Clone)]
pub struct AudioDevice {
    pub name: String,
    pub is_default: bool,
    pub is_input: bool,
}

/// What a session is started with.
#[derive(Debug, Clone)]
pub struct AudioConfig {
    /// The device to capture from; `None` for the system's default.
    pub device_name: Option<String>,
    pub fft_size: usize,
    pub target_fps: u32,
    /// A single-precision bit pattern.
    pub sensitivity: u32,
}

/// Whether `n` is a power of two.
pub open spec fn power_of_two(n: nat) -> bool {
    exists|k: nat| n == pow2(k)
}

/// A window size is acceptable if it is a power of two between
/// `MIN_FFT_SIZE` and `MAX_FFT_SIZE`.
pub open spec fn fft_size_ok(n: usize) -> bool {
    power_of_two(n as nat) && MIN_FFT_SIZE <= n <= MAX_FFT_SIZE
}

/// The window size after validation.
pub open spec fn valid_fft_size(n: usize) -> usize {
    if fft_size_ok(n) {
        n
    } else {
        DEFAULT_FFT_SIZE
    }
}

/// The frame rate after validation.
pub open spec fn valid_fps(fps: u32) -> u32 {
    if fps < MIN_FPS {
        MIN_FPS
    } else if fps > MAX_FPS {
        MAX_FPS
    } else {
        fps
    }
}

/// Whether a sensitivity is in its range, `[0.5, 2]`.
pub open spec fn sensitivity_ok(sensitivity: u32) -> bool {
    le(HALF, sensitivity) && le(sensitivity, TWO)
}

/// The sensitivity after validation: a pattern that is not a number
/// becomes 1, the default, and a number moves into `[0.5, 2]`.
pub open spec fn valid_sensitivity(sensitivity: u32) -> u32 {
    if nan(sensitivity) {
        ONE
    } else {
        clamped(sensitivity, HALF, TWO)
    }
}

/// Brings a sensitivity into its range.
pub fn validate_sensitivity(sensitivity: u32) -> (valid: u32)
    ensures
        valid == valid_sensitivity(sensitivity),
        sensitivity_ok(valid),
        sensitivity_ok(sensitivity) ==> valid == sensitivity,
{
    if is_nan(sensitivity) {
        ONE
    } else {
        clamp(sensitivity, HALF, TWO)
    }
}

/// The acceptable window sizes are the seven powers of two from 256 to 16384.
pub proof fn lemma_fft_sizes(n: usize)
    ensures
        fft_size_ok(n) <==> (n == 256 || n == 512 || n == 1024 || n == 2048 || n == 4096 || n
            == 8192 || n == 16384),
{
    lemma2_to64();
    if n == 256 || n == 512 || n == 1024 || n == 2048 || n == 4096 || n == 8192 || n == 16384 {
        let k: nat = if n == 256 {
            8
        } else if n == 512 {
            9
        } else if n == 1024 {
            10
        } else if n == 2048 {
            11
        } else if n == 4096 {
            12
        } else if n == 8192 {
            13
        } else {
            14
        };
        assert(n as nat == pow2(k));
    }
    if fft_size_ok(n) {
        let k = choose|k: nat| n as nat == pow2(k);
        if k < 8 {
            lemma_pow2_strictly_increases(k, 8);
        }
        if k > 14 {
            lemma_pow2_strictly_increases(14, k);
        }
    }
}

fn is_fft_size(n: usize) -> (ok: bool)
    ensures
        ok == fft_size_ok(n),
{
    proof {
        lemma_fft_sizes(n);
    }
    n == 256 || n == 512 || n == 1024 || n == 2048 || n == 4096 || n == 8192 || n == 16384
}

impl AudioConfig {
    /// Whether every field is in its range.
    pub open spec fn valid(self) -> bool {
        &&& fft_size_ok(self.fft_size)
        &&& MIN_FPS <= self.target_fps <= MAX_FPS
        &&& sensitivity_ok(self.sensitivity)
    }

    /// The configuration with every field in its range.
    pub open spec fn validation(self) -> AudioConfig {
        AudioConfig {
            device_name: self.device_name,
            fft_size: valid_fft_size(self.fft_size),
            target_fps: valid_fps(self.target_fps),
            sensitivity: valid_sensitivity(self.sensitivity),
        }
    }

    /// The configuration with every field in its range: a window size that
    /// is not acceptable becomes `DEFAULT_FFT_SIZE`, the frame rate moves
    /// into `[MIN_FPS, MAX_FPS]` and the sensitivity into `[0.5, 2]`, or
    /// to 1 if it is not a number. Nothing is ever rejected.
    pub fn validated(self) -> (config: Self)
        ensures
            config == self.validation(),
            config.valid(),
    {
        proof {
            lemma_validation_settles(self);
        }
        let fft_size = if is_fft_size(self.fft_size) {
            self.fft_size
        } else {
            DEFAULT_FFT_SIZE
        };
        let target_fps = if self.target_fps < MIN_FPS {
            MIN_FPS
        } else if self.target_fps > MAX_FPS {
            MAX_FPS
        } else {
            self.target_fps
        };
        AudioConfig {
            device_name: self.device_name,
            fft_size,
            target_fps,
            sensitivity: validate_sensitivity(self.sensitivity),
        }
    }
}

impl Default for AudioConfig {
    fn default() -> (config: Self)
        ensures
            config.device_name.is_none(),
            config.fft_size == DEFAULT_FFT_SIZE,
            config.target_fps == DEFAULT_FPS,
            config.sensitivity == ONE,
    {
        AudioConfig {
            device_name: None,
            fft_size: DEFAULT_FFT_SIZE,
            target_fps: DEFAULT_FPS,
            sensitivity: ONE,
        }
    }
}

/// Validation yields a valid configuration, leaves a valid configuration
/// as it is, and so changes nothing when done twice.
pub proof fn lemma_validation_settles(config: AudioConfig)
    ensures
        config.validation().valid(),
        config.valid() ==> config.validation() == config,
        config.validation().validation() == config.validation(),
{
    lemma_fft_sizes(DEFAULT_FFT_SIZE);
}

} // verus!
