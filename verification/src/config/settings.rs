//! What the application remembers between runs.

use crate::audio::types::{DEFAULT_FFT_SIZE, DEFAULT_FPS};
use crate::encoding::ONE;
use vstd::prelude::*;
use vstd::string::*;

verus! {

/// The stored settings.
#[derive(Debug, Clone)]
pub struct AppSettings {
    pub last_mode: String,
    pub last_theme_index: usize,
    pub last_device_name: Option<String>,
    /// A single-precision bit pattern.
    pub sensitivity: u32,
    pub fft_size: usize,
    pub target_fps: u32,
    pub has_seen_welcome: bool,
}

/// The name of the directory, under the user's home, that holds the
/// settings.
pub fn config_dir_name() -> (name: String)
    ensures
        name@ == ".synthwave"@,
{
    String::from_str(".synthwave")
}

/// The name of the settings file in that directory.
pub fn config_file_name() -> (name: String)
    ensures
        name@ == "config.json"@,
{
    String::from_str("config.json")
}

impl Default for AppSettings {
    fn default() -> (settings: Self)
        ensures
            settings.last_mode@ == "waveform"@,
            settings.last_theme_index == 0,
            settings.last_device_name.is_none(),
            settings.sensitivity == ONE,
            settings.fft_size == DEFAULT_FFT_SIZE,
            settings.target_fps == DEFAULT_FPS,
            !settings.has_seen_welcome,
    {
        AppSettings {
            last_mode: String::from_str("waveform"),
            last_theme_index: 0,
            last_device_name: None,
            sensitivity: ONE,
            fft_size: DEFAULT_FFT_SIZE,
            target_fps: DEFAULT_FPS,
            has_seen_welcome: false,
        }
    }
}

} // verus!
