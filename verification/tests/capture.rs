use synthwave::audio::capture::{check_channels, find_device, list_devices, on_input, DeviceChoice};
use synthwave::audio::ring_buffer::AudioRingBuffer;
use synthwave::error::AppError;

fn names() -> Vec<String> {
    vec!["Built-in".to_string(), "USB Mic".to_string(), "Loopback".to_string(), "USB Mic".to_string()]
}

fn audio_message(error: AppError) -> String {
    match error {
        AppError::Audio(message) => message,
        AppError::Config(message) => panic!("config error: {message}"),
    }
}

#[test]
fn devices_are_listed_in_order() {
    let devices = list_devices(&names(), &"Loopback".to_string());
    assert_eq!(devices.len(), 4);
    let listed: Vec<(&str, bool, bool)> =
        devices.iter().map(|d| (d.name.as_str(), d.is_default, d.is_input)).collect();
    assert_eq!(
        listed,
        vec![
            ("Built-in", false, true),
            ("USB Mic", false, true),
            ("Loopback", true, true),
            ("USB Mic", false, true)
        ]
    );
}

#[test]
fn no_default_marks_no_device() {
    let devices = list_devices(&names(), &String::new());
    assert!(devices.iter().all(|d| !d.is_default && d.is_input));
    assert!(list_devices(&Vec::new(), &"x".to_string()).is_empty());
}

#[test]
fn a_name_stands_for_the_first_device_that_bears_it() {
    let found = find_device(&names(), Some(&"USB Mic".to_string()), true);
    assert_eq!(found.unwrap(), DeviceChoice::Listed(1));
    let found = find_device(&names(), Some(&"Built-in".to_string()), false);
    assert_eq!(found.unwrap(), DeviceChoice::Listed(0));
}

#[test]
fn an_unknown_name_is_an_error() {
    let error = find_device(&names(), Some(&"Ghost".to_string()), true).unwrap_err();
    assert_eq!(audio_message(error), "Device 'Ghost' not found");
    let error = find_device(&Vec::new(), Some(&"".to_string()), true).unwrap_err();
    assert_eq!(audio_message(error), "Device '' not found");
    let error = find_device(&names(), Some(&"usb mic".to_string()), true).unwrap_err();
    assert_eq!(audio_message(error), "Device 'usb mic' not found");
}

#[test]
fn no_name_means_the_default() {
    assert_eq!(find_device(&names(), None, true).unwrap(), DeviceChoice::SystemDefault);
    let error = find_device(&names(), None, false).unwrap_err();
    assert_eq!(audio_message(error), "No default input device found");
}

#[test]
fn zero_channels_are_refused() {
    assert_eq!(check_channels(1).unwrap(), 1);
    assert_eq!(check_channels(2).unwrap(), 2);
    assert_eq!(check_channels(u16::MAX).unwrap(), 65535);
    assert_eq!(audio_message(check_channels(0).unwrap_err()), "Device reports 0 channels");
}

#[test]
fn callback_pushes_only_while_running() {
    let (mut producer, mut consumer) = AudioRingBuffer::new(4).split();
    assert_eq!(on_input(&mut producer, false, &[1, 2, 3]), 0);
    assert_eq!(on_input(&mut producer, true, &[1, 2, 3]), 3);
    assert_eq!(on_input(&mut producer, true, &[4, 5, 6]), 1);
    assert_eq!(on_input(&mut producer, true, &[7]), 0);
    let mut out = vec![0u32; 4];
    assert_eq!(consumer.pop_slice(&mut out), 4);
    assert_eq!(out, vec![1, 2, 3, 4]);
}
