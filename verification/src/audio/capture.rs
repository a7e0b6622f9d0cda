//! What live capture decides apart from the hardware: which device a name
//! stands for, whether its format can be captured, and what the stream's
//! callback hands to the ring buffer.

use crate::audio::ring_buffer::SampleProducer;
use crate::audio::types::AudioDevice;
use crate::error::AppError;
use vstd::prelude::*;
use vstd::string::*;

verus! {

/// Which input device to open.
#[derive(Debug, Clone, Copy, PartialEq, Eq, Structural)]
pub enum DeviceChoice {
    /// The device at this place in the list of names.
    Listed(usize),
    /// The system's default input device.
    SystemDefault,
}

/// Whether `wanted` occurs among the first `upto` names.
pub open spec fn listed_before(names: Seq<String>, wanted: Seq<char>, upto: int) -> bool {
    exists|i: int| 0 <= i < upto && #[trigger] names[i]@ == wanted
}

/// The message for a device name that is not in the list.
pub open spec fn not_found_text(wanted: Seq<char>) -> Seq<char> {
    "Device '"@ + wanted + "' not found"@
}

/// The devices as shown to the user: every name in its place, marked as the
/// default if it is the default's name, and all of them inputs.
pub fn list_devices(names: &Vec<String>, default_name: &String) -> (devices: Vec<AudioDevice>)
    ensures
        devices@.len() == names@.len(),
        forall|i: int|
            0 <= i < names@.len() ==> {
                &&& (#[trigger] devices@[i]).name@ == names@[i]@
                &&& devices@[i].is_default == (names@[i]@ == default_name@)
                &&& devices@[i].is_input
            },
{
    let mut devices: Vec<AudioDevice> = Vec::new();
    let mut i: usize = 0;
    while i < names.len()
        invariant
            i <= names@.len(),
            devices@.len() == i,
            forall|k: int|
                0 <= k < i ==> {
                    &&& (#[trigger] devices@[k]).name@ == names@[k]@
                    &&& devices@[k].is_default == (names@[k]@ == default_name@)
                    &&& devices@[k].is_input
                },
        decreases names@.len() - i,
    {
        let name = names[i].clone();
        let is_default = name == *default_name;
        devices.push(AudioDevice { name, is_default, is_input: true });
        i += 1;
    }
    devices
}

/// The device that a configuration asks for. A name stands for the first
/// device in the list that bears it, and for no other; without a name the
/// system's default is meant, if there is one.
pub fn find_device(names: &Vec<String>, wanted: Option<&String>, has_default: bool) -> (found:
    Result<DeviceChoice, AppError>)
    ensures
        match wanted {
            Some(name) => match found {
                Ok(choice) => {
                    &&& choice matches DeviceChoice::Listed(i)
                    &&& i < names@.len()
                    &&& names@[i as int]@ == name@
                    &&& !listed_before(names@, name@, i as int)
                },
                Err(error) => {
                    &&& !listed_before(names@, name@, names@.len() as int)
                    &&& error matches AppError::Audio(message)
                    &&& message@ == not_found_text(name@)
                },
            },
            None => match found {
                Ok(choice) => has_default && choice == DeviceChoice::SystemDefault,
                Err(error) => {
                    &&& !has_default
                    &&& error matches AppError::Audio(message)
                    &&& message@ == "No default input device found"@
                },
            },
        },
{
    match wanted {
        Some(name) => {
            let mut i: usize = 0;
            while i < names.len()
                invariant
                    wanted == Some(name),
                    i <= names@.len(),
                    !listed_before(names@, name@, i as int),
                decreases names@.len() - i,
            {
                if names[i] == *name {
                    return Ok(DeviceChoice::Listed(i));
                }
                i += 1;
            }
            let mut message = String::from_str("Device '");
            message.append(name.as_str());
            message.append("' not found");
            Err(AppError::Audio(message))
        },
        None => {
            if has_default {
                Ok(DeviceChoice::SystemDefault)
            } else {
                Err(AppError::Audio(String::from_str("No default input device found")))
            }
        },
    }
}

/// The channel count of a capture format, which must not be zero.
pub fn check_channels(channels: u16) -> (checked: Result<usize, AppError>)
    ensures
        channels > 0 ==> checked == Ok::<usize, AppError>(channels as usize),
        channels == 0 ==> (checked matches Err(AppError::Audio(message)) && message@
            == "Device reports 0 channels"@),
{
    if channels == 0 {
        Err(AppError::Audio(String::from_str("Device reports 0 channels")))
    } else {
        Ok(channels as usize)
    }
}

/// The callback's last step: hands the mono samples of one hardware buffer
/// to the ring, unless the session was cancelled. Returns how many samples
/// the ring took; what it had no room for is lost.
pub fn on_input(producer: &mut SampleProducer, running: bool, mono: &[u32]) -> (written: usize)
    ensures
        !running ==> written == 0,
        written <= mono@.len(),
        written <= old(producer).capacity(),
        running && mono@.len() <= old(producer).vacancy() ==> written == mono@.len(),
        final(producer).capacity() == old(producer).capacity(),
        final(producer).vacancy() + written >= old(producer).vacancy(),
{
    if !running {
        return 0;
    }
    producer.push_slice(mono)
}

} // verus!
