//! Session configuration: which sources to capture and where to write them.

use vstd::prelude::*;

verus! {

/// Mathematical image of a [`RecordingConfig`].
pub struct ConfigView {
    pub mic_device_id: Option<Seq<char>>,
    pub system_audio: bool,
    pub output_dir: Seq<char>,
    pub sample_rate: u32,
}

/// What a capture session records: an optional microphone (by device
/// identifier), optionally the system output loopback, the directory the
/// container files are written into, and the target sample rate.  Immutable
/// once a session starts.
#[derive(Clone)]
pub struct RecordingConfig {
    pub mic_device_id: Option<String>,
    pub system_audio: bool,
    pub output_dir: String,
    pub sample_rate: u32,
}

impl View for RecordingConfig {
    type V = ConfigView;

    open spec fn view(&self) -> ConfigView {
        ConfigView {
            mic_device_id: match self.mic_device_id {
                Some(s) => Some(s@),
                None => None,
            },
            system_audio: self.system_audio,
            output_dir: self.output_dir@,
            sample_rate: self.sample_rate,
        }
    }
}

/// The sample rate used when the caller names none.
pub const DEFAULT_SAMPLE_RATE: u32 = 48000;

impl RecordingConfig {
    /// Build a configuration; an absent sample rate defaults to 48000.
    pub fn new(
        output_dir: String,
        mic_device_id: Option<String>,
        system_audio: bool,
        sample_rate: Option<u32>,
    ) -> (r: RecordingConfig)
        ensures
            r@.output_dir == output_dir@,
            r@.mic_device_id == (match mic_device_id {
                Some(s) => Some(s@),
                None => None::<Seq<char>>,
            }),
            r@.system_audio == system_audio,
            r@.sample_rate == (match sample_rate {
                Some(v) => v,
                None => DEFAULT_SAMPLE_RATE,
            }),
    {
        RecordingConfig {
            mic_device_id,
            system_audio,
            output_dir,
            sample_rate: match sample_rate {
                Some(v) => v,
                None => DEFAULT_SAMPLE_RATE,
            },
        }
    }
}

} // verus!
