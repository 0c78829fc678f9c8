//! The rules of audio capture that do not touch a device: one recording at
//! a time, and the settings to open the device with.

use crate::config::{AudioConfig, AudioConfigView};
use vstd::prelude::*;

verus! {

/// The sample rate the speech model works best with.
pub const PREFERRED_SAMPLE_RATE: u32 = 16000;

/// Why a recording could not be started.
#[derive(Clone, Copy, Debug, PartialEq, Eq, Structural)]
pub enum CaptureError {
    /// A recording is running already.
    AlreadyActive,
}

/// The settings to open the input device with.
#[derive(Clone, Copy, Debug, PartialEq, Eq, Structural)]
pub struct StreamSettings {
    pub channels: u16,
    pub sample_rate: u32,
    /// Frames per buffer.
    pub buffer_size: u32,
}

/// The capture side of a client: its settings, and which session, if any, is
/// being recorded.
#[derive(Debug)]
pub struct AudioCapture {
    config: AudioConfig,
    session_id: Option<u128>,
}

/// `AudioCapture` as a mathematical value.
pub struct AudioCaptureView {
    pub config: AudioConfigView,
    pub session_id: Option<u128>,
}

impl View for AudioCapture {
    type V = AudioCaptureView;

    closed spec fn view(&self) -> AudioCaptureView {
        AudioCaptureView { config: self.config@, session_id: self.session_id }
    }
}

/// The sample rate to ask for: the configured one, or, where that is zero,
/// the lowest the device supports but not less than 16 kHz.
pub open spec fn sample_rate_for(configured: u32, device_min: u32) -> u32 {
    if configured != 0 {
        configured
    } else if device_min > PREFERRED_SAMPLE_RATE {
        device_min
    } else {
        PREFERRED_SAMPLE_RATE
    }
}

impl AudioCaptureView {
    /// The settings to open a device with whose lowest sample rate is
    /// `device_min`. A buffer size beyond 32 bits is cut to its low 32 bits.
    pub open spec fn settings(self, device_min: u32) -> StreamSettings {
        StreamSettings {
            channels: self.config.channels,
            sample_rate: sample_rate_for(self.config.sample_rate, device_min),
            buffer_size: (self.config.buffer_size as int % 0x1_0000_0000) as u32,
        }
    }
}

impl AudioCapture {
    /// A capture with these settings and no recording under way.
    pub fn new(config: &AudioConfig) -> (out: Self)
        ensures
            out@ == (AudioCaptureView { config: config@, session_id: None }),
    {
        AudioCapture { config: config.clone(), session_id: None }
    }

    /// Whether a recording runs.
    pub fn is_recording(&self) -> (out: bool)
        ensures
            out == self@.session_id is Some,
    {
        self.session_id.is_some()
    }

    /// Starts the recording of `session_id` and says how to open the device,
    /// whose lowest supported sample rate is `device_min`.
    ///
    /// Fails with `AlreadyActive` exactly when a recording runs already, and
    /// then changes nothing.
    pub fn start_recording(&mut self, session_id: u128, device_min: u32) -> (out: Result<
        StreamSettings,
        CaptureError,
    >)
        ensures
            old(self)@.session_id is Some ==> out == Err::<StreamSettings, CaptureError>(
                CaptureError::AlreadyActive,
            ) && final(self)@ == old(self)@,
            old(self)@.session_id is None ==> out == Ok::<StreamSettings, CaptureError>(
                old(self)@.settings(device_min),
            ) && final(self)@ == (AudioCaptureView {
                session_id: Some(session_id),
                ..old(self)@
            }),
    {
        if self.session_id.is_some() {
            return Err(CaptureError::AlreadyActive);
        }
        self.session_id = Some(session_id);
        let sample_rate: u32 = if self.config.sample_rate != 0 {
            self.config.sample_rate
        } else if device_min > PREFERRED_SAMPLE_RATE {
            device_min
        } else {
            PREFERRED_SAMPLE_RATE
        };
        let buffer_size: u32 = (self.config.buffer_size as u64 % 0x1_0000_0000) as u32;
        Ok(StreamSettings { channels: self.config.channels, sample_rate, buffer_size })
    }

    /// Ends the recording, if one runs.
    pub fn stop_recording(&mut self)
        ensures
            final(self)@ == (AudioCaptureView { session_id: None, ..old(self)@ }),
    {
        self.session_id = None;
    }
}

} // verus!
