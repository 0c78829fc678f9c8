//! Settings of the daemon and its clients, and the values they start from.

use vstd::prelude::*;
use vstd::string::*;

verus! {

/// Bit pattern of `0.1`, the voice-activity threshold a new configuration
/// starts with.
pub const DEFAULT_VAD_THRESHOLD: u32 = 0x3DCC_CCCD;

/// Settings of the speech model.
#[derive(Debug, PartialEq, Eq)]
pub struct WhisperConfig {
    pub model_path: String,
    /// Seconds without use after which a loaded model is released.
    pub model_timeout_seconds: u64,
    /// Bit pattern of the voice-activity threshold.
    pub vad_threshold: u32,
    pub language: Option<String>,
}

/// `WhisperConfig` as a mathematical value.
pub struct WhisperConfigView {
    pub model_path: Seq<char>,
    pub model_timeout_seconds: u64,
    pub vad_threshold: u32,
    pub language: Option<Seq<char>>,
}

impl View for WhisperConfig {
    type V = WhisperConfigView;

    open spec fn view(&self) -> WhisperConfigView {
        WhisperConfigView {
            model_path: self.model_path@,
            model_timeout_seconds: self.model_timeout_seconds,
            vad_threshold: self.vad_threshold,
            language: match self.language {
                Some(l) => Some(l@),
                None => None,
            },
        }
    }
}

impl Clone for WhisperConfig {
    fn clone(&self) -> (out: Self)
        ensures
            out@ == self@,
    {
        WhisperConfig {
            model_path: self.model_path.clone(),
            model_timeout_seconds: self.model_timeout_seconds,
            vad_threshold: self.vad_threshold,
            language: match &self.language {
                Some(l) => Some(l.clone()),
                None => None,
            },
        }
    }
}

/// Settings of audio capture.
#[derive(Debug, PartialEq, Eq)]
pub struct AudioConfig {
    /// Name of the input device; `None` stands for the system's default.
    pub device: Option<String>,
    pub sample_rate: u32,
    pub channels: u16,
    pub buffer_size: usize,
}

/// `AudioConfig` as a mathematical value.
pub struct AudioConfigView {
    pub device: Option<Seq<char>>,
    pub sample_rate: u32,
    pub channels: u16,
    pub buffer_size: usize,
}

impl View for AudioConfig {
    type V = AudioConfigView;

    open spec fn view(&self) -> AudioConfigView {
        AudioConfigView {
            device: match self.device {
                Some(d) => Some(d@),
                None => None,
            },
            sample_rate: self.sample_rate,
            channels: self.channels,
            buffer_size: self.buffer_size,
        }
    }
}

impl Clone for AudioConfig {
    fn clone(&self) -> (out: Self)
        ensures
            out@ == self@,
    {
        AudioConfig {
            device: match &self.device {
                Some(d) => Some(d.clone()),
                None => None,
            },
            sample_rate: self.sample_rate,
            channels: self.channels,
            buffer_size: self.buffer_size,
        }
    }
}

/// Settings of the popup window.
#[derive(Clone, Copy, Debug, PartialEq, Eq, Structural)]
pub struct UiConfig {
    pub popup_width: i32,
    pub popup_height: i32,
    pub auto_copy: bool,
    pub show_notifications: bool,
}

/// Settings of the socket between daemon and clients.
#[derive(Debug, PartialEq, Eq)]
pub struct IpcConfig {
    pub socket_path: String,
    pub timeout_seconds: u64,
}

/// `IpcConfig` as a mathematical value.
pub struct IpcConfigView {
    pub socket_path: Seq<char>,
    pub timeout_seconds: u64,
}

impl View for IpcConfig {
    type V = IpcConfigView;

    open spec fn view(&self) -> IpcConfigView {
        IpcConfigView { socket_path: self.socket_path@, timeout_seconds: self.timeout_seconds }
    }
}

impl Clone for IpcConfig {
    fn clone(&self) -> (out: Self)
        ensures
            out@ == self@,
    {
        IpcConfig {
            socket_path: self.socket_path.clone(),
            timeout_seconds: self.timeout_seconds,
        }
    }
}

/// Everything that can be configured.
#[derive(Debug, PartialEq, Eq)]
pub struct Config {
    pub whisper: WhisperConfig,
    pub audio: AudioConfig,
    pub ui: UiConfig,
    pub ipc: IpcConfig,
}

/// `Config` as a mathematical value.
pub struct ConfigView {
    pub whisper: WhisperConfigView,
    pub audio: AudioConfigView,
    pub ui: UiConfig,
    pub ipc: IpcConfigView,
}

impl View for Config {
    type V = ConfigView;

    open spec fn view(&self) -> ConfigView {
        ConfigView { whisper: self.whisper@, audio: self.audio@, ui: self.ui, ipc: self.ipc@ }
    }
}

impl Clone for Config {
    fn clone(&self) -> (out: Self)
        ensures
            out@ == self@,
    {
        Config {
            whisper: self.whisper.clone(),
            audio: self.audio.clone(),
            ui: self.ui,
            ipc: self.ipc.clone(),
        }
    }
}

impl ConfigView {
    /// The configuration a fresh installation starts from.
    pub open spec fn initial() -> ConfigView {
        ConfigView {
            whisper: WhisperConfigView {
                model_path: "models/ggml-base.en.bin"@,
                model_timeout_seconds: 300,
                vad_threshold: DEFAULT_VAD_THRESHOLD,
                language: Some("en"@),
            },
            audio: AudioConfigView {
                device: None,
                sample_rate: 16000,
                channels: 1,
                buffer_size: 1024,
            },
            ui: UiConfig {
                popup_width: 400,
                popup_height: 200,
                auto_copy: false,
                show_notifications: true,
            },
            ipc: IpcConfigView { socket_path: "/tmp/dictation.sock"@, timeout_seconds: 30 },
        }
    }
}

impl Default for Config {
    /// The base English model, released after five minutes without use;
    /// 16 kHz mono capture from the default device; a 400 by 200 popup that
    /// notifies but does not copy; the socket under `/tmp`.
    fn default() -> (out: Self)
        ensures
            out@ == ConfigView::initial(),
    {
        Config {
            whisper: WhisperConfig {
                model_path: String::from_str("models/ggml-base.en.bin"),
                model_timeout_seconds: 300,
                vad_threshold: DEFAULT_VAD_THRESHOLD,
                language: Some(String::from_str("en")),
            },
            audio: AudioConfig { device: None, sample_rate: 16000, channels: 1, buffer_size: 1024 },
            ui: UiConfig {
                popup_width: 400,
                popup_height: 200,
                auto_copy: false,
                show_notifications: true,
            },
            ipc: IpcConfig {
                socket_path: String::from_str("/tmp/dictation.sock"),
                timeout_seconds: 30,
            },
        }
    }
}

} // verus!
