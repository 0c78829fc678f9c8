//! Engine of a local voice-dictation daemon.
//!
//! The crate holds the parts of the system that decide something: the
//! length-prefixed framing of the socket protocol (`wire`), the audio buffer
//! of a session (`audio`), the registry of open sessions (`registry`), the
//! lifecycle of the speech model (`model`) and the dispatcher that turns a
//! client's message into a reply (`daemon`). Beside them stand the messages
//! (`ipc`), the plain data they carry (`types`, `config`, `ids`, `text`), and
//! what the clients of the daemon decide (`client`, `popup`, `capture`).
//!
//! Sockets, the clock, the speech engine and the serialisation of messages
//! are the caller's business: every function here takes and returns plain
//! values. Points in time are nanoseconds since the Unix epoch, session
//! identifiers are the 128-bit values of UUIDs, and floats that are only
//! carried along are held as their bit patterns.

pub mod audio;
pub mod capture;
pub mod client;
pub mod config;
pub mod daemon;
pub mod ids;
pub mod ipc;
pub mod model;
pub mod popup;
pub mod registry;
pub mod text;
pub mod types;
pub mod wire;
