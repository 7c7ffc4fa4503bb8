//! Core machinery for a voice-driven terminal front end: an audio-capture
//! engine that confines a non-shareable hardware stream behind a command
//! queue, a streaming speech-decoder adapter with partial/final result
//! semantics, and a pseudo-terminal process supervisor.
//!
//! The decision logic of each component is verified; platform work (audio
//! hardware, the recognition engine, the pseudo-terminal) is performed by a
//! thin unverified shell that feeds outcomes back into these state machines.

pub mod audio;
pub mod models;
pub mod process;
pub mod speech;

pub use audio::{AudioCapture, AudioDeviceInfo, AudioError, MockAudioCapture};
pub use models::{ModelInfo, ModelManager, ScannedEntry};
pub use process::{AgentError, AgentProcess, MockAgentProcess, OutputEvent, ProcessStatus};
pub use speech::{MockSpeechRecognizer, RecognitionResult, SpeechError, SpeechRecognizer};
