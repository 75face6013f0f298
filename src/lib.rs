//! Core of a voice chat assistant: the capture state machine, the stream
//! ingestion step, sentence chunking for narration, the narration queue,
//! backend selection, the transcription guard and result-view markup.

pub mod chunker;
pub mod config;
pub mod markup;
pub mod narration;
pub mod recording;
pub mod session;
pub mod stream;
pub mod transcribe;
