//! Decision logic of a conversational audio pipeline: voice activity
//! detection with pre-roll and post-roll buffering, the playback queue,
//! transcript filtering and the pipeline's run lifecycle.
pub mod frame;
pub mod vad;
pub mod playback;
pub mod text;
pub mod tts;
pub mod settings;
pub mod pipeline;
