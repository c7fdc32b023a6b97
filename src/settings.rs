//! User settings: chosen devices, voice and pause length. Reading and
//! writing them is left to the caller.
use vstd::prelude::*;
use crate::vad::DEFAULT_SILENCE_DURATION_MS;

verus! {

#[derive(Clone, Debug)]
pub struct Settings {
    pub input_device: Option<String>,
    pub output_device: Option<String>,
    pub voice_id: Option<String>,
    pub silence_duration_ms: u64,
}

/// Pause length used where none is stored.
pub fn default_silence_duration() -> (r: u64)
    ensures
        r == DEFAULT_SILENCE_DURATION_MS,
{
    DEFAULT_SILENCE_DURATION_MS
}

impl Settings {
    /// No device or voice chosen, the default pause length.
    pub fn new() -> (r: Self)
        ensures
            r.input_device.is_none(),
            r.output_device.is_none(),
            r.voice_id.is_none(),
            r.silence_duration_ms == DEFAULT_SILENCE_DURATION_MS,
    {
        Settings {
            input_device: None,
            output_device: None,
            voice_id: None,
            silence_duration_ms: default_silence_duration(),
        }
    }
}

} // verus!
