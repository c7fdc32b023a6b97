//! Configuration of the speech synthesizer (the piper executable and its
//! voices), the checks made before a synthesis, and the decoding of its raw
//! output. Running the executable is left to the caller; file existence is
//! reported by the caller too.
use vstd::prelude::*;
use crate::text::{same_text, is_blank, trimmed};

verus! {

/// Rate of the synthesizer's raw output, in Hz.
pub const PIPER_SAMPLE_RATE: u32 = 22050;

/// A voice: its model and the model's configuration file.
#[derive(Clone, Debug)]
pub struct Voice {
    pub id: String,
    pub name: String,
    pub model_path: String,
    pub config_path: String,
}

impl Voice {
    /// A field-by-field copy.
    pub fn duplicate(&self) -> (r: Voice)
        ensures
            r.same_as(self),
    {
        Voice {
            id: self.id.clone(),
            name: self.name.clone(),
            model_path: self.model_path.clone(),
            config_path: self.config_path.clone(),
        }
    }

    pub open spec fn same_as(&self, o: &Voice) -> bool {
        &&& self.id@ == o.id@
        &&& self.name@ == o.name@
        &&& self.model_path@ == o.model_path@
        &&& self.config_path@ == o.config_path@
    }
}

/// Why a configuration change or a synthesis was refused.
#[derive(Clone, Debug)]
pub enum TtsError {
    /// The piper executable is not at the given path.
    PiperNotFound(String),
    /// The voice model file is not at the given path.
    ModelNotFound(String),
    /// The voice configuration file is not at the given path.
    ConfigNotFound(String),
    /// No voice has the given id.
    VoiceNotFound(String),
    PiperPathNotSet,
    NoVoiceSelected,
}

/// What a synthesis runs: the executable, the voice model and its configuration.
#[derive(Clone, Debug)]
pub struct SynthesisJob {
    pub piper_path: String,
    pub model_path: String,
    pub config_path: String,
}

pub struct TextToSpeech {
    piper_path: Option<String>,
    voices: Vec<Voice>,
    current_voice: Option<Voice>,
}

/// Index of the first voice with the given id, if any.
pub open spec fn first_with_id(voices: Seq<Voice>, id: Seq<char>, i: int) -> bool {
    &&& 0 <= i < voices.len()
    &&& voices[i].id@ == id
    &&& forall|j: int| 0 <= j < i ==> voices[j].id@ != id
}

/// Sample `i` of raw 16-bit little-endian PCM.
pub open spec fn pcm16le_sample(bytes: Seq<u8>, i: int) -> i16 {
    let v = bytes[2 * i] + 256 * bytes[2 * i + 1];
    if v >= 32768 {
        (v - 65536) as i16
    } else {
        v as i16
    }
}

/// Raw 16-bit little-endian PCM as samples; a trailing odd byte is ignored.
pub open spec fn pcm16le(bytes: Seq<u8>) -> Seq<i16> {
    Seq::new(bytes.len() / 2, |i: int| pcm16le_sample(bytes, i))
}

impl TextToSpeech {
    pub closed spec fn piper_path_view(&self) -> Option<Seq<char>> {
        match self.piper_path {
            Some(p) => Some(p@),
            None => None,
        }
    }

    pub closed spec fn voices_view(&self) -> Seq<Voice> {
        self.voices@
    }

    pub closed spec fn current_voice_view(&self) -> Option<Voice> {
        self.current_voice
    }

    /// Nothing configured.
    pub fn new() -> (r: Self)
        ensures
            r.piper_path_view().is_none(),
            r.voices_view().len() == 0,
            r.current_voice_view().is_none(),
    {
        TextToSpeech { piper_path: None, voices: Vec::new(), current_voice: None }
    }

    /// Sets the executable, which `exists` says is present on disk.
    pub fn set_piper_path(&mut self, path: String, exists: bool) -> (r: Result<(), TtsError>)
        ensures
            final(self).voices_view() == old(self).voices_view(),
            final(self).current_voice_view() == old(self).current_voice_view(),
            exists ==> r is Ok && final(self).piper_path_view() == Some(path@),
            !exists ==> final(self).piper_path_view() == old(self).piper_path_view() && match r {
                Err(TtsError::PiperNotFound(p)) => p@ == path@,
                _ => false,
            },
    {
        if !exists {
            return Err(TtsError::PiperNotFound(path));
        }
        self.piper_path = Some(path);
        Ok(())
    }

    /// Adds a voice whose model and configuration files, as `model_exists`
    /// and `config_exists` say, are present on disk.
    pub fn add_voice(
        &mut self,
        id: &str,
        name: &str,
        model_path: String,
        config_path: String,
        model_exists: bool,
        config_exists: bool,
    ) -> (r: Result<(), TtsError>)
        ensures
            final(self).piper_path_view() == old(self).piper_path_view(),
            final(self).current_voice_view() == old(self).current_voice_view(),
            r is Ok <==> model_exists && config_exists,
            r is Ok ==> final(self).voices_view().len() == old(self).voices_view().len() + 1
                && final(self).voices_view().subrange(0, old(self).voices_view().len() as int)
                == old(self).voices_view() && ({
                let v = final(self).voices_view().last();
                &&& v.id@ == id@
                &&& v.name@ == name@
                &&& v.model_path@ == model_path@
                &&& v.config_path@ == config_path@
            }),
            r is Err ==> final(self).voices_view() == old(self).voices_view(),
            !model_exists ==> match r {
                Err(TtsError::ModelNotFound(p)) => p@ == model_path@,
                _ => false,
            },
            model_exists && !config_exists ==> match r {
                Err(TtsError::ConfigNotFound(p)) => p@ == config_path@,
                _ => false,
            },
    {
        if !model_exists {
            return Err(TtsError::ModelNotFound(model_path));
        }
        if !config_exists {
            return Err(TtsError::ConfigNotFound(config_path));
        }
        self.voices.push(
            Voice {
                id: id.to_owned(),
                name: name.to_owned(),
                model_path: model_path,
                config_path: config_path,
            },
        );
        assert(self.voices@.subrange(0, old(self).voices@.len() as int) =~= old(self).voices@);
        Ok(())
    }

    /// The `(id, name)` of each voice, in the order they were added.
    pub fn list_voices(&self) -> (r: Vec<(String, String)>)
        ensures
            r@.len() == self.voices_view().len(),
            forall|i: int|
                0 <= i < r@.len() ==> r@[i].0@ == self.voices_view()[i].id@ && r@[i].1@
                    == self.voices_view()[i].name@,
    {
        let mut out: Vec<(String, String)> = Vec::new();
        let mut i: usize = 0;
        while i < self.voices.len()
            invariant
                i <= self.voices@.len(),
                out@.len() == i,
                forall|k: int|
                    0 <= k < i ==> out@[k].0@ == self.voices@[k].id@ && out@[k].1@
                        == self.voices@[k].name@,
            decreases self.voices@.len() - i,
        {
            let v = &self.voices[i];
            out.push((v.id.clone(), v.name.clone()));
            i = i + 1;
        }
        out
    }

    /// Makes the first voice with id `voice_id` the current one.
    pub fn select_voice(&mut self, voice_id: &str) -> (r: Result<(), TtsError>)
        ensures
            final(self).piper_path_view() == old(self).piper_path_view(),
            final(self).voices_view() == old(self).voices_view(),
            r is Ok <==> exists|i: int| 0 <= i < old(self).voices_view().len()
                && old(self).voices_view()[i].id@ == voice_id@,
            r is Ok ==> exists|i: int|
                #[trigger] first_with_id(old(self).voices_view(), voice_id@, i)
                    && final(self).current_voice_view().is_some()
                    && final(self).current_voice_view().unwrap().same_as(
                    &old(self).voices_view()[i],
                ),
            r is Err ==> final(self).current_voice_view() == old(self).current_voice_view()
                && match r {
                Err(TtsError::VoiceNotFound(id)) => id@ == voice_id@,
                _ => false,
            },
    {
        let mut i: usize = 0;
        while i < self.voices.len()
            invariant
                i <= self.voices@.len(),
                self.voices@ == old(self).voices@,
                self.piper_path == old(self).piper_path,
                self.current_voice == old(self).current_voice,
                forall|j: int| 0 <= j < i ==> self.voices@[j].id@ != voice_id@,
            decreases self.voices@.len() - i,
        {
            if same_text(self.voices[i].id.as_str(), voice_id) {
                let chosen = self.voices[i].duplicate();
                self.current_voice = Some(chosen);
                assert(first_with_id(old(self).voices_view(), voice_id@, i as int));
                return Ok(());
            }
            i = i + 1;
        }
        Err(TtsError::VoiceNotFound(voice_id.to_owned()))
    }

    /// Checks made before running a synthesis of `text`: an executable and
    /// a voice must be set. White-space-only text needs no synthesis
    /// (`Ok(None)`: the result is empty).
    pub fn synthesis_request(&self, text: &str) -> (r: Result<Option<SynthesisJob>, TtsError>)
        ensures
            self.piper_path_view().is_none() ==> r matches Err(TtsError::PiperPathNotSet),
            self.piper_path_view().is_some() && self.current_voice_view().is_none() ==> r matches Err(
                TtsError::NoVoiceSelected,
            ),
            self.piper_path_view().is_some() && self.current_voice_view().is_some() ==> match r {
                Ok(None) => trimmed(text@).len() == 0,
                Ok(Some(job)) => {
                    &&& trimmed(text@).len() != 0
                    &&& Some(job.piper_path@) == self.piper_path_view()
                    &&& job.model_path@ == self.current_voice_view().unwrap().model_path@
                    &&& job.config_path@ == self.current_voice_view().unwrap().config_path@
                },
                Err(_) => false,
            },
    {
        let piper = match &self.piper_path {
            Some(p) => p,
            None => {
                return Err(TtsError::PiperPathNotSet);
            },
        };
        let voice = match &self.current_voice {
            Some(v) => v,
            None => {
                return Err(TtsError::NoVoiceSelected);
            },
        };
        if is_blank(text) {
            return Ok(None);
        }
        Ok(
            Some(
                SynthesisJob {
                    piper_path: piper.clone(),
                    model_path: voice.model_path.clone(),
                    config_path: voice.config_path.clone(),
                },
            ),
        )
    }

    /// Rate of the synthesized audio, in Hz.
    pub fn get_sample_rate(&self) -> (r: u32)
        ensures
            r == PIPER_SAMPLE_RATE,
    {
        PIPER_SAMPLE_RATE
    }

    /// Whether an executable and a voice are both set.
    pub fn is_ready(&self) -> (r: bool)
        ensures
            r == (self.piper_path_view().is_some() && self.current_voice_view().is_some()),
    {
        self.piper_path.is_some() && self.current_voice.is_some()
    }
}

/// Decodes the synthesizer's raw 16-bit little-endian PCM output.
pub fn decode_pcm16le(bytes: &Vec<u8>) -> (r: Vec<i16>)
    ensures
        r@ == pcm16le(bytes@),
{
    let len: usize = bytes.len();
    let n: usize = len / 2;
    let mut out: Vec<i16> = Vec::new();
    let mut i: usize = 0;
    while i < n
        invariant
            len == bytes@.len(),
            n == len / 2,
            i <= n,
            out@.len() == i,
            forall|k: int| 0 <= k < i ==> out@[k] == pcm16le_sample(bytes@, k),
        decreases n - i,
    {
        assert(2 * i + 1 < len);
        let lo: i32 = bytes[2 * i] as i32;
        let hi: i32 = bytes[2 * i + 1] as i32;
        let v: i32 = lo + 256 * hi;
        let s: i16 = if v >= 32768 {
            (v - 65536) as i16
        } else {
            v as i16
        };
        out.push(s);
        i = i + 1;
    }
    assert(out@ =~= pcm16le(bytes@));
    out
}

} // verus!
