//! The pipeline controller's state: the run lifecycle (start, stop, the
//! cancellation of a run), the configurable pause length, the phase that is
//! reported to observers, and the decisions of one processing cycle.
//!
//! A run is identified by the id of its cancellation flag. The capture
//! callback and the poll loop of a run ask `is_cancelled` with that id. A
//! stopped run stays live, and the pipeline `running`, until its loop has
//! seen the flag and ended the run.
use vstd::prelude::*;
use crate::text::{usable_transcript, is_usable_transcript, trimmed};
use crate::vad::DEFAULT_SILENCE_DURATION_MS;

verus! {

/// Phase of the pipeline, reported to observers on every change.
#[derive(Clone, Copy, Debug, PartialEq, Eq, Structural)]
pub enum PipelineStatus {
    Idle,
    Listening,
    Processing,
    Speaking,
    Stopped,
}

pub open spec fn status_label(s: PipelineStatus) -> Seq<char> {
    match s {
        PipelineStatus::Idle => "idle"@,
        PipelineStatus::Listening => "listening"@,
        PipelineStatus::Processing => "processing"@,
        PipelineStatus::Speaking => "speaking"@,
        PipelineStatus::Stopped => "stopped"@,
    }
}

impl PipelineStatus {
    /// The name under which the phase is reported.
    pub fn as_str(&self) -> (r: &'static str)
        ensures
            r@ == status_label(*self),
    {
        match self {
            PipelineStatus::Idle => "idle",
            PipelineStatus::Listening => "listening",
            PipelineStatus::Processing => "processing",
            PipelineStatus::Speaking => "speaking",
            PipelineStatus::Stopped => "stopped",
        }
    }
}

pub struct PipelineState {
    is_running: bool,
    live_run: Option<u64>,
    stop_requested: bool,
    next_run: u64,
    silence_duration_ms: u64,
    status: PipelineStatus,
}

impl PipelineState {
    pub closed spec fn running(&self) -> bool {
        self.is_running
    }

    /// Id of the live run (of its cancellation flag), until that run ends.
    pub closed spec fn live_run_id(&self) -> Option<u64> {
        self.live_run
    }

    /// Whether the live run's cancellation flag is set.
    pub closed spec fn stop_requested(&self) -> bool {
        self.stop_requested
    }

    /// Id that the next run will get.
    pub closed spec fn next_run_id(&self) -> u64 {
        self.next_run
    }

    pub closed spec fn silence_ms(&self) -> u64 {
        self.silence_duration_ms
    }

    pub closed spec fn status(&self) -> PipelineStatus {
        self.status
    }

    /// Running exactly while a run is live (its flag may already be set),
    /// the live run never has the id of the next one, and no flag is set
    /// without a live run.
    pub open spec fn wf(&self) -> bool {
        &&& self.running() == self.live_run_id().is_some()
        &&& self.live_run_id() != Some(self.next_run_id())
        &&& (!self.running() ==> !self.stop_requested())
    }

    /// Whether the run `run` has been told to stop: it is not the live run,
    /// or the live run's flag is set.
    pub open spec fn cancelled(&self, run: u64) -> bool {
        self.live_run_id() != Some(run) || self.stop_requested()
    }

    /// The state after `start` on a pipeline that is not running.
    pub closed spec fn started(self) -> PipelineState {
        PipelineState {
            is_running: true,
            live_run: Some(self.next_run),
            stop_requested: false,
            next_run: (if self.next_run == u64::MAX {
                0
            } else {
                (self.next_run + 1) as u64
            }),
            silence_duration_ms: self.silence_duration_ms,
            status: PipelineStatus::Listening,
        }
    }

    /// The state after `stop`: the live run's flag is set, and the run stays
    /// live until its loop has seen it.
    pub closed spec fn stopped(self) -> PipelineState {
        PipelineState { stop_requested: self.is_running, ..self }
    }

    /// The state after the live run has ended.
    pub closed spec fn finished(self) -> PipelineState {
        PipelineState {
            is_running: false,
            live_run: None,
            stop_requested: false,
            status: PipelineStatus::Stopped,
            ..self
        }
    }

    /// The same state in phase `status`.
    pub closed spec fn with_status(self, status: PipelineStatus) -> PipelineState {
        PipelineState { status, ..self }
    }

    /// The same state with pause length `ms`.
    pub closed spec fn with_silence(self, ms: u64) -> PipelineState {
        PipelineState { silence_duration_ms: ms, ..self }
    }

    /// Not running, the default pause length, no run so far.
    pub fn new() -> (r: Self)
        ensures
            r.wf(),
            !r.running(),
            r.live_run_id().is_none(),
            !r.stop_requested(),
            r.silence_ms() == DEFAULT_SILENCE_DURATION_MS,
            r.status() == PipelineStatus::Idle,
    {
        PipelineState {
            is_running: false,
            live_run: None,
            stop_requested: false,
            next_run: 0,
            silence_duration_ms: DEFAULT_SILENCE_DURATION_MS,
            status: PipelineStatus::Idle,
        }
    }

    /// True from `start` until the run's loop has ended, a stop requested
    /// meanwhile included.
    pub fn is_running(&self) -> (r: bool)
        ensures
            r == self.running(),
    {
        self.is_running
    }

    pub fn get_silence_duration_ms(&self) -> (r: u64)
        ensures
            r == self.silence_ms(),
    {
        self.silence_duration_ms
    }

    /// Sets the pause length; a run under way uses it from its next poll.
    pub fn set_silence_duration_ms(&mut self, ms: u64)
        requires
            old(self).wf(),
        ensures
            final(self).wf(),
            *final(self) == old(self).with_silence(ms),
            final(self).silence_ms() == ms,
            final(self).running() == old(self).running(),
            final(self).live_run_id() == old(self).live_run_id(),
            final(self).stop_requested() == old(self).stop_requested(),
            final(self).next_run_id() == old(self).next_run_id(),
            final(self).status() == old(self).status(),
    {
        self.silence_duration_ms = ms;
    }

    pub fn status_now(&self) -> (r: PipelineStatus)
        ensures
            r == self.status(),
    {
        self.status
    }

    /// Begins a run unless one is live, also one that was told to stop and
    /// has not ended yet. Returns the new run's id, or `None` (and changes
    /// nothing) if a run was live.
    pub fn start(&mut self) -> (r: Option<u64>)
        requires
            old(self).wf(),
        ensures
            final(self).wf(),
            old(self).running() ==> r.is_none() && *final(self) == *old(self),
            !old(self).running() ==> r == Some(old(self).next_run_id()) && *final(self) == old(
                self,
            ).started(),
            !old(self).running() ==> final(self).running() && final(self).live_run_id() == r
                && !final(self).stop_requested() && final(self).status()
                == PipelineStatus::Listening && final(self).silence_ms() == old(self).silence_ms(),
    {
        if self.is_running {
            return None;
        }
        let id = self.next_run;
        self.next_run = if self.next_run == u64::MAX {
            0
        } else {
            self.next_run + 1
        };
        self.live_run = Some(id);
        self.stop_requested = false;
        self.is_running = true;
        self.status = PipelineStatus::Listening;
        Some(id)
    }

    /// Sets the live run's cancellation flag. The run stays live (and
    /// `running`) until its loop sees the flag and calls `finish_run`; a
    /// call under way in that run is not interrupted.
    pub fn stop(&mut self)
        requires
            old(self).wf(),
        ensures
            final(self).wf(),
            *final(self) == old(self).stopped(),
            final(self).running() == old(self).running(),
            final(self).live_run_id() == old(self).live_run_id(),
            final(self).stop_requested() == old(self).running(),
            final(self).next_run_id() == old(self).next_run_id(),
            final(self).silence_ms() == old(self).silence_ms(),
            final(self).status() == old(self).status(),
            forall|run: u64| #[trigger] final(self).cancelled(run),
    {
        if self.is_running {
            self.stop_requested = true;
        }
    }

    /// Whether the run `run` has been told to stop.
    pub fn is_cancelled(&self, run: u64) -> (r: bool)
        ensures
            r == self.cancelled(run),
    {
        match self.live_run {
            Some(id) => id != run || self.stop_requested,
            None => true,
        }
    }

    /// Ends the run `run` (its loop saw the flag, or its devices failed).
    /// Returns whether the pipeline is now `Stopped`; for a run that is not
    /// the live one nothing changes.
    pub fn finish_run(&mut self, run: u64) -> (r: bool)
        requires
            old(self).wf(),
        ensures
            final(self).wf(),
            r == (old(self).live_run_id() == Some(run)),
            r ==> *final(self) == old(self).finished(),
            r ==> !final(self).running() && final(self).live_run_id().is_none()
                && !final(self).stop_requested() && final(self).status()
                == PipelineStatus::Stopped && final(self).silence_ms() == old(self).silence_ms()
                && final(self).next_run_id() == old(self).next_run_id(),
            !r ==> *final(self) == *old(self),
    {
        let ends = match self.live_run {
            Some(id) => id == run,
            None => false,
        };
        if ends {
            self.live_run = None;
            self.stop_requested = false;
            self.is_running = false;
            self.status = PipelineStatus::Stopped;
        }
        ends
    }

    /// A flushed segment arrives: an empty one is dropped and the pipeline
    /// stays `Listening`; otherwise it moves to `Processing`. Returns whether
    /// the segment goes to transcription.
    pub fn begin_cycle(&mut self, segment_len: usize) -> (r: bool)
        requires
            old(self).wf(),
        ensures
            final(self).wf(),
            r == (segment_len > 0),
            final(self).status() == (if r {
                PipelineStatus::Processing
            } else {
                PipelineStatus::Listening
            }),
            *final(self) == old(self).with_status(final(self).status()),
    {
        if segment_len > 0 {
            self.status = PipelineStatus::Processing;
            true
        } else {
            self.status = PipelineStatus::Listening;
            false
        }
    }

    /// The transcription came back (`None`: it failed or no model is
    /// loaded). Returns the text to speak, trimmed, and moves to `Speaking`;
    /// without usable text, returns `None` and moves back to `Listening`.
    pub fn accept_transcript(&mut self, transcript: Option<String>) -> (r: Option<String>)
        requires
            old(self).wf(),
        ensures
            final(self).wf(),
            r.is_some() == (transcript.is_some() && is_usable_transcript(
                trimmed(transcript.unwrap()@),
            )),
            r.is_some() ==> r.unwrap()@ == trimmed(transcript.unwrap()@),
            final(self).status() == (if r.is_some() {
                PipelineStatus::Speaking
            } else {
                PipelineStatus::Listening
            }),
            *final(self) == old(self).with_status(final(self).status()),
    {
        let text = match transcript {
            Some(t) => usable_transcript(t.as_str()),
            None => None,
        };
        self.status = if text.is_some() {
            PipelineStatus::Speaking
        } else {
            PipelineStatus::Listening
        };
        text
    }

    /// The cycle is over, whatever came of it.
    pub fn end_cycle(&mut self)
        requires
            old(self).wf(),
        ensures
            final(self).wf(),
            final(self).status() == PipelineStatus::Listening,
            *final(self) == old(self).with_status(PipelineStatus::Listening),
    {
        self.status = PipelineStatus::Listening;
    }
}

/// Sets the live run's cancellation flag, if a run is live.
pub fn stop_pipeline(state: &mut PipelineState)
    requires
        old(state).wf(),
    ensures
        final(state).wf(),
        *final(state) == old(state).stopped(),
        final(state).running() == old(state).running(),
        final(state).live_run_id() == old(state).live_run_id(),
        final(state).next_run_id() == old(state).next_run_id(),
        forall|run: u64| #[trigger] final(state).cancelled(run),
{
    state.stop();
}

/// Stop keeps the run live until it ends, so a `start` in between is a
/// no-op; once the run has ended, a `start` gives a clean run: running under
/// a fresh flag that is clear, listening, with the pause length kept, while
/// the stopped run stays cancelled.
pub proof fn lemma_stop_then_start(s: PipelineState, earlier_run: u64)
    requires
        s.wf(),
        s.live_run_id() == Some(earlier_run),
    ensures
        s.stopped().wf(),
        s.stopped().running(),
        s.stopped().cancelled(earlier_run),
        s.stopped().finished().wf(),
        !s.stopped().finished().running(),
        s.stopped().finished().started().wf(),
        s.stopped().finished().started().running(),
        s.stopped().finished().started().live_run_id() == Some(s.next_run_id()),
        !s.stopped().finished().started().cancelled(s.next_run_id()),
        s.stopped().finished().started().cancelled(earlier_run),
        s.stopped().finished().started().status() == PipelineStatus::Listening,
        s.stopped().finished().started().silence_ms() == s.silence_ms(),
{
}

/// After a start the pipeline is running under a clear flag, so a second
/// `start` takes its no-op branch and leaves that run as it is.
pub proof fn lemma_started_is_running(s: PipelineState)
    requires
        s.wf(),
        !s.running(),
    ensures
        s.started().running(),
        s.started().wf(),
        !s.started().cancelled(s.next_run_id()),
{
}

/// Whether audio at `from_rate` has to be resampled for playback at `to_rate`.
pub fn needs_resampling(from_rate: u32, to_rate: u32) -> (r: bool)
    ensures
        r == (from_rate != to_rate),
{
    from_rate != to_rate
}

/// The audio that goes to playback: at equal rates the synthesized audio
/// itself; otherwise its resampled form, or, where resampling failed
/// (`None`), the synthesized audio unchanged.
pub fn playback_audio(audio: Vec<i16>, from_rate: u32, to_rate: u32, resampled: Option<Vec<i16>>) -> (r: Vec<i16>)
    ensures
        from_rate == to_rate ==> r@ == audio@,
        from_rate != to_rate ==> r@ == (match resampled {
            Some(v) => v@,
            None => audio@,
        }),
{
    if from_rate == to_rate {
        return audio;
    }
    match resampled {
        Some(v) => v,
        None => audio,
    }
}

} // verus!
