//! Voice activity detection and speech-segment buffering.
//!
//! The engine is fed one input frame at a time (from the capture callback) and
//! is polled by the controller, which takes the finished segment once enough
//! silence has followed enough speech. Times are milliseconds on a monotonic
//! clock.
use vstd::prelude::*;
use std::collections::VecDeque;
use crate::frame::{is_speech, is_speech_frame, downmix, downmixed};

verus! {

/// Speech shorter than this (from onset to the poll) is never flushed.
pub const MIN_SPEECH_DURATION_MS: u64 = 300;

/// Silence after the last speech frame that ends a segment, unless configured otherwise.
pub const DEFAULT_SILENCE_DURATION_MS: u64 = 700;

/// Audio kept from before speech onset.
pub const PRE_ROLL_MS: u64 = 250;

/// Quiet frames still recorded after the last speech frame.
pub const POST_ROLL_MS: u64 = 200;

/// Milliseconds from `since` to `now`; zero if the clock reads earlier.
pub open spec fn elapsed(now: u64, since: u64) -> int {
    if now >= since {
        now - since
    } else {
        0
    }
}

/// Number of samples held by the pre-roll buffer at `sample_rate`.
pub open spec fn pre_roll_capacity_for(sample_rate: u32) -> nat {
    (sample_rate * PRE_ROLL_MS / 1000) as nat
}

/// The last `cap` samples of `s` (all of them if there are fewer).
pub open spec fn keep_last(s: Seq<i16>, cap: nat) -> Seq<i16> {
    if s.len() <= cap {
        s
    } else {
        s.subrange(s.len() - cap, s.len() as int)
    }
}

/// The segment after `frame` arrives at `now`, given the state before it.
pub open spec fn segment_after(
    segment: Seq<i16>,
    pre_roll: Seq<i16>,
    speech_start: Option<u64>,
    last_activity: Option<u64>,
    frame: Seq<i16>,
    now: u64,
) -> Seq<i16> {
    if is_speech(frame) {
        if speech_start.is_none() {
            segment + pre_roll + frame
        } else {
            segment + frame
        }
    } else if speech_start.is_some() && last_activity.is_some() && elapsed(
        now,
        last_activity.unwrap(),
    ) < POST_ROLL_MS {
        segment + frame
    } else {
        segment
    }
}

/// Onset of the session after `frame` arrives at `now`: a speech frame opens
/// a session if none is open; nothing else changes it.
pub open spec fn speech_start_after(speech_start: Option<u64>, frame: Seq<i16>, now: u64) -> Option<u64> {
    if is_speech(frame) && speech_start.is_none() {
        Some(now)
    } else {
        speech_start
    }
}

/// Onset of the session after each `(frame, time)` of `frames` arrives, in order.
pub open spec fn speech_start_after_frames(
    speech_start: Option<u64>,
    frames: Seq<(Seq<i16>, u64)>,
) -> Option<u64>
    decreases frames.len(),
{
    if frames.len() == 0 {
        speech_start
    } else {
        speech_start_after(
            speech_start_after_frames(speech_start, frames.drop_last()),
            frames.last().0,
            frames.last().1,
        )
    }
}

/// Whether a poll at `now` ends the open session: silence has lasted
/// `silence_ms` and the session has lasted the minimum speech duration.
pub open spec fn flush_due(
    speech_start: Option<u64>,
    last_activity: Option<u64>,
    now: u64,
    silence_ms: u64,
) -> bool {
    &&& speech_start.is_some()
    &&& last_activity.is_some()
    &&& elapsed(now, last_activity.unwrap()) >= silence_ms
    &&& elapsed(now, speech_start.unwrap()) >= MIN_SPEECH_DURATION_MS
}

/// Speech detector with its pre-roll ring buffer and the segment under way.
pub struct VadEngine {
    pre_roll: VecDeque<i16>,
    pre_roll_capacity: usize,
    segment: Vec<i16>,
    speech_start: Option<u64>,
    last_activity: Option<u64>,
}

impl VadEngine {
    /// Recent samples, oldest first.
    pub closed spec fn pre_roll_view(&self) -> Seq<i16> {
        self.pre_roll@
    }

    pub closed spec fn capacity(&self) -> nat {
        self.pre_roll_capacity as nat
    }

    /// Samples gathered for the session under way.
    pub closed spec fn segment_view(&self) -> Seq<i16> {
        self.segment@
    }

    /// Onset of the open session, if one is open.
    pub closed spec fn speech_start_at(&self) -> Option<u64> {
        self.speech_start
    }

    /// Time of the last speech frame of the open session.
    pub closed spec fn last_activity_at(&self) -> Option<u64> {
        self.last_activity
    }

    pub open spec fn session_open(&self) -> bool {
        self.speech_start_at().is_some()
    }

    /// The pre-roll stays within its capacity, both timestamps are set
    /// together, and no samples are held outside a session.
    pub open spec fn wf(&self) -> bool {
        &&& self.pre_roll_view().len() <= self.capacity()
        &&& self.speech_start_at().is_some() == self.last_activity_at().is_some()
        &&& (!self.session_open() ==> self.segment_view().len() == 0)
    }

    /// An idle engine whose pre-roll covers `PRE_ROLL_MS` at `sample_rate`.
    pub fn new(sample_rate: u32) -> (r: Self)
        ensures
            r.wf(),
            r.capacity() == pre_roll_capacity_for(sample_rate),
            r.pre_roll_view().len() == 0,
            r.segment_view().len() == 0,
            r.speech_start_at().is_none(),
            r.last_activity_at().is_none(),
    {
        let cap: u64 = sample_rate as u64 * PRE_ROLL_MS / 1000;
        VadEngine {
            pre_roll: VecDeque::new(),
            pre_roll_capacity: cap as usize,
            segment: Vec::new(),
            speech_start: None,
            last_activity: None,
        }
    }

    /// Takes one mono frame that arrived at `now`.
    pub fn process_frame(&mut self, frame: &Vec<i16>, now: u64)
        requires
            old(self).wf(),
        ensures
            final(self).wf(),
            final(self).capacity() == old(self).capacity(),
            final(self).pre_roll_view() == keep_last(
                old(self).pre_roll_view() + frame@,
                old(self).capacity(),
            ),
            final(self).segment_view() == segment_after(
                old(self).segment_view(),
                old(self).pre_roll_view(),
                old(self).speech_start_at(),
                old(self).last_activity_at(),
                frame@,
                now,
            ),
            final(self).speech_start_at() == speech_start_after(
                old(self).speech_start_at(),
                frame@,
                now,
            ),
            final(self).last_activity_at() == (if is_speech(frame@) {
                Some(now)
            } else {
                old(self).last_activity_at()
            }),
            // a quiet frame never opens a session
            !is_speech(frame@) ==> final(self).session_open() == old(self).session_open(),
            // the pre-roll enters a segment only when its session opens
            old(self).session_open() ==> (final(self).segment_view() == old(self).segment_view()
                || final(self).segment_view() == old(self).segment_view() + frame@),
            is_speech(frame@) && !old(self).session_open() ==> final(self).segment_view()
                == old(self).pre_roll_view() + frame@,
    {
        let speech = is_speech_frame(frame);
        if speech {
            let opening = self.speech_start.is_none();
            if opening {
                self.speech_start = Some(now);
                append_deque(&mut self.segment, &self.pre_roll);
            }
            self.last_activity = Some(now);
            append_samples(&mut self.segment, frame);
        } else if self.speech_start.is_some() {
            match self.last_activity {
                Some(last) => {
                    let since: u64 = if now >= last {
                        now - last
                    } else {
                        0
                    };
                    if since < POST_ROLL_MS {
                        append_samples(&mut self.segment, frame);
                    }
                },
                None => {},
            }
        }
        self.push_pre_roll(frame);
    }

    /// Down-mixes an interleaved frame of `channels` channels and takes it
    /// as in `process_frame`.
    pub fn process_input(&mut self, data: &Vec<i16>, channels: u16, now: u64)
        requires
            old(self).wf(),
        ensures
            final(self).wf(),
            final(self).capacity() == old(self).capacity(),
            final(self).pre_roll_view() == keep_last(
                old(self).pre_roll_view() + downmixed(data@, channels as nat),
                old(self).capacity(),
            ),
            final(self).segment_view() == segment_after(
                old(self).segment_view(),
                old(self).pre_roll_view(),
                old(self).speech_start_at(),
                old(self).last_activity_at(),
                downmixed(data@, channels as nat),
                now,
            ),
            final(self).speech_start_at() == speech_start_after(
                old(self).speech_start_at(),
                downmixed(data@, channels as nat),
                now,
            ),
            final(self).last_activity_at() == (if is_speech(downmixed(data@, channels as nat)) {
                Some(now)
            } else {
                old(self).last_activity_at()
            }),
    {
        let mono = downmix(data, channels);
        self.process_frame(&mono, now);
    }

    /// Pushes the frame into the pre-roll ring, evicting the oldest samples.
    fn push_pre_roll(&mut self, frame: &Vec<i16>)
        requires
            old(self).pre_roll@.len() <= old(self).pre_roll_capacity,
        ensures
            final(self).pre_roll@ == keep_last(
                old(self).pre_roll@ + frame@,
                old(self).pre_roll_capacity as nat,
            ),
            final(self).pre_roll_capacity == old(self).pre_roll_capacity,
            final(self).segment == old(self).segment,
            final(self).speech_start == old(self).speech_start,
            final(self).last_activity == old(self).last_activity,
    {
        let cap = self.pre_roll_capacity;
        let ghost start = self.pre_roll@;
        if cap == 0 {
            assert(keep_last(start + frame@, 0) =~= Seq::<i16>::empty());
            return;
        }
        let mut i: usize = 0;
        while i < frame.len()
            invariant
                cap == self.pre_roll_capacity,
                cap > 0,
                i <= frame@.len(),
                self.pre_roll@ == keep_last(start + frame@.subrange(0, i as int), cap as nat),
                self.pre_roll@.len() <= cap,
                self.segment == old(self).segment,
                self.speech_start == old(self).speech_start,
                self.last_activity == old(self).last_activity,
                self.pre_roll_capacity == old(self).pre_roll_capacity,
            decreases frame@.len() - i,
        {
            let ghost before = self.pre_roll@;
            if self.pre_roll.len() >= cap {
                self.pre_roll.pop_front();
            }
            self.pre_roll.push_back(frame[i]);
            proof {
                let all = start + frame@.subrange(0, i as int);
                assert(start + frame@.subrange(0, i as int + 1) =~= all.push(frame@[i as int]));
                lemma_keep_last_push(all, frame@[i as int], cap as nat);
            }
            i = i + 1;
        }
        assert(frame@.subrange(0, frame@.len() as int) =~= frame@);
    }

    /// Whether a poll at `now` would flush, with `silence_ms` of silence
    /// required after the last speech frame.
    pub fn flush_is_due(&self, now: u64, silence_ms: u64) -> (r: bool)
        ensures
            r == flush_due(self.speech_start_at(), self.last_activity_at(), now, silence_ms),
    {
        match (self.speech_start, self.last_activity) {
            (Some(start), Some(last)) => {
                let silent: u64 = if now >= last {
                    now - last
                } else {
                    0
                };
                let spoken: u64 = if now >= start {
                    now - start
                } else {
                    0
                };
                silent >= silence_ms && spoken >= MIN_SPEECH_DURATION_MS
            },
            _ => false,
        }
    }

    /// Poll of the controller: if the flush is due, hands over the segment
    /// and closes the session; otherwise changes nothing.
    pub fn take_segment_if_due(&mut self, now: u64, silence_ms: u64) -> (r: Option<Vec<i16>>)
        requires
            old(self).wf(),
        ensures
            final(self).wf(),
            final(self).capacity() == old(self).capacity(),
            final(self).pre_roll_view() == old(self).pre_roll_view(),
            r.is_some() == flush_due(
                old(self).speech_start_at(),
                old(self).last_activity_at(),
                now,
                silence_ms,
            ),
            r.is_some() ==> r.unwrap()@ == old(self).segment_view(),
            r.is_some() ==> final(self).segment_view().len() == 0
                && final(self).speech_start_at().is_none()
                && final(self).last_activity_at().is_none(),
            r.is_none() ==> final(self).segment_view() == old(self).segment_view()
                && final(self).speech_start_at() == old(self).speech_start_at()
                && final(self).last_activity_at() == old(self).last_activity_at(),
    {
        if self.flush_is_due(now, silence_ms) {
            let mut taken: Vec<i16> = Vec::new();
            std::mem::swap(&mut taken, &mut self.segment);
            self.speech_start = None;
            self.last_activity = None;
            Some(taken)
        } else {
            None
        }
    }
}

/// Quiet input never reaches transcription: from an engine with no session
/// open, any run of frames that are all below the speech threshold leaves no
/// session open, so no poll at any time flushes a segment.
pub proof fn lemma_quiet_input_never_flushes(
    frames: Seq<(Seq<i16>, u64)>,
    last_activity: Option<u64>,
    now: u64,
    silence_ms: u64,
)
    requires
        forall|i: int| 0 <= i < frames.len() ==> !is_speech(#[trigger] frames[i].0),
    ensures
        speech_start_after_frames(None, frames).is_none(),
        !flush_due(speech_start_after_frames(None, frames), last_activity, now, silence_ms),
    decreases frames.len(),
{
    if frames.len() > 0 {
        let rest = frames.drop_last();
        assert forall|i: int| 0 <= i < rest.len() implies !is_speech(#[trigger] rest[i].0) by {
            assert(rest[i] == frames[i]);
        }
        lemma_quiet_input_never_flushes(rest, last_activity, now, silence_ms);
        assert(!is_speech(frames[frames.len() - 1].0));
    }
}

proof fn lemma_keep_last_push(s: Seq<i16>, x: i16, cap: nat)
    requires
        cap > 0,
    ensures
        keep_last(s.push(x), cap) == (if keep_last(s, cap).len() >= cap {
            keep_last(s, cap).subrange(1, keep_last(s, cap).len() as int)
        } else {
            keep_last(s, cap)
        }).push(x),
{
    let k = keep_last(s, cap);
    let lhs = keep_last(s.push(x), cap);
    let rhs = (if k.len() >= cap { k.subrange(1, k.len() as int) } else { k }).push(x);
    assert(lhs =~= rhs);
}

/// Appends `src` to `dst`.
fn append_samples(dst: &mut Vec<i16>, src: &Vec<i16>)
    ensures
        final(dst)@ == old(dst)@ + src@,
{
    let mut i: usize = 0;
    while i < src.len()
        invariant
            i <= src@.len(),
            dst@ == old(dst)@ + src@.subrange(0, i as int),
        decreases src@.len() - i,
    {
        dst.push(src[i]);
        i = i + 1;
        assert(old(dst)@ + src@.subrange(0, i as int) =~= (old(dst)@ + src@.subrange(
            0,
            i - 1,
        )).push(src@[i - 1]));
    }
    assert(src@.subrange(0, src@.len() as int) =~= src@);
}

/// Appends the contents of `src`, front first, to `dst`.
fn append_deque(dst: &mut Vec<i16>, src: &VecDeque<i16>)
    ensures
        final(dst)@ == old(dst)@ + src@,
{
    let mut i: usize = 0;
    while i < src.len()
        invariant
            i <= src@.len(),
            dst@ == old(dst)@ + src@.subrange(0, i as int),
        decreases src@.len() - i,
    {
        dst.push(src[i]);
        i = i + 1;
        assert(old(dst)@ + src@.subrange(0, i as int) =~= (old(dst)@ + src@.subrange(
            0,
            i - 1,
        )).push(src@[i - 1]));
    }
    assert(src@.subrange(0, src@.len() as int) =~= src@);
}

} // verus!
