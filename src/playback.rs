//! The playback queue: synthesized mono samples waiting for the output device.
use vstd::prelude::*;
use std::collections::VecDeque;

verus! {

/// The samples that `len` output slots of `channels` interleaved channels
/// receive from `queue`: slot `i` gets the mono sample of frame `i / channels`,
/// and frames past the end of the queue get silence.
pub open spec fn output_samples(queue: Seq<i16>, len: nat, channels: nat) -> Seq<i16> {
    Seq::new(
        len,
        |i: int|
            if i / (channels as int) < queue.len() {
                queue[i / (channels as int)]
            } else {
                0i16
            },
    )
}

/// Number of frames (a short last one included) in `len` interleaved slots.
pub open spec fn frames_in(len: nat, channels: nat) -> nat {
    if len % channels == 0 {
        len / channels
    } else {
        len / channels + 1
    }
}

/// FIFO of mono samples: the controller appends, the output callback pops.
pub struct PlaybackBuffer {
    queue: VecDeque<i16>,
}

impl PlaybackBuffer {
    /// Queued samples, next to play first.
    pub closed spec fn view(&self) -> Seq<i16> {
        self.queue@
    }

    pub fn new() -> (r: Self)
        ensures
            r.view().len() == 0,
    {
        PlaybackBuffer { queue: VecDeque::new() }
    }

    pub fn len(&self) -> (r: usize)
        ensures
            r == self.view().len(),
    {
        self.queue.len()
    }

    /// Appends samples behind those already queued.
    pub fn push_samples(&mut self, samples: &Vec<i16>)
        ensures
            final(self).view() == old(self).view() + samples@,
    {
        let mut i: usize = 0;
        while i < samples.len()
            invariant
                i <= samples@.len(),
                self.queue@ == old(self).queue@ + samples@.subrange(0, i as int),
            decreases samples@.len() - i,
        {
            self.queue.push_back(samples[i]);
            i = i + 1;
            assert(old(self).queue@ + samples@.subrange(0, i as int) =~= (old(self).queue@
                + samples@.subrange(0, i - 1)).push(samples@[i - 1]));
        }
        assert(samples@.subrange(0, samples@.len() as int) =~= samples@);
    }

    /// The next sample, or silence when the queue has run dry.
    pub fn pop_sample(&mut self) -> (r: i16)
        ensures
            old(self).view().len() == 0 ==> r == 0 && final(self).view().len() == 0,
            old(self).view().len() > 0 ==> r == old(self).view()[0] && final(self).view()
                == old(self).view().drop_first(),
    {
        match self.queue.pop_front() {
            Some(s) => {
                assert(old(self).queue@.subrange(1, old(self).queue@.len() as int)
                    =~= old(self).queue@.drop_first());
                s
            },
            None => 0,
        }
    }

    /// Fills `len` interleaved output slots of `channels` channels: each frame
    /// takes one queued sample and repeats it on every channel.
    pub fn fill_output(&mut self, len: usize, channels: u16) -> (r: Vec<i16>)
        requires
            channels > 0,
        ensures
            r@ == output_samples(old(self).view(), len as nat, channels as nat),
            final(self).view() == old(self).view().skip(
                if frames_in(len as nat, channels as nat) < old(self).view().len() {
                    frames_in(len as nat, channels as nat) as int
                } else {
                    old(self).view().len() as int
                },
            ),
    {
        let ch: usize = channels as usize;
        let ghost q = self.queue@;
        let mut out: Vec<i16> = Vec::new();
        let mut frame: usize = 0;
        proof {
            vstd::arithmetic::div_mod::lemma_fundamental_div_mod(len as int, ch as int);
            lemma_ceil_bounds(
                ch as int,
                len as int,
                len as int / ch as int,
                len as int % ch as int,
                frames_in(len as nat, ch as nat) as int,
            );
        }
        while out.len() < len
            invariant
                ch == channels as nat,
                ch > 0,
                out@.len() <= len,
                frames_in(len as nat, ch as nat) <= len,
                out@.len() < len ==> out@.len() == frame * ch && frame < frames_in(
                    len as nat,
                    ch as nat,
                ),
                out@.len() == len ==> frame == frames_in(len as nat, ch as nat),
                self.queue@ == q.skip(if frame < q.len() { frame as int } else { q.len() as int }),
                forall|i: int|
                    0 <= i < out@.len() ==> #[trigger] out@[i] == output_samples(
                        q,
                        len as nat,
                        ch as nat,
                    )[i],
            decreases len - out@.len(),
        {
            let sample = self.pop_sample();
            let ghost base = out@.len();
            let mut c: usize = 0;
            while c < ch && out.len() < len
                invariant
                    ch == channels as nat,
                    ch > 0,
                    base == frame * ch,
                    out@.len() == base + c,
                    c <= ch,
                    out@.len() <= len,
                    sample == (if frame < q.len() { q[frame as int] } else { 0i16 }),
                    forall|i: int|
                        0 <= i < out@.len() ==> #[trigger] out@[i] == output_samples(
                            q,
                            len as nat,
                            ch as nat,
                        )[i],
                decreases ch - c,
            {
                proof {
                    lemma_slot_frame(frame as int, c as int, ch as int);
                }
                out.push(sample);
                c = c + 1;
            }
            proof {
                lemma_frames_step(frame as nat, ch as nat, len as nat, out@.len(), c as nat);
                if frame < q.len() {
                    assert(q.skip(frame as int).drop_first() =~= q.skip(frame as int + 1));
                } else {
                    assert(q.skip(q.len() as int).len() == 0);
                }
            }
            frame = frame + 1;
        }
        proof {
            assert(out@ =~= output_samples(q, len as nat, ch as nat));
        }
        out
    }
}

#[verifier::nonlinear]
proof fn lemma_slot_frame(frame: int, c: int, ch: int)
    requires
        0 <= c < ch,
        frame >= 0,
    ensures
        (frame * ch + c) / ch == frame,
{
    vstd::arithmetic::div_mod::lemma_fundamental_div_mod_converse_div(frame * ch + c, ch, frame, c);
}

proof fn lemma_frames_step(frame: nat, ch: nat, len: nat, n: nat, c: nat)
    requires
        ch > 0,
        frame < frames_in(len, ch),
        n == frame * ch + c,
        n <= len,
        1 <= c <= ch,
        c == ch || n == len,
    ensures
        n < len ==> n == (frame + 1) * ch && frame + 1 < frames_in(len, ch),
        n == len ==> frame + 1 == frames_in(len, ch),
{
    vstd::arithmetic::div_mod::lemma_fundamental_div_mod(len as int, ch as int);
    lemma_ceil_step(
        frame as int,
        ch as int,
        len as int,
        n as int,
        c as int,
        len as int / ch as int,
        len as int % ch as int,
        frames_in(len, ch) as int,
    );
}

#[verifier::nonlinear]
proof fn lemma_ceil_step(frame: int, ch: int, len: int, n: int, c: int, q: int, r: int, f: int)
    requires
        ch > 0,
        frame >= 0,
        len == ch * q + r,
        0 <= r < ch,
        f == (if r == 0 { q } else { q + 1 }),
        frame < f,
        n == frame * ch + c,
        n <= len,
        1 <= c <= ch,
        c == ch || n == len,
    ensures
        n < len ==> n == (frame + 1) * ch && frame + 1 < f,
        n == len ==> frame + 1 == f,
{
}

#[verifier::nonlinear]
proof fn lemma_ceil_bounds(ch: int, len: int, q: int, r: int, f: int)
    requires
        ch > 0,
        len >= 0,
        len == ch * q + r,
        0 <= r < ch,
        f == (if r == 0 { q } else { q + 1 }),
    ensures
        f <= len,
        len > 0 ==> f > 0,
{
}

} // verus!
