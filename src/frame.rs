//! Per-frame signal measures: down-mixing to mono and the speech/silence
//! decision by RMS energy. Samples are signed 16-bit PCM, full scale 32768.
use vstd::prelude::*;
use vstd::arithmetic::div_mod::{lemma_fundamental_div_mod, lemma_fundamental_div_mod_converse_div};

verus! {

/// Magnitude that a sample value is measured against (one past `i16::MAX`).
pub const FULL_SCALE: u64 = 32768;

/// RMS above which a frame counts as speech, in basis points of full scale
/// (100 basis points = 0.01 of full scale).
pub const SILENCE_THRESHOLD_BASIS_POINTS: u64 = 100;

/// Sum of the squares of the samples.
pub open spec fn energy(s: Seq<i16>) -> int
    decreases s.len(),
{
    if s.len() == 0 {
        0
    } else {
        energy(s.drop_last()) + s.last() * s.last()
    }
}

/// `sqrt(energy / len) > threshold * FULL_SCALE`, squared and cleared of
/// fractions. An empty frame has no energy and is never speech.
pub open spec fn is_speech(s: Seq<i16>) -> bool {
    energy(s) * (10000 * 10000) > s.len() * (SILENCE_THRESHOLD_BASIS_POINTS * FULL_SCALE) * (
    SILENCE_THRESHOLD_BASIS_POINTS * FULL_SCALE)
}

/// Sum of the samples.
pub open spec fn sample_sum(s: Seq<i16>) -> int
    decreases s.len(),
{
    if s.len() == 0 {
        0
    } else {
        sample_sum(s.drop_last()) + s.last()
    }
}

/// The `k`-th group of `channels` interleaved samples (the last one may be short).
pub open spec fn chunk(data: Seq<i16>, channels: nat, k: int) -> Seq<i16> {
    let lo = k * channels;
    let hi = if (k + 1) * channels <= data.len() {
        (k + 1) * channels
    } else {
        data.len() as int
    };
    data.subrange(lo, hi)
}

/// Number of frames in `len` interleaved samples, a short last frame included.
pub open spec fn frame_count(len: nat, channels: nat) -> nat {
    if len % channels == 0 {
        len / channels
    } else {
        len / channels + 1
    }
}

/// Mono signal: each frame of `channels` samples replaced by the floor of its
/// sum divided by `channels`. One channel (or none) leaves the data as it is.
pub open spec fn downmixed(data: Seq<i16>, channels: nat) -> Seq<i16> {
    if channels <= 1 {
        data
    } else {
        Seq::new(
            frame_count(data.len(), channels),
            |k: int| (sample_sum(chunk(data, channels, k)) / channels as int) as i16,
        )
    }
}

proof fn lemma_energy_bounds(s: Seq<i16>)
    ensures
        0 <= energy(s) <= s.len() * (FULL_SCALE * FULL_SCALE),
    decreases s.len(),
{
    if s.len() > 0 {
        lemma_energy_bounds(s.drop_last());
        let x = s.last() as int;
        assert(0 <= x * x <= FULL_SCALE * FULL_SCALE) by (nonlinear_arith)
            requires
                -32768 <= x <= 32767,
        ;
    }
}

proof fn lemma_sum_bounds(s: Seq<i16>)
    ensures
        -32768 * s.len() <= sample_sum(s) <= 32767 * s.len(),
    decreases s.len(),
{
    if s.len() > 0 {
        lemma_sum_bounds(s.drop_last());
    }
}

/// Sum of the squares of `frame`.
pub fn frame_energy(frame: &Vec<i16>) -> (r: u128)
    ensures
        r == energy(frame@),
        r <= frame@.len() * (FULL_SCALE * FULL_SCALE),
{
    let mut acc: u128 = 0;
    let mut i: usize = 0;
    while i < frame.len()
        invariant
            i <= frame@.len(),
            acc == energy(frame@.subrange(0, i as int)),
        decreases frame@.len() - i,
    {
        proof {
            lemma_energy_bounds(frame@.subrange(0, i as int));
            assert(frame@.subrange(0, i as int + 1).drop_last() == frame@.subrange(0, i as int));
        }
        let v: i32 = frame[i] as i32;
        assert(0 <= v * v <= 1073741824) by (nonlinear_arith)
            requires
                -32768 <= v <= 32767,
        ;
        let sq: i32 = v * v;
        assert((i as int) * 1073741824 + 1073741824 <= u128::MAX) by (nonlinear_arith)
            requires
                i <= usize::MAX,
                usize::MAX <= 0xffff_ffff_ffff_ffff,
        ;
        acc = acc + sq as u128;
        i = i + 1;
    }
    proof {
        assert(frame@.subrange(0, i as int) == frame@);
        lemma_energy_bounds(frame@);
    }
    acc
}

/// Whether the frame's RMS energy is above the silence threshold.
pub fn is_speech_frame(frame: &Vec<i16>) -> (r: bool)
    ensures
        r == is_speech(frame@),
{
    let e = frame_energy(frame);
    let n = frame.len() as u128;
    let t: u128 = (SILENCE_THRESHOLD_BASIS_POINTS * FULL_SCALE) as u128;
    proof {
        assert(e * 100000000 <= n * 107374182400000000) by (nonlinear_arith)
            requires
                e <= n * 1073741824,
        ;
        assert(n * t * t <= n * 107374182400000000 <= u128::MAX);
    }
    e * 100000000 > n * t * t
}

/// Down-mixes interleaved multi-channel samples to mono by averaging each frame.
pub fn downmix(data: &Vec<i16>, channels: u16) -> (r: Vec<i16>)
    ensures
        r@ == downmixed(data@, channels as nat),
{
    if channels <= 1 {
        return data.clone();
    }
    let ch: usize = channels as usize;
    proof {
        lemma_frame_count(data@.len(), ch as nat);
    }
    let len: usize = data.len();
    let frames: usize = if data.len() % ch == 0 {
        data.len() / ch
    } else {
        data.len() / ch + 1
    };
    let mut out: Vec<i16> = Vec::new();
    let mut k: usize = 0;
    while k < frames
        invariant
            ch == channels as nat,
            1 < ch <= 65535,
            len == data@.len(),
            frames == frame_count(data@.len(), ch as nat),
            frames * ch < data@.len() + ch,
            (frames - 1) * ch < data@.len() || frames == 0,
            k <= frames,
            out@.len() == k,
            forall|i: int| 0 <= i < k ==> #[trigger] out@[i] == downmixed(data@, ch as nat)[i],
        decreases frames - k,
    {
        proof {
            lemma_below(k as int, frames as int, ch as int, data@.len() as int);
        }
        assert(k * ch < len);
        let start: usize = k * ch;
        let end: usize = if data.len() - start >= ch {
            start + ch
        } else {
            data.len()
        };
        assert(chunk(data@, ch as nat, k as int) == data@.subrange(start as int, end as int));
        let mut sum: i64 = 0;
        let mut j: usize = start;
        while j < end
            invariant
                start <= j <= end <= data@.len(),
                end - start <= ch,
                ch <= 65535,
                sum == sample_sum(data@.subrange(start as int, j as int)),
            decreases end - j,
        {
            proof {
                lemma_sum_bounds(data@.subrange(start as int, j as int));
                assert(data@.subrange(start as int, j as int + 1).drop_last() == data@.subrange(
                    start as int,
                    j as int,
                ));
            }
            sum = sum + data[j] as i64;
            j = j + 1;
        }
        proof {
            lemma_sum_bounds(data@.subrange(start as int, end as int));
        }
        let shifted: u64 = (sum + 32768 * (ch as i64)) as u64;
        let q: u64 = shifted / (ch as u64);
        let avg: i64 = q as i64 - 32768;
        proof {
            let s = sum as int;
            let c = ch as int;
            lemma_fundamental_div_mod(s, c);
            assert(-32768 * c <= s <= 32767 * c) by (nonlinear_arith)
                requires
                    -32768 * (end - start) <= s <= 32767 * (end - start),
                    0 <= end - start <= c,
            ;
            lemma_shifted_quotient(s, c, s / c, s % c);
            lemma_fundamental_div_mod_converse_div(s + 32768 * c, c, s / c + 32768, s % c);
        }
        out.push(avg as i16);
        k = k + 1;
    }
    proof {
        assert(out@ == downmixed(data@, ch as nat));
    }
    out
}

proof fn lemma_frame_count(n: nat, c: nat)
    requires
        c > 1,
    ensures
        n / c < n || n == 0,
        frame_count(n, c) * c < n + c,
        frame_count(n, c) == 0 || (frame_count(n, c) - 1) * c < n,
{
    lemma_fundamental_div_mod(n as int, c as int);
    lemma_ceil_frames(n as int, c as int, n as int / c as int, n as int % c as int, frame_count(n, c) as int);
}

#[verifier::nonlinear]
proof fn lemma_ceil_frames(n: int, c: int, q: int, r: int, f: int)
    requires
        n >= 0,
        c > 1,
        n == c * q + r,
        0 <= r < c,
        f == (if r == 0 { q } else { q + 1 }),
    ensures
        q < n || n == 0,
        f * c < n + c,
        f == 0 || (f - 1) * c < n,
{
}

#[verifier::nonlinear]
proof fn lemma_below(k: int, f: int, c: int, n: int)
    requires
        0 <= k < f,
        (f - 1) * c < n,
        c > 0,
    ensures
        k * c < n,
        (k + 1) * c == k * c + c,
{
}

#[verifier::nonlinear]
proof fn lemma_shifted_quotient(s: int, c: int, q: int, r: int)
    requires
        c > 0,
        s == c * q + r,
        0 <= r < c,
        -32768 * c <= s <= 32767 * c,
    ensures
        s + 32768 * c == (q + 32768) * c + r,
        -32768 <= q <= 32767,
{
}

} // verus!
