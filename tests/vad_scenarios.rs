use parrot::frame::{downmix, frame_energy, is_speech_frame};
use parrot::vad::{VadEngine, DEFAULT_SILENCE_DURATION_MS};

const RATE: u32 = 16000;
const FRAME_MS: u64 = 10;
const FRAME_SAMPLES: usize = 160;

fn quiet_frame() -> Vec<i16> {
    // RMS about 0.0003 of full scale
    (0..FRAME_SAMPLES).map(|i| if i % 2 == 0 { 10 } else { -10 }).collect()
}

fn loud_frame() -> Vec<i16> {
    // 0.05 of full scale
    vec![1638; FRAME_SAMPLES]
}

/// Feeds frames every 10 ms and polls every 50 ms; returns the flushed segments.
fn run(frames: &[Vec<i16>], silence_ms: u64) -> Vec<Vec<i16>> {
    let mut vad = VadEngine::new(RATE);
    let mut out = Vec::new();
    let mut now: u64 = 0;
    for f in frames {
        vad.process_frame(f, now);
        now += FRAME_MS;
        if now % 50 == 0 {
            if let Some(seg) = vad.take_segment_if_due(now, silence_ms) {
                out.push(seg);
            }
        }
    }
    out
}

#[test]
fn two_seconds_of_near_silence_never_reach_transcription() {
    let frames: Vec<Vec<i16>> = (0..200).map(|_| quiet_frame()).collect();
    assert!(run(&frames, DEFAULT_SILENCE_DURATION_MS).is_empty());
}

#[test]
fn quiet_frame_opens_no_session() {
    let mut vad = VadEngine::new(RATE);
    vad.process_frame(&quiet_frame(), 0);
    assert!(!vad.flush_is_due(10_000, 0));
    assert_eq!(vad.take_segment_if_due(10_000, 0), None);
}

#[test]
fn speech_then_silence_gives_one_segment_with_pre_and_post_roll() {
    let mut frames = Vec::new();
    for _ in 0..50 {
        frames.push(quiet_frame()); // 500 ms, fills the pre-roll
    }
    for _ in 0..40 {
        frames.push(loud_frame()); // 400 ms of speech
    }
    for _ in 0..80 {
        frames.push(quiet_frame()); // 800 ms of silence
    }
    let segments = run(&frames, DEFAULT_SILENCE_DURATION_MS);
    assert_eq!(segments.len(), 1);
    let seg = &segments[0];
    // pre-roll 250 ms + speech 400 ms + post-roll frames less than 200 ms after the last speech frame
    let expected = 4000 + 40 * FRAME_SAMPLES + 19 * FRAME_SAMPLES;
    assert_eq!(seg.len(), expected);
    let nominal = (250 + 400 + 200) * 16;
    assert!(seg.len() <= nominal && nominal - seg.len() <= 2 * FRAME_SAMPLES);
    // the pre-roll holds the quiet frames, then the speech follows
    assert_eq!(seg[0], 10);
    assert_eq!(seg[4000], 1638);
    assert_eq!(seg[4000 + 40 * FRAME_SAMPLES], 10);
}

#[test]
fn short_speech_keeps_accumulating_until_minimum_duration() {
    let mut vad = VadEngine::new(RATE);
    vad.process_frame(&loud_frame(), 0);
    // silence long enough, but only 100 ms since onset
    assert_eq!(vad.take_segment_if_due(100, 50), None);
    vad.process_frame(&loud_frame(), 120);
    assert_eq!(vad.take_segment_if_due(250, 100), None);
    let seg = vad.take_segment_if_due(400, 100).expect("flush due");
    assert_eq!(seg.len(), 2 * FRAME_SAMPLES);
}

#[test]
fn flush_resets_session_and_pre_roll_is_added_once() {
    let mut vad = VadEngine::new(RATE);
    vad.process_frame(&quiet_frame(), 0);
    vad.process_frame(&loud_frame(), 10);
    vad.process_frame(&loud_frame(), 20);
    let seg = vad.take_segment_if_due(1000, DEFAULT_SILENCE_DURATION_MS).expect("flush due");
    // one quiet frame of pre-roll, then two speech frames, pre-roll not repeated
    assert_eq!(seg.len(), 3 * FRAME_SAMPLES);
    // after the flush no session is open
    assert!(!vad.flush_is_due(100_000, 0));
    assert_eq!(vad.take_segment_if_due(100_000, 0), None);
}

#[test]
fn silence_after_post_roll_is_dropped_from_segment() {
    let mut vad = VadEngine::new(RATE);
    vad.process_frame(&loud_frame(), 0);
    vad.process_frame(&quiet_frame(), 100); // within post-roll
    vad.process_frame(&quiet_frame(), 200); // 200 ms after: dropped
    let seg = vad.take_segment_if_due(1000, DEFAULT_SILENCE_DURATION_MS).expect("flush due");
    assert_eq!(seg.len(), 2 * FRAME_SAMPLES);
}

#[test]
fn zero_rate_pre_roll_stays_empty() {
    let mut vad = VadEngine::new(0);
    vad.process_frame(&quiet_frame(), 0);
    vad.process_frame(&loud_frame(), 10);
    let seg = vad.take_segment_if_due(1000, 0).expect("flush due");
    assert_eq!(seg.len(), FRAME_SAMPLES);
}

#[test]
fn energy_and_threshold() {
    assert_eq!(frame_energy(&vec![3, -4]), 25);
    assert!(!is_speech_frame(&vec![]));
    // 327 / 32768 is just under 0.01, 328 just over
    assert!(!is_speech_frame(&vec![327; 8]));
    assert!(is_speech_frame(&vec![328; 8]));
    assert!(is_speech_frame(&vec![i16::MIN; 4]));
}

#[test]
fn downmix_averages_channels() {
    assert_eq!(downmix(&vec![1, 3, -4, 2], 2), vec![2, -1]);
    assert_eq!(downmix(&vec![1, 3, -4, 2], 1), vec![1, 3, -4, 2]);
    // a short last frame is still divided by the channel count; floor rounding
    assert_eq!(downmix(&vec![4, 4, 4, -3], 3), vec![4, -1]);
    assert_eq!(downmix(&vec![i16::MIN, i16::MIN], 2), vec![i16::MIN]);
}

#[test]
fn stereo_input_is_downmixed_before_detection() {
    let mut vad = VadEngine::new(RATE);
    // left loud, right silent: mono is half as loud, still speech
    let data: Vec<i16> = (0..2 * FRAME_SAMPLES).map(|i| if i % 2 == 0 { 3276 } else { 0 }).collect();
    vad.process_input(&data, 2, 0);
    let seg = vad.take_segment_if_due(1000, 0).expect("flush due");
    assert_eq!(seg, vec![1638; FRAME_SAMPLES]);
}
