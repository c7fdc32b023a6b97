use parrot::pipeline::{needs_resampling, playback_audio, stop_pipeline, PipelineState, PipelineStatus};
use parrot::playback::PlaybackBuffer;
use parrot::settings::{default_silence_duration, Settings};
use parrot::text::{same_text, transcript_is_usable, usable_transcript};

#[test]
fn new_state_is_idle_with_default_pause() {
    let s = PipelineState::new();
    assert!(!s.is_running());
    assert_eq!(s.get_silence_duration_ms(), 700);
    assert_eq!(s.status_now(), PipelineStatus::Idle);
}

#[test]
fn silence_duration_is_adjustable() {
    let mut s = PipelineState::new();
    s.set_silence_duration_ms(1200);
    assert_eq!(s.get_silence_duration_ms(), 1200);
}

#[test]
fn start_while_running_is_a_no_op() {
    let mut s = PipelineState::new();
    let first = s.start().expect("first start begins a run");
    assert!(s.is_running());
    assert_eq!(s.status_now(), PipelineStatus::Listening);
    assert_eq!(s.start(), None);
    assert!(s.is_running());
    assert!(!s.is_cancelled(first));
}

#[test]
fn stop_then_start_gives_a_clean_run() {
    let mut s = PipelineState::new();
    let first = s.start().unwrap();
    stop_pipeline(&mut s);
    // the run stays live until its loop has seen the flag
    assert!(s.is_running());
    assert!(s.is_cancelled(first));
    assert_eq!(s.start(), None);
    assert!(s.is_cancelled(first));
    // the loop ends the run
    assert!(s.finish_run(first));
    assert!(!s.is_running());
    assert_eq!(s.status_now(), PipelineStatus::Stopped);
    let second = s.start().expect("a new run begins");
    assert_ne!(first, second);
    assert!(s.is_running());
    assert!(!s.is_cancelled(second));
    assert!(s.is_cancelled(first));
    // a run that is not live changes nothing when it ends
    assert!(!s.finish_run(first));
    assert!(s.is_running());
    assert_eq!(s.status_now(), PipelineStatus::Listening);
}

#[test]
fn stop_without_a_run_changes_nothing() {
    let mut s = PipelineState::new();
    stop_pipeline(&mut s);
    assert!(!s.is_running());
    assert!(s.start().is_some());
    assert!(s.is_running());
}

#[test]
fn device_failure_ends_the_run_as_stopped() {
    let mut s = PipelineState::new();
    let run = s.start().unwrap();
    assert!(s.finish_run(run));
    assert!(!s.is_running());
    assert_eq!(s.status_now(), PipelineStatus::Stopped);
    assert!(s.start().is_some());
}

#[test]
fn blank_audio_transcript_goes_back_to_listening() {
    let mut s = PipelineState::new();
    s.start().unwrap();
    assert!(s.begin_cycle(100));
    assert_eq!(s.status_now(), PipelineStatus::Processing);
    assert_eq!(s.accept_transcript(Some("[BLANK_AUDIO]".to_string())), None);
    assert_eq!(s.status_now(), PipelineStatus::Listening);
}

#[test]
fn usable_transcript_moves_to_speaking() {
    let mut s = PipelineState::new();
    s.start().unwrap();
    assert!(s.begin_cycle(10));
    assert_eq!(s.accept_transcript(Some("  hello there \n".to_string())), Some("hello there".to_string()));
    assert_eq!(s.status_now(), PipelineStatus::Speaking);
    s.end_cycle();
    assert_eq!(s.status_now(), PipelineStatus::Listening);
}

#[test]
fn failed_transcription_goes_back_to_listening() {
    let mut s = PipelineState::new();
    s.start().unwrap();
    assert!(s.begin_cycle(10));
    assert_eq!(s.accept_transcript(None), None);
    assert_eq!(s.status_now(), PipelineStatus::Listening);
}

#[test]
fn empty_segment_skips_processing() {
    let mut s = PipelineState::new();
    s.start().unwrap();
    assert!(!s.begin_cycle(0));
    assert_eq!(s.status_now(), PipelineStatus::Listening);
}

#[test]
fn transcript_filter() {
    assert_eq!(usable_transcript("   "), None);
    assert_eq!(usable_transcript(" a "), None);
    assert_eq!(usable_transcript(" [BLANK_AUDIO] "), None);
    assert_eq!(usable_transcript("\tok\n"), Some("ok".to_string()));
    assert_eq!(usable_transcript("\u{3000}ok\u{a0}\u{2028}"), Some("ok".to_string()));
    assert_eq!(usable_transcript("\u{85}a b\u{205f}"), Some("a b".to_string()));
    assert!(transcript_is_usable("hi"));
    assert!(!transcript_is_usable("[BLANK_AUDIO]"));
    assert!(!transcript_is_usable("é"));
    assert!(transcript_is_usable("éé"));
}

#[test]
fn text_comparison() {
    assert!(same_text("abc", "abc"));
    assert!(!same_text("abc", "abd"));
    assert!(!same_text("abc", "ab"));
    assert!(same_text("", ""));
}

#[test]
fn status_names() {
    assert_eq!(PipelineStatus::Listening.as_str(), "listening");
    assert_eq!(PipelineStatus::Processing.as_str(), "processing");
    assert_eq!(PipelineStatus::Speaking.as_str(), "speaking");
    assert_eq!(PipelineStatus::Stopped.as_str(), "stopped");
    assert_eq!(PipelineStatus::Idle.as_str(), "idle");
}

#[test]
fn resampling_choice() {
    assert!(!needs_resampling(22050, 22050));
    assert!(needs_resampling(22050, 48000));
    let audio = vec![1, 2, 3];
    assert_eq!(playback_audio(audio.clone(), 22050, 22050, Some(vec![9])), audio);
    assert_eq!(playback_audio(audio.clone(), 22050, 48000, Some(vec![9, 9])), vec![9, 9]);
    assert_eq!(playback_audio(audio.clone(), 22050, 48000, None), audio);
}

#[test]
fn playback_underrun_gives_silence() {
    let mut b = PlaybackBuffer::new();
    assert_eq!(b.pop_sample(), 0);
    b.push_samples(&vec![5, -6]);
    assert_eq!(b.len(), 2);
    assert_eq!(b.pop_sample(), 5);
    assert_eq!(b.pop_sample(), -6);
    assert_eq!(b.pop_sample(), 0);
    assert_eq!(b.len(), 0);
}

#[test]
fn playback_fills_every_channel_in_order() {
    let mut b = PlaybackBuffer::new();
    b.push_samples(&vec![1, 2]);
    b.push_samples(&vec![3]);
    assert_eq!(b.fill_output(8, 2), vec![1, 1, 2, 2, 3, 3, 0, 0]);
    assert_eq!(b.len(), 0);
    b.push_samples(&vec![7, 8, 9]);
    // a short last frame still takes a sample
    assert_eq!(b.fill_output(3, 2), vec![7, 7, 8]);
    assert_eq!(b.pop_sample(), 9);
}

#[test]
fn settings_defaults() {
    let s = Settings::new();
    assert_eq!(s.input_device, None);
    assert_eq!(s.output_device, None);
    assert_eq!(s.voice_id, None);
    assert_eq!(s.silence_duration_ms, 700);
    assert_eq!(default_silence_duration(), 700);
}
