use parrot::tts::{decode_pcm16le, TextToSpeech, TtsError, PIPER_SAMPLE_RATE};

fn configured() -> TextToSpeech {
    let mut tts = TextToSpeech::new();
    tts.set_piper_path("/opt/piper/piper".to_string(), true).unwrap();
    tts.add_voice("lessac", "Lessac (Neutral)", "l.onnx".to_string(), "l.onnx.json".to_string(), true, true)
        .unwrap();
    tts.add_voice("ryan", "Ryan (Male)", "r.onnx".to_string(), "r.onnx.json".to_string(), true, true)
        .unwrap();
    tts
}

#[test]
fn new_tts_is_not_ready() {
    let tts = TextToSpeech::new();
    assert!(!tts.is_ready());
    assert!(tts.list_voices().is_empty());
    assert_eq!(tts.get_sample_rate(), 22050);
    assert_eq!(PIPER_SAMPLE_RATE, 22050);
}

#[test]
fn missing_files_are_refused() {
    let mut tts = TextToSpeech::new();
    assert!(matches!(tts.set_piper_path("nope".to_string(), false), Err(TtsError::PiperNotFound(p)) if p == "nope"));
    assert!(matches!(
        tts.add_voice("a", "A", "m".to_string(), "c".to_string(), false, true),
        Err(TtsError::ModelNotFound(p)) if p == "m"
    ));
    assert!(matches!(
        tts.add_voice("a", "A", "m".to_string(), "c".to_string(), true, false),
        Err(TtsError::ConfigNotFound(p)) if p == "c"
    ));
    assert!(tts.list_voices().is_empty());
}

#[test]
fn voices_are_listed_in_order_and_selected_by_id() {
    let mut tts = configured();
    assert_eq!(
        tts.list_voices(),
        vec![
            ("lessac".to_string(), "Lessac (Neutral)".to_string()),
            ("ryan".to_string(), "Ryan (Male)".to_string())
        ]
    );
    assert!(!tts.is_ready());
    assert!(matches!(tts.select_voice("alba"), Err(TtsError::VoiceNotFound(id)) if id == "alba"));
    tts.select_voice("ryan").unwrap();
    assert!(tts.is_ready());
    match tts.synthesis_request("hello") {
        Ok(Some(job)) => {
            assert_eq!(job.piper_path, "/opt/piper/piper");
            assert_eq!(job.model_path, "r.onnx");
            assert_eq!(job.config_path, "r.onnx.json");
        }
        _ => panic!("expected a synthesis job"),
    }
}

#[test]
fn synthesis_needs_configuration() {
    let mut tts = TextToSpeech::new();
    assert!(matches!(tts.synthesis_request("hi"), Err(TtsError::PiperPathNotSet)));
    tts.set_piper_path("p".to_string(), true).unwrap();
    assert!(matches!(tts.synthesis_request("hi"), Err(TtsError::NoVoiceSelected)));
}

#[test]
fn blank_text_needs_no_synthesis() {
    let mut tts = configured();
    tts.select_voice("lessac").unwrap();
    assert!(matches!(tts.synthesis_request("  \n "), Ok(None)));
    assert!(matches!(tts.synthesis_request(""), Ok(None)));
}

#[test]
fn pcm_decoding() {
    assert_eq!(decode_pcm16le(&vec![0x01, 0x00, 0xff, 0xff, 0x00, 0x80, 0xff, 0x7f, 0x12]), vec![1, -1, i16::MIN, i16::MAX]);
    assert!(decode_pcm16le(&vec![]).is_empty());
}
