use voicepty::speech::{
    final_result_from_text, load_model_outcome, parse_result, require_recognizer,
    result_for_state, result_from_fields, DecodingState, MockSpeechRecognizer, SpeechError,
    SpeechRecognizer,
};

#[test]
fn test_mock_load_model() {
    let mut recognizer = MockSpeechRecognizer::new();
    assert!(!recognizer.is_model_loaded());

    recognizer.load_model("/test/model").unwrap();
    assert!(recognizer.is_model_loaded());
}

#[test]
fn test_mock_load_model_fails() {
    let mut recognizer = MockSpeechRecognizer::new();
    recognizer.set_should_fail(true);

    let result = recognizer.load_model("/test/model");
    assert!(matches!(result, Err(SpeechError::ModelNotFound(_))));
}

#[test]
fn test_mock_process_audio() {
    let mut recognizer = MockSpeechRecognizer::new();
    recognizer.load_model("/test/model").unwrap();

    let samples = vec![0i16; 1600]; // 100ms of audio at 16kHz
    let result = recognizer.process_audio(&samples).unwrap();

    assert!(result.is_some());
    let result = result.unwrap();
    assert_eq!(result.text, "Hello world");
    assert!(!result.is_final);
    assert_eq!(recognizer.process_count(), 1);
}

#[test]
fn test_mock_process_audio_empty() {
    let mut recognizer = MockSpeechRecognizer::new();
    recognizer.set_mock_text("");

    let samples = vec![0i16; 1600];
    let result = recognizer.process_audio(&samples).unwrap();

    assert!(result.is_none());
}

#[test]
fn test_mock_get_final_result() {
    let mut recognizer = MockSpeechRecognizer::new();
    recognizer.set_mock_text("Final transcription");

    let result = recognizer.get_final_result().unwrap();

    assert_eq!(result.text, "Final transcription");
    assert!(result.is_final);
    assert_eq!(result.confidence_centi, Some(98));
}

#[test]
fn test_mock_reset() {
    let mut recognizer = MockSpeechRecognizer::new();

    let samples = vec![0i16; 1600];
    recognizer.process_audio(&samples).unwrap();
    recognizer.process_audio(&samples).unwrap();
    assert_eq!(recognizer.process_count(), 2);

    recognizer.reset();
    assert_eq!(recognizer.process_count(), 0);
}

#[test]
fn test_reset_behaves_like_fresh_instance() {
    // After a reset, the next decode behaves exactly as a fresh
    // instance's first decode with the same configuration.
    let mut used = MockSpeechRecognizer::new();
    used.load_model("/m").unwrap();
    used.set_mock_text("echo");
    let samples = vec![0i16; 1600];
    used.process_audio(&samples).unwrap();
    used.process_audio(&samples).unwrap();
    used.reset();

    let mut fresh = MockSpeechRecognizer::new();
    fresh.load_model("/m").unwrap();
    fresh.set_mock_text("echo");

    let a = used.process_audio(&samples).unwrap();
    let b = fresh.process_audio(&samples).unwrap();
    let a = a.unwrap();
    let b = b.unwrap();
    assert_eq!(a.text, b.text);
    assert_eq!(a.is_final, b.is_final);
    assert_eq!(a.confidence_centi, b.confidence_centi);
    assert_eq!(used.process_count(), fresh.process_count());
}

#[test]
fn test_speech_error_display() {
    let err = SpeechError::ModelNotFound("/path/to/model".to_string());
    assert!(err.message().contains("/path/to/model"));

    let err = SpeechError::RecognizerError("init failed".to_string());
    assert!(err.message().contains("init failed"));
}

#[test]
fn test_speech_error_messages_carry_detail() {
    assert_eq!(
        SpeechError::ModelInitError("corrupt".to_string()).message(),
        "Failed to initialize model: corrupt"
    );
    assert_eq!(
        SpeechError::RecognitionError("bad frame".to_string()).message(),
        "Recognition failed: bad frame"
    );
    assert_eq!(
        SpeechError::DownloadError("offline".to_string()).message(),
        "Model download failed: offline"
    );
}

#[test]
fn test_parse_result_partial_payload() {
    // The payload actually runs through the JSON parser: a partial field
    // gives a provisional result.
    let r = parse_result("{\"partial\": \"hello wor\"}");
    assert_eq!(r.text, "hello wor");
    assert!(!r.is_final);
    assert_eq!(r.confidence_centi, None);
}

#[test]
fn test_parse_result_final_payload() {
    let r = parse_result("{\"text\": \"hello world\"}");
    assert_eq!(r.text, "hello world");
    assert!(r.is_final);
}

#[test]
fn test_parse_result_malformed_payload() {
    let r = parse_result("this is not a structured payload");
    assert_eq!(r.text, "");
    assert!(!r.is_final);

    let r = parse_result("{\"other\": 3}");
    assert_eq!(r.text, "");
    assert!(!r.is_final);
}

#[test]
fn test_result_from_fields_precedence() {
    let r = result_from_fields(Some("a".to_string()), Some("b".to_string()));
    assert_eq!(r.text, "a");
    assert!(r.is_final);

    let r = result_from_fields(None, Some("b".to_string()));
    assert_eq!(r.text, "b");
    assert!(!r.is_final);

    let r = result_from_fields(None, None);
    assert_eq!(r.text, "");
    assert!(!r.is_final);
}

#[test]
fn test_result_for_state_running_silence() {
    // Silence gives an empty partial payload: nothing is emitted.
    let r = result_for_state(DecodingState::Running, "{\"partial\": \"\"}").unwrap();
    assert!(r.is_none());
}

#[test]
fn test_result_for_state_running_partial() {
    let r = result_for_state(DecodingState::Running, "{\"partial\": \"he\"}").unwrap();
    let r = r.unwrap();
    assert_eq!(r.text, "he");
    assert!(!r.is_final);
}

#[test]
fn test_result_for_state_finalized_empty() {
    // A final result is emitted even when empty: it marks the
    // utterance boundary.
    let r = result_for_state(DecodingState::Finalized, "{\"text\": \"\"}").unwrap();
    let r = r.unwrap();
    assert_eq!(r.text, "");
    assert!(r.is_final);
}

#[test]
fn test_result_for_state_failed() {
    let r = result_for_state(DecodingState::Failed, "");
    assert!(matches!(r, Err(SpeechError::RecognitionError(m)) if m == "Decoding failed"));
}

#[test]
fn test_final_result_from_text() {
    let r = final_result_from_text(Some("done".to_string()));
    assert_eq!(r.text, "done");
    assert!(r.is_final);

    let r = final_result_from_text(None);
    assert_eq!(r.text, "");
    assert!(r.is_final);
}

#[test]
fn test_load_model_outcome_errors() {
    let r = load_model_outcome("/missing", false, false, false);
    assert!(matches!(r, Err(SpeechError::ModelNotFound(p)) if p == "/missing"));

    let r = load_model_outcome("/m", true, false, false);
    assert!(matches!(r, Err(SpeechError::ModelInitError(_))));

    let r = load_model_outcome("/m", true, true, false);
    assert!(matches!(r, Err(SpeechError::RecognizerError(_))));

    assert!(load_model_outcome("/m", true, true, true).is_ok());
}

#[test]
fn test_require_recognizer() {
    assert!(require_recognizer(true).is_ok());
    let r = require_recognizer(false);
    assert!(matches!(r, Err(SpeechError::RecognizerError(m)) if m == "Recognizer not initialized"));
}

#[test]
fn test_silence_session_with_forced_finalization() {
    // A decoder scripted to report "hello" on finalization: processing
    // 100 ms of silence gives nothing or a non-empty partial, and the
    // forced finalization reports the scripted text as final.
    let mut recognizer = MockSpeechRecognizer::new();
    recognizer.load_model("/m").unwrap();
    recognizer.set_mock_text("hello");

    let samples = vec![0i16; 1600];
    let partial = recognizer.process_audio(&samples).unwrap();
    match partial {
        None => {}
        Some(r) => {
            assert!(!r.text.is_empty());
            assert!(!r.is_final);
        }
    }

    let result = recognizer.get_final_result().unwrap();
    assert_eq!(result.text, "hello");
    assert!(result.is_final);
}
