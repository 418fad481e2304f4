use handy_core::session::{Coordinator, InputAction, Mode, ResultDisposition, SessionState};
use handy_core::transcribe::{
    build_transcription_request, endpoint_path, interpret_response, multipart_file_name,
    multipart_mime_type, normalize_language, prepare_transcription, response_format,
    TranscriptionEndpoint, TranscriptionError,
};

#[test]
fn language_normalization() {
    assert_eq!(normalize_language(""), None);
    assert_eq!(normalize_language("auto"), None);
    assert_eq!(normalize_language("zh-Hans"), Some("zh"));
    assert_eq!(normalize_language("zh-Hant"), Some("zh"));
    assert_eq!(normalize_language("en"), Some("en"));
    assert_eq!(normalize_language("pt-BR"), Some("pt-BR"));
    // No trimming or case folding: near-misses pass through unchanged.
    assert_eq!(normalize_language(" auto"), Some(" auto"));
    assert_eq!(normalize_language("Auto"), Some("Auto"));
}

#[test]
fn missing_api_key_is_rejected() {
    let r = build_transcription_request("", "whisper-large-v3", Vec::new(), "", false);
    assert!(matches!(r, Err(TranscriptionError::MissingApiKey)));
    // A key that is only whitespace is missing too.
    let r = build_transcription_request("   \t ", "whisper-large-v3", Vec::new(), "", false);
    assert!(matches!(r, Err(TranscriptionError::MissingApiKey)));
    let r = prepare_transcription("  ", "whisper-large-v3", &vec![0i16], "", false);
    assert!(matches!(r, Err(TranscriptionError::MissingApiKey)));
}

#[test]
fn request_fields_are_built_exactly() {
    let wav = vec![1u8, 2, 3];
    let req = build_transcription_request(" gsk-test-key ", "whisper-large-v3", wav.clone(), "zh-Hans", false)
        .unwrap();
    // The key is trimmed into the bearer header.
    assert_eq!(req.auth_bearer, "Bearer gsk-test-key");
    assert_eq!(req.model, "whisper-large-v3");
    assert_eq!(req.wav, wav);
    assert_eq!(req.language.as_deref(), Some("zh"));
    assert_eq!(req.endpoint, TranscriptionEndpoint::Transcriptions);

    let req = build_transcription_request("k", "m", Vec::new(), "auto", true).unwrap();
    assert_eq!(req.language, None);
    assert_eq!(req.endpoint, TranscriptionEndpoint::Translations);
}

#[test]
fn wire_constants() {
    assert_eq!(endpoint_path(TranscriptionEndpoint::Transcriptions), "audio/transcriptions");
    assert_eq!(endpoint_path(TranscriptionEndpoint::Translations), "audio/translations");
    assert_eq!(multipart_file_name(), "uttr.wav");
    assert_eq!(multipart_mime_type(), "audio/wav");
    assert_eq!(response_format(), "json");
}

#[test]
fn wav_payload_is_real_wav() {
    let samples: Vec<i16> = vec![0, 1000, -1000, i16::MAX, i16::MIN];
    let req = prepare_transcription("key", "m", &samples, "", false).unwrap();

    // A canonical 16-bit mono PCM WAV: RIFF header plus two bytes a sample.
    assert_eq!(&req.wav[0..4], b"RIFF");
    assert_eq!(&req.wav[8..12], b"WAVE");
    assert_eq!(req.wav.len(), 44 + 2 * samples.len());

    // Decoding the payload gives back exactly what was captured.
    let mut reader = hound::WavReader::new(std::io::Cursor::new(req.wav)).unwrap();
    let spec = reader.spec();
    assert_eq!(spec.channels, 1);
    assert_eq!(spec.sample_rate, 16000);
    assert_eq!(spec.bits_per_sample, 16);
    assert_eq!(spec.sample_format, hound::SampleFormat::Int);
    let decoded: Vec<i16> = reader.samples::<i16>().map(|s| s.unwrap()).collect();
    assert_eq!(decoded, samples);
}

#[test]
fn empty_capture_still_encodes() {
    let req = prepare_transcription("key", "m", &Vec::new(), "", false).unwrap();
    assert_eq!(req.wav.len(), 44);
}

#[test]
fn success_response_yields_text() {
    let r = interpret_response(200, "{\"text\":\"hello world\"}".to_string());
    assert_eq!(r.unwrap(), "hello world");
    let r = interpret_response(299, "{\"text\":\"\",\"x\":1}".to_string());
    assert_eq!(r.unwrap(), "");
}

#[test]
fn failure_status_keeps_raw_body() {
    let r = interpret_response(500, "upstream exploded".to_string());
    match r {
        Err(TranscriptionError::RequestFailed { status, body }) => {
            assert_eq!(status, 500);
            assert_eq!(body, "upstream exploded");
        }
        _ => panic!("expected a request failure"),
    }
    // 300 is already outside the success range.
    assert!(matches!(
        interpret_response(300, String::new()),
        Err(TranscriptionError::RequestFailed { status: 300, .. })
    ));
}

#[test]
fn malformed_success_body_is_rejected() {
    assert!(matches!(
        interpret_response(200, "not json at all".to_string()),
        Err(TranscriptionError::MalformedResponse { .. })
    ));
    assert!(matches!(
        interpret_response(200, "{\"transcript\":\"hi\"}".to_string()),
        Err(TranscriptionError::MalformedResponse { .. })
    ));
    // A text field that is not a string does not count.
    assert!(matches!(
        interpret_response(200, "{\"text\":5}".to_string()),
        Err(TranscriptionError::MalformedResponse { .. })
    ));
}

#[test]
fn full_push_to_talk_transcription_flow() {
    let mut c = Coordinator::new();

    let a = c.handle_transcribe_input(true, Mode::PushToTalk);
    assert_eq!(a, InputAction::StartCapture { session: 1 });
    assert_eq!(c.state(), SessionState::Recording);

    let a = c.handle_transcribe_input(false, Mode::PushToTalk);
    assert_eq!(a, InputAction::StopCapture { session: 1 });
    assert_eq!(c.state(), SessionState::Transcribing);

    // The stopped capture's samples are encoded and the request built.
    let samples: Vec<i16> = vec![12, -34, 56];
    let req = prepare_transcription("key", "whisper-large-v3", &samples, "auto", false).unwrap();
    assert_eq!(req.endpoint, TranscriptionEndpoint::Transcriptions);
    assert_eq!(req.language, None);

    // The service answers; the text is applied and the session ends idle.
    let text = interpret_response(200, "{\"text\":\"hello world\"}".to_string()).unwrap();
    assert_eq!(text, "hello world");
    let d = c.transcription_result(1, true);
    assert_eq!(d, ResultDisposition::Applied);
    assert_eq!(c.state(), SessionState::Processing);
    c.processing_done(1);
    assert_eq!(c.state(), SessionState::Idle);
}
