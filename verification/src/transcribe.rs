//! Building the remote transcription request and interpreting its response.
//!
//! The request/response shape is the one bit-exact wire contract here:
//! a multipart form with fields `model`, `file` (a 16 kHz mono 16-bit PCM
//! WAV named "uttr.wav"), `response_format` ("json"), and an optional
//! `language`; the response is JSON whose `text` field holds the
//! transcription. The HTTP round trip itself is the caller's: it sends the
//! request this module builds and hands the status and body back to
//! [`interpret_response`].

use crate::strutil::{opt_str_view, opt_string_view};
use vstd::prelude::*;

verus! {

/// Which service endpoint the request goes to.
#[derive(Clone, Copy, Debug, PartialEq, Eq, Structural)]
pub enum TranscriptionEndpoint {
    /// Transcribe in the spoken language.
    Transcriptions,
    /// Translate the speech to English.
    Translations,
}

/// Why a transcription attempt failed. Capture failures are reported to the
/// coordinator directly and never reach this module.
#[derive(Debug)]
pub enum TranscriptionError {
    /// The configured API key is empty: the session is not started.
    MissingApiKey,
    /// The WAV encoder reported a failure; its message. Below
    /// [`MAX_WAV_SAMPLES`] the in-memory encoder cannot fail, so the
    /// builders here never return this.
    EncodeFailed { message: String },
    /// The service answered with a non-success status; the raw body is kept
    /// for diagnostics.
    RequestFailed { status: u16, body: String },
    /// The service answered with success but the body held no text field.
    MalformedResponse { body: String },
}

/// Everything the caller needs to perform the HTTP upload, as plain values.
pub struct TranscriptionRequest {
    /// Which endpoint to post to.
    pub endpoint: TranscriptionEndpoint,
    /// The value of the Authorization header.
    pub auth_bearer: String,
    /// The value of the `model` form field.
    pub model: String,
    /// The WAV payload of the `file` form field.
    pub wav: Vec<u8>,
    /// The value of the `language` form field; `None` omits the field.
    pub language: Option<String>,
}

/// What `str::trim` leaves of a string.
pub uninterp spec fn trim_of(s: Seq<char>) -> Seq<char>;

/// Relies on str::trim: the result is the input without leading and
/// trailing whitespace, a function of the characters alone.
#[verifier::external_body]
fn trim(s: &str) -> (r: &str)
    ensures
        r@ == trim_of(s@),
        s@.len() == 0 ==> r@.len() == 0,
{
    s.trim()
}

/// The most samples one WAV payload can carry. The format's 32-bit size
/// fields hold the data chunk's byte count (two bytes a sample) plus the
/// header, so the encoder's byte counter must stay below that.
pub const MAX_WAV_SAMPLES: usize = 0x7FFF_FF00;

/// The bytes of the 16 kHz mono 16-bit integer PCM WAV stream that encodes
/// the samples.
pub uninterp spec fn wav_encoding(samples: Seq<i16>) -> Seq<u8>;

/// Relies on hound::WavWriter (new, write_sample, finalize): encodes the
/// samples into an in-memory WAV byte stream, 16 kHz mono 16-bit integer
/// PCM; the bytes are a function of the samples alone, a 44-byte header
/// and two bytes a sample. Below the sample bound the call cannot fail:
/// writes go to an in-memory cursor, a 16-bit sample into the 16-bit spec
/// takes the infallible write arm, one channel leaves no sample
/// unfinished, and the writer's 32-bit byte counter cannot overflow (above
/// the bound it would, a panic under overflow checks).
#[verifier::external_body]
fn encode_wav(samples: &Vec<i16>) -> (r: Result<Vec<u8>, String>)
    requires
        samples@.len() < MAX_WAV_SAMPLES,
    ensures
        r is Ok,
        (r matches Ok(b) ==> b@ == wav_encoding(samples@) && b@.len() == 44 + 2 * samples@.len()),
{
    let spec = hound::WavSpec {
        channels: 1,
        sample_rate: 16000,
        bits_per_sample: 16,
        sample_format: hound::SampleFormat::Int,
    };
    let mut cursor = std::io::Cursor::new(Vec::new());
    let mut writer = hound::WavWriter::new(&mut cursor, spec).map_err(|e| e.to_string())?;
    for sample in samples {
        writer.write_sample(*sample).map_err(|e| e.to_string())?;
    }
    writer.finalize().map_err(|e| e.to_string())?;
    Ok(cursor.into_inner())
}

/// The string field stored under `key` in the JSON document `body`, if
/// `body` parses and holds one.
pub uninterp spec fn json_string_field(body: Seq<char>, key: Seq<char>) -> Option<Seq<char>>;

/// Relies on serde_json::from_str and serde_json::Value::{get, as_str}:
/// parses the body as JSON and reads the string field stored under the key;
/// the result is a function of the two texts alone.
#[verifier::external_body]
fn parse_string_field(body: &str, key: &str) -> (r: Option<String>)
    ensures
        opt_string_view(r) == json_string_field(body@, key@),
{
    let value: serde_json::Value = match serde_json::from_str(body) {
        Ok(v) => v,
        Err(_) => return None,
    };
    value.get(key).and_then(|f| f.as_str()).map(|s| s.to_string())
}

/// The language parameter the service is given for a configured language:
/// empty and "auto" omit the parameter, the two regional Chinese variants
/// normalize to the base code, and anything else passes through unchanged.
pub open spec fn spec_normalize_language(s: Seq<char>) -> Option<Seq<char>> {
    if s.len() == 0 || s == "auto"@ {
        None
    } else if s == "zh-Hans"@ || s == "zh-Hant"@ {
        Some("zh"@)
    } else {
        Some(s)
    }
}

/// Normalize a configured language code to the one the request carries,
/// `None` omitting the language field.
pub fn normalize_language<'a>(language: &'a str) -> (r: Option<&'a str>)
    ensures
        opt_str_view(r) == spec_normalize_language(language@),
{
    if language.is_empty() || crate::strutil::str_eq(language, "auto") {
        None
    } else if crate::strutil::str_eq(language, "zh-Hans") || crate::strutil::str_eq(
        language,
        "zh-Hant",
    ) {
        Some("zh")
    } else {
        Some(language)
    }
}

/// The Authorization header for a configured key: "Bearer " and the trimmed
/// key.
pub open spec fn spec_auth_header(key: Seq<char>) -> Seq<char> {
    "Bearer "@ + trim_of(key)
}

/// A successful status, 2xx.
pub open spec fn spec_is_success_status(status: u16) -> bool {
    200 <= status < 300
}

/// What a built request must hold for the given inputs and WAV payload.
pub open spec fn spec_request_built(
    req: TranscriptionRequest,
    api_key: Seq<char>,
    model: Seq<char>,
    wav: Seq<u8>,
    selected_language: Seq<char>,
    translate_to_english: bool,
) -> bool {
    &&& req.endpoint == (if translate_to_english {
        TranscriptionEndpoint::Translations
    } else {
        TranscriptionEndpoint::Transcriptions
    })
    &&& req.auth_bearer@ == spec_auth_header(api_key)
    &&& req.model@ == model
    &&& req.wav@ == wav
    &&& opt_string_view(req.language) == spec_normalize_language(selected_language)
}

/// Build the request around an already encoded WAV payload. Fails exactly
/// when the API key is empty after trimming: a missing credential never
/// starts a session.
pub fn build_transcription_request(
    api_key: &str,
    model: &str,
    wav: Vec<u8>,
    selected_language: &str,
    translate_to_english: bool,
) -> (r: Result<TranscriptionRequest, TranscriptionError>)
    ensures
        api_key@.len() == 0 ==> (r matches Err(e) && e is MissingApiKey),
        trim_of(api_key@).len() == 0 ==> (r matches Err(e) && e is MissingApiKey),
        trim_of(api_key@).len() > 0 ==> (r matches Ok(req) && spec_request_built(
            req,
            api_key@,
            model@,
            wav@,
            selected_language@,
            translate_to_english,
        )),
{
    let trimmed = trim(api_key);
    if trimmed.is_empty() {
        return Err(TranscriptionError::MissingApiKey);
    }
    let auth_bearer = String::from_str("Bearer ").concat(trimmed);
    let language = match normalize_language(selected_language) {
        Some(l) => Some(String::from_str(l)),
        None => None,
    };
    let endpoint = if translate_to_english {
        TranscriptionEndpoint::Translations
    } else {
        TranscriptionEndpoint::Transcriptions
    };
    Ok(
        TranscriptionRequest {
            endpoint,
            auth_bearer,
            model: String::from_str(model),
            wav,
            language,
        },
    )
}

/// Encode the captured samples and build the request for them: the whole
/// compute side of a transcription attempt. Fails exactly when the API key
/// is empty after trimming; for a configured key the request is owed.
pub fn prepare_transcription(
    api_key: &str,
    model: &str,
    samples: &Vec<i16>,
    selected_language: &str,
    translate_to_english: bool,
) -> (r: Result<TranscriptionRequest, TranscriptionError>)
    requires
        samples@.len() < MAX_WAV_SAMPLES,
    ensures
        api_key@.len() == 0 ==> (r matches Err(e) && e is MissingApiKey),
        trim_of(api_key@).len() == 0 ==> (r matches Err(e) && e is MissingApiKey),
        trim_of(api_key@).len() > 0 ==> (r matches Ok(req) && spec_request_built(
            req,
            api_key@,
            model@,
            wav_encoding(samples@),
            selected_language@,
            translate_to_english,
        ) && req.wav@.len() == 44 + 2 * samples@.len()),
{
    let trimmed = trim(api_key);
    if trimmed.is_empty() {
        return Err(TranscriptionError::MissingApiKey);
    }
    let wav = match encode_wav(samples) {
        Ok(bytes) => bytes,
        Err(message) => {
            return Err(TranscriptionError::EncodeFailed { message });
        },
    };
    build_transcription_request(api_key, model, wav, selected_language, translate_to_english)
}

/// The path under the service's base URL that the request posts to.
pub fn endpoint_path(endpoint: TranscriptionEndpoint) -> (r: &'static str)
    ensures
        endpoint is Translations ==> r@ == "audio/translations"@,
        endpoint is Transcriptions ==> r@ == "audio/transcriptions"@,
{
    match endpoint {
        TranscriptionEndpoint::Translations => "audio/translations",
        TranscriptionEndpoint::Transcriptions => "audio/transcriptions",
    }
}

/// The file name the WAV payload is uploaded under.
pub fn multipart_file_name() -> (r: &'static str)
    ensures
        r@ == "uttr.wav"@,
{
    "uttr.wav"
}

/// The MIME type the WAV payload is uploaded under.
pub fn multipart_mime_type() -> (r: &'static str)
    ensures
        r@ == "audio/wav"@,
{
    "audio/wav"
}

/// The value of the `response_format` form field.
pub fn response_format() -> (r: &'static str)
    ensures
        r@ == "json"@,
{
    "json"
}

/// Interpret the service's answer: a non-success status fails with the raw
/// body kept for diagnostics; a success body yields its text field, or
/// fails as malformed when it holds none.
pub fn interpret_response(status: u16, body: String) -> (r: Result<String, TranscriptionError>)
    ensures
        !spec_is_success_status(status) ==> (r matches Err(e) && e == (TranscriptionError::RequestFailed {
            status,
            body,
        })),
        spec_is_success_status(status) ==> match json_string_field(body@, "text"@) {
            Some(t) => (r matches Ok(text) && text@ == t),
            None => (r matches Err(e) && e == (TranscriptionError::MalformedResponse { body })),
        },
{
    if !(200 <= status && status < 300) {
        return Err(TranscriptionError::RequestFailed { status, body });
    }
    match parse_string_field(body.as_str(), "text") {
        Some(text) => Ok(text),
        None => Err(TranscriptionError::MalformedResponse { body }),
    }
}

} // verus!
