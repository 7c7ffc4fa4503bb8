//! Speech decoder adapter.
//!
//! Wraps a stateful, single-threaded recognition engine as a service with
//! well-defined partial/final result semantics.  The engine itself is
//! opaque: it consumes fixed-format audio frames and reports a decoding
//! state plus a structured result payload.  This module verifies the
//! adapter's decisions — how a payload and a decoding state become a
//! `RecognitionResult`, when nothing is emitted, when an error is raised,
//! and the load/reset lifecycle — while the unverified shell drives the
//! engine and feeds its replies back in.

use vstd::prelude::*;

verus! {

/// Errors reported by the speech decoder.
#[derive(Debug, Clone)]
pub enum SpeechError {
    /// The model path does not exist.
    ModelNotFound(String),
    /// The engine could not initialize the model.
    ModelInitError(String),
    /// The recognizer session could not be created, or none exists.
    RecognizerError(String),
    /// One decode step failed; the recognizer remains usable.
    RecognitionError(String),
    /// Reserved for a model-acquisition collaborator; never raised here.
    DownloadError(String),
}

impl SpeechError {
    /// Human-readable description of the error.
    pub fn message(&self) -> (r: String)
        ensures
            self matches SpeechError::ModelNotFound(d) ==> r@ == "Model not found at path: "@
                + d@,
            self matches SpeechError::ModelInitError(d) ==> r@ == "Failed to initialize model: "@
                + d@,
            self matches SpeechError::RecognizerError(d) ==> r@ == "Failed to create recognizer: "@
                + d@,
            self matches SpeechError::RecognitionError(d) ==> r@ == "Recognition failed: "@ + d@,
            self matches SpeechError::DownloadError(d) ==> r@ == "Model download failed: "@ + d@,
    {
        match self {
            SpeechError::ModelNotFound(d) => {
                "Model not found at path: ".to_owned().concat(d.as_str())
            },
            SpeechError::ModelInitError(d) => {
                "Failed to initialize model: ".to_owned().concat(d.as_str())
            },
            SpeechError::RecognizerError(d) => {
                "Failed to create recognizer: ".to_owned().concat(d.as_str())
            },
            SpeechError::RecognitionError(d) => {
                "Recognition failed: ".to_owned().concat(d.as_str())
            },
            SpeechError::DownloadError(d) => {
                "Model download failed: ".to_owned().concat(d.as_str())
            },
        }
    }
}

/// One recognition result delivered to the consumer.  A result with
/// `is_final` false is provisional and superseded by later results for
/// the same utterance; a final result marks utterance completion.
/// Confidence, when the engine reports one, is carried in hundredths.
#[derive(Debug, Clone)]
pub struct RecognitionResult {
    pub text: String,
    pub is_final: bool,
    pub confidence_centi: Option<u16>,
}

/// Outcome of feeding one frame to the engine: still accumulating,
/// utterance complete, or this decode step failed.
#[derive(Debug, Clone, Copy, PartialEq, Eq, Structural)]
pub enum DecodingState {
    Running,
    Finalized,
    Failed,
}

/// The "final text" and "partial text" fields of the engine's structured
/// result payload, in that order.  A well-formed payload carries at most
/// one of the two; a malformed payload carries neither.
pub uninterp spec fn vosk_payload_fields(payload: Seq<char>) -> (
    Option<Seq<char>>,
    Option<Seq<char>>,
);

/// Relies on serde_json::from_str and serde_json::Value::{get, as_str}:
/// parses the engine's JSON result payload and extracts its "text" and
/// "partial" string fields.  The result is a function of the payload
/// characters alone; a payload that is not a JSON object with such a
/// field yields `None` on that side.
#[verifier::external_body]
fn parse_payload_fields(payload: &str) -> (r: (Option<String>, Option<String>))
    ensures
        r.0.deep_view() == vosk_payload_fields(payload@).0,
        r.1.deep_view() == vosk_payload_fields(payload@).1,
{
    match serde_json::from_str::<serde_json::Value>(payload) {
        Ok(v) => (
            v.get("text").and_then(|f| f.as_str()).map(|s| s.to_owned()),
            v.get("partial").and_then(|f| f.as_str()).map(|s| s.to_owned()),
        ),
        Err(_) => (None, None),
    }
}

/// Text carried by a parsed payload: the final text if present, else the
/// partial text, else empty.
pub open spec fn parsed_text(fields: (Option<Seq<char>>, Option<Seq<char>>)) -> Seq<char> {
    match fields.0 {
        Some(t) => t,
        None => match fields.1 {
            Some(p) => p,
            None => Seq::empty(),
        },
    }
}

/// A parsed payload is final exactly when the final-text field is present.
pub open spec fn parsed_is_final(fields: (Option<Seq<char>>, Option<Seq<char>>)) -> bool {
    fields.0 is Some
}

/// Builds a result from the two extracted payload fields: a present
/// final-text field wins and marks the result final; otherwise a present
/// partial-text field gives a provisional result; with neither the
/// result is empty and provisional ("no result yet").
pub fn result_from_fields(text: Option<String>, partial: Option<String>) -> (r: RecognitionResult)
    ensures
        r.text@ == parsed_text((text.deep_view(), partial.deep_view())),
        r.is_final == parsed_is_final((text.deep_view(), partial.deep_view())),
        r.confidence_centi is None,
{
    match text {
        Some(t) => RecognitionResult { text: t, is_final: true, confidence_centi: None },
        None => match partial {
            Some(p) => RecognitionResult { text: p, is_final: false, confidence_centi: None },
            None => RecognitionResult {
                text: String::new(),
                is_final: false,
                confidence_centi: None,
            },
        },
    }
}

/// Parses one engine result payload into a result.
pub fn parse_result(payload: &str) -> (r: RecognitionResult)
    ensures
        r.text@ == parsed_text(vosk_payload_fields(payload@)),
        r.is_final == parsed_is_final(vosk_payload_fields(payload@)),
        r.confidence_centi is None,
{
    let (text, partial) = parse_payload_fields(payload);
    result_from_fields(text, partial)
}

/// Turns one decode step's outcome — the decoding state the engine
/// reported and the result payload fetched for that state — into what
/// the adapter emits:
///
/// - `Running`: a provisional result, but only if its text is non-empty;
///   silence must not generate spurious empty events.
/// - `Finalized`: a final result, unconditionally (an empty final result
///   still signals the utterance boundary).
/// - `Failed`: an error; the recognizer remains usable for the next call.
pub fn result_for_state(state: DecodingState, payload: &str) -> (r: Result<
    Option<RecognitionResult>,
    SpeechError,
>)
    ensures
        state is Failed ==> (r matches Err(e) && e matches SpeechError::RecognitionError(m)
            && m@ == "Decoding failed"@),
        state is Running ==> {
            let fields = vosk_payload_fields(payload@);
            if parsed_text(fields).len() == 0 {
                r matches Ok(o) && o is None
            } else {
                r matches Ok(o) && o matches Some(x) && x.text@ == parsed_text(fields)
                    && x.is_final == parsed_is_final(fields) && x.confidence_centi is None
            }
        },
        state is Finalized ==> (r matches Ok(o) && o matches Some(x) && x.text@ == parsed_text(
            vosk_payload_fields(payload@),
        ) && x.is_final && x.confidence_centi is None),
        r matches Ok(o) ==> (o matches Some(x) ==> (!x.is_final ==> x.text@.len() > 0)),
{
    match state {
        DecodingState::Running => {
            let result = parse_result(payload);
            if result.text.as_str().is_empty() {
                Ok(None)
            } else {
                Ok(Some(result))
            }
        },
        DecodingState::Finalized => {
            let result = parse_result(payload);
            Ok(
                Some(
                    RecognitionResult {
                        text: result.text,
                        is_final: true,
                        confidence_centi: None,
                    },
                ),
            )
        },
        DecodingState::Failed => Err(SpeechError::RecognitionError("Decoding failed".to_owned())),
    }
}

/// Builds the forced-finalization result from the text the engine
/// reported (or nothing, when it reported no utterance): always final.
pub fn final_result_from_text(text: Option<String>) -> (r: RecognitionResult)
    ensures
        text matches Some(t) ==> r.text == t,
        text is None ==> r.text@.len() == 0,
        r.is_final,
        r.confidence_centi is None,
{
    let t = match text {
        Some(t) => t,
        None => String::new(),
    };
    RecognitionResult { text: t, is_final: true, confidence_centi: None }
}

/// Decides the outcome of a load request from what the shell observed:
/// whether the path exists, whether the engine accepted the model, and
/// whether a recognizer session bound to the fixed sample rate came up.
/// Exactly one error fits each failure, checked in that order.
pub fn load_model_outcome(
    model_path: &str,
    path_exists: bool,
    model_ok: bool,
    recognizer_ok: bool,
) -> (r: Result<(), SpeechError>)
    ensures
        !path_exists ==> (r matches Err(e) && e matches SpeechError::ModelNotFound(p) && p@
            == model_path@),
        path_exists && !model_ok ==> (r matches Err(e) && e matches SpeechError::ModelInitError(m)
            && m@ == "Failed to load Vosk model"@),
        path_exists && model_ok && !recognizer_ok ==> (r matches Err(e) && e matches
            SpeechError::RecognizerError(m) && m@ == "Failed to create recognizer"@),
        path_exists && model_ok && recognizer_ok ==> r is Ok,
{
    if !path_exists {
        Err(SpeechError::ModelNotFound(model_path.to_owned()))
    } else if !model_ok {
        Err(SpeechError::ModelInitError("Failed to load Vosk model".to_owned()))
    } else if !recognizer_ok {
        Err(SpeechError::RecognizerError("Failed to create recognizer".to_owned()))
    } else {
        Ok(())
    }
}

/// The error raised when audio arrives before a model is loaded.
pub fn require_recognizer(loaded: bool) -> (r: Result<(), SpeechError>)
    ensures
        loaded ==> r is Ok,
        !loaded ==> (r matches Err(e) && e matches SpeechError::RecognizerError(m) && m@
            == "Recognizer not initialized"@),
{
    if loaded {
        Ok(())
    } else {
        Err(SpeechError::RecognizerError("Recognizer not initialized".to_owned()))
    }
}

/// Capability set of a speech recognizer; the engine-backed adapter and
/// any test double implement it.  Every implementation owes the
/// partial/final semantics stated here: a provisional result always
/// carries text, and a forced finalization is always final.
pub trait SpeechRecognizer: Sized {
    /// Whether a model/recognizer pair is currently loaded.
    spec fn loaded_model(&self) -> bool;

    fn load_model(&mut self, model_path: &str) -> (r: Result<(), SpeechError>)
        ensures
            r is Ok ==> final(self).loaded_model(),
    ;

    fn is_model_loaded(&self) -> (r: bool)
        ensures
            r == self.loaded_model(),
    ;

    fn process_audio(&mut self, samples: &[i16]) -> (r: Result<
        Option<RecognitionResult>,
        SpeechError,
    >)
        ensures
            r matches Ok(o) ==> (o matches Some(x) ==> (!x.is_final ==> x.text@.len() > 0)),
    ;

    fn get_final_result(&self) -> (r: Result<RecognitionResult, SpeechError>)
        ensures
            r matches Ok(x) ==> x.is_final,
    ;

    /// Clears decoder state so the next `process_audio` begins a fresh
    /// utterance; never fails, and never unloads the model.
    fn reset(&mut self)
        ensures
            final(self).loaded_model() == old(self).loaded_model(),
    ;
}

/// Observable decoding state of the deterministic recognizer: its
/// configuration (model loaded, scripted text, failure switch) and how
/// many frames the current utterance has absorbed.
pub open spec fn recognizer_obs(m: MockSpeechRecognizer) -> (bool, Seq<char>, bool, nat) {
    (m.model_loaded, m.mock_text@, m.should_fail, m.process_count as nat)
}

/// The observable state `reset` leaves behind.
pub open spec fn reset_obs(o: (bool, Seq<char>, bool, nat)) -> (bool, Seq<char>, bool, nat) {
    (o.0, o.1, o.2, 0)
}

/// The observable state of a freshly constructed recognizer configured
/// with the given model flag, script and failure switch.
pub open spec fn fresh_obs(loaded: bool, text: Seq<char>, fail: bool) -> (
    bool,
    Seq<char>,
    bool,
    nat,
) {
    (loaded, text, fail, 0)
}

/// After `reset`, a recognizer is observably identical to a fresh
/// instance with the same configuration: nothing an earlier call
/// sequence contributed survives, so the next `process_audio` behaves
/// exactly as a fresh instance's first call would.
pub proof fn lemma_reset_fresh(s: (bool, Seq<char>, bool, nat))
    ensures
        reset_obs(s) == fresh_obs(s.0, s.1, s.2),
{
}

/// Deterministic in-memory recognizer: reports a scripted text for every
/// processed frame, counts utterance frames, and can be switched to fail.
/// Implements the same capability set as the engine-backed adapter, for
/// tests and for wiring without a model.
pub struct MockSpeechRecognizer {
    pub model_loaded: bool,
    pub process_count: usize,
    pub mock_text: String,
    pub should_fail: bool,
}

impl MockSpeechRecognizer {
    /// Fresh recognizer: no model, scripted to report "Hello world".
    pub fn new() -> (r: MockSpeechRecognizer)
        ensures
            recognizer_obs(r) == fresh_obs(false, "Hello world"@, false),
    {
        MockSpeechRecognizer {
            model_loaded: false,
            process_count: 0,
            mock_text: "Hello world".to_owned(),
            should_fail: false,
        }
    }

    /// Replaces the scripted text reported by subsequent calls.
    pub fn set_mock_text(&mut self, text: &str)
        ensures
            *final(self) == (MockSpeechRecognizer { mock_text: final(self).mock_text, ..*old(self) }),
            final(self).mock_text@ == text@,
    {
        self.mock_text = text.to_owned();
    }

    /// Makes every subsequent operation fail, or restores success.
    pub fn set_should_fail(&mut self, fail: bool)
        ensures
            *final(self) == (MockSpeechRecognizer { should_fail: fail, ..*old(self) }),
    {
        self.should_fail = fail;
    }

    pub fn process_count(&self) -> (r: usize)
        ensures
            r == self.process_count,
    {
        self.process_count
    }
}

impl SpeechRecognizer for MockSpeechRecognizer {
    open spec fn loaded_model(&self) -> bool {
        self.model_loaded
    }

    fn load_model(&mut self, model_path: &str) -> (r: Result<(), SpeechError>)
        ensures
            old(self).should_fail ==> (r matches Err(e) && e matches SpeechError::ModelNotFound(p)
                && p@ == model_path@) && *final(self) == *old(self),
            !old(self).should_fail ==> r is Ok && final(self).model_loaded && recognizer_obs(
                *final(self),
            ) == (true, old(self).mock_text@, false, old(self).process_count as nat),
    {
        if self.should_fail {
            return Err(SpeechError::ModelNotFound(model_path.to_owned()));
        }
        self.model_loaded = true;
        Ok(())
    }

    fn is_model_loaded(&self) -> (r: bool)
        ensures
            r == self.model_loaded,
    {
        self.model_loaded
    }

    fn process_audio(&mut self, samples: &[i16]) -> (r: Result<
        Option<RecognitionResult>,
        SpeechError,
    >)
        ensures
            old(self).should_fail ==> (r matches Err(e) && e matches
                SpeechError::RecognitionError(m) && m@ == "Mock error"@) && *final(self) == *old(self),
            !old(self).should_fail ==> {
                &&& final(self).model_loaded == old(self).model_loaded
                &&& final(self).mock_text == old(self).mock_text
                &&& !final(self).should_fail
                &&& (old(self).process_count < usize::MAX ==> final(self).process_count == old(self).process_count + 1)
                &&& (if old(self).mock_text@.len() == 0 {
                    r matches Ok(o) && o is None
                } else {
                    r matches Ok(o) && o matches Some(x) && x.text@ == old(self).mock_text@
                        && !x.is_final && x.confidence_centi == Some(95u16)
                })
            },
    {
        if self.should_fail {
            return Err(SpeechError::RecognitionError("Mock error".to_owned()));
        }

        if self.process_count < usize::MAX {
            self.process_count = self.process_count + 1;
        }

        if self.mock_text.as_str().is_empty() {
            Ok(None)
        } else {
            Ok(
                Some(
                    RecognitionResult {
                        text: self.mock_text.clone(),
                        is_final: false,
                        confidence_centi: Some(95),
                    },
                ),
            )
        }
    }

    fn get_final_result(&self) -> (r: Result<RecognitionResult, SpeechError>)
        ensures
            self.should_fail ==> (r matches Err(e) && e matches SpeechError::RecognizerError(m)
                && m@ == "Mock error"@),
            !self.should_fail ==> (r matches Ok(x) && x.text@ == self.mock_text@ && x.is_final
                && x.confidence_centi == Some(98u16)),
    {
        if self.should_fail {
            return Err(SpeechError::RecognizerError("Mock error".to_owned()));
        }
        Ok(
            RecognitionResult {
                text: self.mock_text.clone(),
                is_final: true,
                confidence_centi: Some(98),
            },
        )
    }

    fn reset(&mut self)
        ensures
            recognizer_obs(*final(self)) == reset_obs(recognizer_obs(*old(self))),
            final(self).mock_text == old(self).mock_text,
    {
        self.process_count = 0;
    }
}

} // verus!
