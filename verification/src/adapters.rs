//! The provider adapters' decision logic: each provider's closed fault
//! surface, its total fold into the two-valued error taxonomy, and the
//! permissive extraction of voice ids and audio payloads from provider
//! responses. The network calls themselves happen outside the library; every
//! provider outcome is handed in here as plain values.

use vstd::prelude::*;

use crate::errors::ErrorKind;

verus! {

/// The faults a translate-text call can end in: the translation provider's
/// own fault variants plus the transport-level ones (dispatch, credentials,
/// validation, parse, unknown). The fold reads only the variant, so the
/// payloads the provider attaches (messages, raw responses) are not modeled.
#[derive(Clone, Copy, PartialEq, Eq, Structural, Debug)]
pub enum TranslateFault {
    DetectedLanguageLowConfidence,
    InternalServer,
    InvalidRequest,
    ResourceNotFound,
    ServiceUnavailable,
    TextSizeLimitExceeded,
    TooManyRequests,
    UnsupportedLanguagePair,
    HttpDispatch,
    Credentials,
    Validation,
    ParseError,
    Unknown,
}

/// The faults a list-voices call can end in, modeled the same way.
#[derive(Clone, Copy, PartialEq, Eq, Structural, Debug)]
pub enum DescribeVoicesFault {
    InvalidNextToken,
    ServiceFailure,
    HttpDispatch,
    Credentials,
    Validation,
    ParseError,
    Unknown,
}

/// The faults a synthesize-speech call can end in, modeled the same way.
#[derive(Clone, Copy, PartialEq, Eq, Structural, Debug)]
pub enum SynthesizeFault {
    EngineNotSupported,
    InvalidSampleRate,
    InvalidSsml,
    LanguageNotSupported,
    LexiconNotFound,
    MarksNotSupportedForFormat,
    ServiceFailure,
    SsmlMarksNotSupportedForTextType,
    TextLengthExceeded,
    HttpDispatch,
    Credentials,
    Validation,
    ParseError,
    Unknown,
}

/// Whose fault a failed translation is. Infrastructure-origin faults —
/// internal server fault, service unavailable, dispatch failure, unknown
/// fault, unparseable response — are the service side's; every other fault
/// means the caller's input was not translatable as given.
pub open spec fn translate_fault_kind(f: TranslateFault) -> ErrorKind {
    match f {
        TranslateFault::InternalServer
        | TranslateFault::ServiceUnavailable
        | TranslateFault::HttpDispatch
        | TranslateFault::Unknown
        | TranslateFault::ParseError => ErrorKind::InternalError,
        TranslateFault::DetectedLanguageLowConfidence
        | TranslateFault::InvalidRequest
        | TranslateFault::ResourceNotFound
        | TranslateFault::TextSizeLimitExceeded
        | TranslateFault::TooManyRequests
        | TranslateFault::UnsupportedLanguagePair
        | TranslateFault::Credentials
        | TranslateFault::Validation => ErrorKind::UserError,
    }
}

/// Whose fault a failed voice listing is. A bad pagination token, a
/// validation fault, or bad credentials are the caller's; everything else —
/// service failure, dispatch failure, unparseable response, unknown fault —
/// is the service side's.
pub open spec fn describe_voices_fault_kind(f: DescribeVoicesFault) -> ErrorKind {
    match f {
        DescribeVoicesFault::InvalidNextToken
        | DescribeVoicesFault::Validation
        | DescribeVoicesFault::Credentials => ErrorKind::UserError,
        DescribeVoicesFault::ServiceFailure
        | DescribeVoicesFault::HttpDispatch
        | DescribeVoicesFault::ParseError
        | DescribeVoicesFault::Unknown => ErrorKind::InternalError,
    }
}

/// Whose fault a failed synthesis is. Dispatch failure, unknown fault,
/// service failure, and unparseable response are the service side's; every
/// other fault means the caller asked for something the provider refuses.
pub open spec fn synthesize_fault_kind(f: SynthesizeFault) -> ErrorKind {
    match f {
        SynthesizeFault::HttpDispatch
        | SynthesizeFault::Unknown
        | SynthesizeFault::ServiceFailure
        | SynthesizeFault::ParseError => ErrorKind::InternalError,
        SynthesizeFault::EngineNotSupported
        | SynthesizeFault::InvalidSampleRate
        | SynthesizeFault::InvalidSsml
        | SynthesizeFault::LanguageNotSupported
        | SynthesizeFault::LexiconNotFound
        | SynthesizeFault::MarksNotSupportedForFormat
        | SynthesizeFault::SsmlMarksNotSupportedForTextType
        | SynthesizeFault::TextLengthExceeded
        | SynthesizeFault::Credentials
        | SynthesizeFault::Validation => ErrorKind::UserError,
    }
}

/// Classifies a translation-provider fault before it crosses the adapter
/// boundary.
pub fn classify_translate_fault(f: TranslateFault) -> (r: ErrorKind)
    ensures
        r == translate_fault_kind(f),
{
    match f {
        TranslateFault::InternalServer
        | TranslateFault::ServiceUnavailable
        | TranslateFault::HttpDispatch
        | TranslateFault::Unknown
        | TranslateFault::ParseError => ErrorKind::InternalError,
        _ => ErrorKind::UserError,
    }
}

/// Classifies a voice-catalog fault before it crosses the adapter boundary.
pub fn classify_describe_voices_fault(f: DescribeVoicesFault) -> (r: ErrorKind)
    ensures
        r == describe_voices_fault_kind(f),
{
    match f {
        DescribeVoicesFault::InvalidNextToken
        | DescribeVoicesFault::Validation
        | DescribeVoicesFault::Credentials => ErrorKind::UserError,
        _ => ErrorKind::InternalError,
    }
}

/// Classifies a speech-synthesis fault before it crosses the adapter
/// boundary.
pub fn classify_synthesize_fault(f: SynthesizeFault) -> (r: ErrorKind)
    ensures
        r == synthesize_fault_kind(f),
{
    match f {
        SynthesizeFault::HttpDispatch
        | SynthesizeFault::Unknown
        | SynthesizeFault::ServiceFailure
        | SynthesizeFault::ParseError => ErrorKind::InternalError,
        _ => ErrorKind::UserError,
    }
}

/// The voice id selected from a provider's voice list: the first voice's id,
/// or the empty string when the list is empty or the first voice carries no
/// id. Substituting emptiness for missing data is the adapter's documented
/// permissive policy, not a failure.
pub open spec fn first_voice_id(ids: Seq<Option<String>>) -> Seq<char> {
    if ids.len() == 0 {
        Seq::<char>::empty()
    } else {
        match ids[0] {
            Some(id) => id@,
            None => Seq::<char>::empty(),
        }
    }
}

/// Deterministically selects a voice from the provider's list: the first one,
/// with no ranking and no user choice; an empty list yields the empty-string
/// id rather than a failure.
pub fn resolve_voice(ids: &Vec<Option<String>>) -> (r: String)
    ensures
        r@ == first_voice_id(ids@),
{
    if ids.len() == 0 {
        String::new()
    } else {
        match &ids[0] {
            Some(id) => id.clone(),
            None => String::new(),
        }
    }
}

/// The audio carried by a synthesis response: the payload when the provider
/// sent one, empty bytes when it sent none (the same permissive policy as for
/// voices).
pub open spec fn audio_payload(stream: Option<Vec<u8>>) -> Seq<u8> {
    match stream {
        Some(bytes) => bytes@,
        None => Seq::<u8>::empty(),
    }
}

/// Extracts the audio bytes of a synthesis response, substituting an empty
/// byte sequence when the provider's response carried no payload.
pub fn extract_audio(stream: Option<Vec<u8>>) -> (r: Vec<u8>)
    ensures
        r@ == audio_payload(stream),
{
    match stream {
        Some(bytes) => bytes,
        None => Vec::new(),
    }
}

/// One translation-provider outcome folded into the service taxonomy:
/// success passes the translated text through unchanged, every fault is
/// classified.
pub open spec fn translated_outcome(r: Result<String, TranslateFault>) -> Result<
    String,
    ErrorKind,
> {
    match r {
        Ok(text) => Ok(text),
        Err(f) => Err(translate_fault_kind(f)),
    }
}

/// The Translation Provider Adapter's fold of one provider outcome. No
/// provider fault crosses this boundary unclassified.
pub fn translate_outcome(r: Result<String, TranslateFault>) -> (out: Result<String, ErrorKind>)
    ensures
        out == translated_outcome(r),
{
    match r {
        Ok(text) => Ok(text),
        Err(f) => Err(classify_translate_fault(f)),
    }
}

/// The Voice Resolution Adapter's fold of one provider outcome: a listed
/// voice catalog yields the first voice's id (empty when none), a fault is
/// classified.
pub fn voices_outcome(r: Result<Vec<Option<String>>, DescribeVoicesFault>) -> (out: Result<
    String,
    ErrorKind,
>)
    ensures
        r matches Ok(ids) ==> (out matches Ok(id) && id@ == first_voice_id(ids@)),
        r matches Err(f) ==> out == Err::<String, ErrorKind>(describe_voices_fault_kind(f)),
{
    match r {
        Ok(ids) => Ok(resolve_voice(&ids)),
        Err(f) => Err(classify_describe_voices_fault(f)),
    }
}

/// The Speech Synthesis Adapter's fold of one provider outcome: a response
/// yields its audio payload (empty when none), a fault is classified.
pub fn synthesize_outcome(r: Result<Option<Vec<u8>>, SynthesizeFault>) -> (out: Result<
    Vec<u8>,
    ErrorKind,
>)
    ensures
        r matches Ok(stream) ==> (out matches Ok(audio) && audio@ == audio_payload(stream)),
        r matches Err(f) ==> out == Err::<Vec<u8>, ErrorKind>(synthesize_fault_kind(f)),
{
    match r {
        Ok(stream) => Ok(extract_audio(stream)),
        Err(f) => Err(classify_synthesize_fault(f)),
    }
}

} // verus!
