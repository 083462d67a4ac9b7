//! The orchestration service: the request and response shapes that cross the
//! RPC boundary, the Translate operation, and the Synthesize chain
//! translate -> resolve voice -> synthesize speech, driven one provider call
//! at a time. The service is stateless: every step is a pure function of the
//! request and the provider outcomes fed back in, and the chain
//! short-circuits on the first failure.

use vstd::prelude::*;

use crate::adapters::DescribeVoicesFault;
use crate::adapters::SynthesizeFault;
use crate::adapters::TranslateFault;
use crate::adapters::audio_payload;
use crate::adapters::classify_describe_voices_fault;
use crate::adapters::classify_synthesize_fault;
use crate::adapters::classify_translate_fault;
use crate::adapters::describe_voices_fault_kind;
use crate::adapters::extract_audio;
use crate::adapters::first_voice_id;
use crate::adapters::resolve_voice;
use crate::adapters::synthesize_fault_kind;
use crate::adapters::translate_fault_kind;
use crate::errors::ErrorKind;
use crate::errors::RpcStatusKind;
use crate::errors::status_of;
use crate::language::LanguageCode;

verus! {

/// One translate-or-synthesize request as it crosses the RPC boundary.
#[derive(Clone, Debug)]
pub struct LanguageRequest {
    pub source_language_code: LanguageCode,
    pub target_language_code: LanguageCode,
    pub text: String,
}

/// A successful Translate reply.
#[derive(Clone, Debug, PartialEq, Eq)]
pub struct TranslateResponse {
    pub translated_text: String,
}

/// A successful Synthesize reply.
#[derive(Clone, Debug, PartialEq, Eq)]
pub struct SynthesizeResponse {
    pub audio_bytes: Vec<u8>,
}

/// The Synthesize chain, one provider call at a time. Each non-terminal step
/// names the one provider call to make next and carries everything that call
/// needs; the caller performs it and feeds the outcome back in. `Done` and
/// `Failed` are terminal: they request no provider call.
#[derive(Clone, Debug)]
pub enum SynthesizeStep {
    /// Call the translation provider for `text`, from `source` into `target`.
    Translate { source: LanguageCode, target: LanguageCode, text: String },
    /// Call the voice catalog for the locale tag of `target`.
    ResolveVoice { target: LanguageCode, translated_text: String },
    /// Call the speech synthesizer for `translated_text` spoken by
    /// `voice_id`.
    SynthesizeSpeech { voice_id: String, translated_text: String },
    /// The chain finished; `audio_bytes` is the reply payload.
    Done { audio_bytes: Vec<u8> },
    /// A stage failed; `kind` says whose fault it was.
    Failed { kind: ErrorKind },
}

/// Whether a step directs the caller to make a provider call.
pub open spec fn requests_provider_call(s: SynthesizeStep) -> bool {
    s is Translate || s is ResolveVoice || s is SynthesizeSpeech
}

/// How a synthesize request enters the chain: an `Unknown` source or target
/// is the caller's error and fails the request outright; otherwise the chain
/// opens with the translation call, carrying the request unchanged.
pub open spec fn synthesize_started(req: LanguageRequest, post: SynthesizeStep) -> bool {
    if req.source_language_code == LanguageCode::Unknown || req.target_language_code
        == LanguageCode::Unknown {
        post == (SynthesizeStep::Failed { kind: ErrorKind::UserError })
    } else {
        &&& post matches SynthesizeStep::Translate { source, target, text }
        &&& source == req.source_language_code
        &&& target == req.target_language_code
        &&& text == req.text
    }
}

/// The step after the translation call returns: a fault is classified and
/// ends the chain; translated text moves on to voice resolution for the
/// target language.
pub open spec fn translate_stage(
    pre: SynthesizeStep,
    outcome: Result<String, TranslateFault>,
    post: SynthesizeStep,
) -> bool {
    match outcome {
        Ok(translated) => {
            &&& post matches SynthesizeStep::ResolveVoice { target, translated_text }
            &&& target == pre->Translate_target
            &&& translated_text == translated
        },
        Err(f) => post == (SynthesizeStep::Failed { kind: translate_fault_kind(f) }),
    }
}

/// The step after the voice-catalog call returns: a fault is classified and
/// ends the chain; a listed catalog resolves to its first voice id (empty
/// when the catalog is empty) and moves on to synthesis with the translated
/// text unchanged.
pub open spec fn resolve_voice_stage(
    pre: SynthesizeStep,
    outcome: Result<Vec<Option<String>>, DescribeVoicesFault>,
    post: SynthesizeStep,
) -> bool {
    match outcome {
        Ok(ids) => {
            &&& post matches SynthesizeStep::SynthesizeSpeech { voice_id, translated_text }
            &&& voice_id@ == first_voice_id(ids@)
            &&& translated_text == pre->ResolveVoice_translated_text
        },
        Err(f) => post == (SynthesizeStep::Failed { kind: describe_voices_fault_kind(f) }),
    }
}

/// The step after the synthesis call returns: a fault is classified and ends
/// the chain; a response finishes it with the audio payload (empty when the
/// response carried none).
pub open spec fn synthesize_stage(
    outcome: Result<Option<Vec<u8>>, SynthesizeFault>,
    post: SynthesizeStep,
) -> bool {
    match outcome {
        Ok(stream) => {
            &&& post matches SynthesizeStep::Done { audio_bytes }
            &&& audio_bytes@ == audio_payload(stream)
        },
        Err(f) => post == (SynthesizeStep::Failed { kind: synthesize_fault_kind(f) }),
    }
}

/// Opens the Synthesize chain for a request. A request naming `Unknown` as
/// source or target fails with the caller's error before any provider call is
/// requested.
pub fn start_synthesize(req: LanguageRequest) -> (r: SynthesizeStep)
    ensures
        synthesize_started(req, r),
{
    if req.source_language_code == LanguageCode::Unknown || req.target_language_code
        == LanguageCode::Unknown {
        SynthesizeStep::Failed { kind: ErrorKind::UserError }
    } else {
        SynthesizeStep::Translate {
            source: req.source_language_code,
            target: req.target_language_code,
            text: req.text,
        }
    }
}

/// Advances the chain past the translation call.
pub fn after_translate(step: SynthesizeStep, outcome: Result<String, TranslateFault>) -> (r:
    SynthesizeStep)
    requires
        step is Translate,
    ensures
        translate_stage(step, outcome, r),
{
    match outcome {
        Ok(translated) => match step {
            SynthesizeStep::Translate { target, .. } => SynthesizeStep::ResolveVoice {
                target,
                translated_text: translated,
            },
            _ => unreached(),
        },
        Err(f) => SynthesizeStep::Failed { kind: classify_translate_fault(f) },
    }
}

/// Advances the chain past the voice-catalog call.
pub fn after_resolve_voice(
    step: SynthesizeStep,
    outcome: Result<Vec<Option<String>>, DescribeVoicesFault>,
) -> (r: SynthesizeStep)
    requires
        step is ResolveVoice,
    ensures
        resolve_voice_stage(step, outcome, r),
{
    match outcome {
        Ok(ids) => match step {
            SynthesizeStep::ResolveVoice { translated_text, .. } => {
                SynthesizeStep::SynthesizeSpeech { voice_id: resolve_voice(&ids), translated_text }
            },
            _ => unreached(),
        },
        Err(f) => SynthesizeStep::Failed { kind: classify_describe_voices_fault(f) },
    }
}

/// Finishes the chain past the synthesis call.
pub fn after_synthesize(
    step: SynthesizeStep,
    outcome: Result<Option<Vec<u8>>, SynthesizeFault>,
) -> (r: SynthesizeStep)
    requires
        step is SynthesizeSpeech,
    ensures
        synthesize_stage(outcome, r),
{
    match outcome {
        Ok(stream) => SynthesizeStep::Done { audio_bytes: extract_audio(stream) },
        Err(f) => SynthesizeStep::Failed { kind: classify_synthesize_fault(f) },
    }
}

/// The Translate operation's reply for one provider outcome: the translated
/// text on success, or the RPC status of the classified fault. Translate
/// validates nothing itself; the adapter's precondition (no `Unknown` code)
/// is the caller's to meet.
pub fn translate_response(outcome: Result<String, TranslateFault>) -> (r: Result<
    TranslateResponse,
    RpcStatusKind,
>)
    ensures
        outcome matches Ok(translated) ==> (r matches Ok(resp) && resp.translated_text
            == translated),
        outcome matches Err(f) ==> r == Err::<TranslateResponse, RpcStatusKind>(
            status_of(translate_fault_kind(f)),
        ),
{
    match outcome {
        Ok(translated) => Ok(TranslateResponse { translated_text: translated }),
        Err(f) => Err(crate::errors::status_for_error(classify_translate_fault(f))),
    }
}

/// The Synthesize operation's reply, read off the chain's terminal step: the
/// audio bytes when the chain finished, or the RPC status of the error kind
/// the failing stage classified — the chain introduces no kinds of its own.
pub fn synthesize_response(step: SynthesizeStep) -> (r: Result<SynthesizeResponse, RpcStatusKind>)
    requires
        step is Done || step is Failed,
    ensures
        step matches SynthesizeStep::Done { audio_bytes } ==> (r matches Ok(resp)
            && resp.audio_bytes == audio_bytes),
        step matches SynthesizeStep::Failed { kind } ==> r == Err::<
            SynthesizeResponse,
            RpcStatusKind,
        >(status_of(kind)),
{
    match step {
        SynthesizeStep::Done { audio_bytes } => Ok(SynthesizeResponse { audio_bytes }),
        SynthesizeStep::Failed { kind } => Err(crate::errors::status_for_error(kind)),
        _ => unreached(),
    }
}

/// A request naming `Unknown` as source or target always fails with the
/// caller's error, and the failing step requests no provider call: the
/// rejection happens before any network work.
pub proof fn lemma_unknown_code_rejected_up_front(req: LanguageRequest, post: SynthesizeStep)
    requires
        synthesize_started(req, post),
        req.source_language_code == LanguageCode::Unknown || req.target_language_code
            == LanguageCode::Unknown,
    ensures
        post == (SynthesizeStep::Failed { kind: ErrorKind::UserError }),
        !requests_provider_call(post),
{
}

/// The chain short-circuits: a translation fault ends it at once. The
/// resulting step is terminal, carries exactly the classified kind, and
/// requests neither the voice-catalog call nor the synthesis call.
pub proof fn lemma_translate_fault_short_circuits(
    pre: SynthesizeStep,
    f: TranslateFault,
    post: SynthesizeStep,
)
    requires
        translate_stage(pre, Err(f), post),
    ensures
        post == (SynthesizeStep::Failed { kind: translate_fault_kind(f) }),
        !requests_provider_call(post),
{
}

/// A voice-catalog fault short-circuits the rest of the chain the same way.
pub proof fn lemma_voice_fault_short_circuits(
    pre: SynthesizeStep,
    f: DescribeVoicesFault,
    post: SynthesizeStep,
)
    requires
        resolve_voice_stage(pre, Err(f), post),
    ensures
        post == (SynthesizeStep::Failed { kind: describe_voices_fault_kind(f) }),
        !requests_provider_call(post),
{
}

/// A whole successful run, stated once. When the request is valid and no
/// stage faults, the chain the stage relations allow is exactly translate,
/// resolve a voice, synthesize: the target language and the translated text
/// flow unchanged into the later stages, the voice is the first one the
/// catalog listed, and the reply's audio is the synthesis payload — no stage
/// is skipped and no partial result leaks.
pub proof fn lemma_successful_chain(
    req: LanguageRequest,
    s1: SynthesizeStep,
    translated: String,
    s2: SynthesizeStep,
    ids: Vec<Option<String>>,
    s3: SynthesizeStep,
    stream: Option<Vec<u8>>,
    s4: SynthesizeStep,
)
    requires
        req.source_language_code != LanguageCode::Unknown,
        req.target_language_code != LanguageCode::Unknown,
        synthesize_started(req, s1),
        translate_stage(s1, Ok(translated), s2),
        resolve_voice_stage(s2, Ok(ids), s3),
        synthesize_stage(Ok(stream), s4),
    ensures
        s1 is Translate && s1->Translate_source == req.source_language_code
            && s1->Translate_target == req.target_language_code && s1->Translate_text == req.text,
        s2 is ResolveVoice && s2->ResolveVoice_target == req.target_language_code
            && s2->ResolveVoice_translated_text == translated,
        s3 is SynthesizeSpeech && s3->SynthesizeSpeech_voice_id@ == first_voice_id(ids@)
            && s3->SynthesizeSpeech_translated_text == translated,
        s4 is Done && s4->Done_audio_bytes@ == audio_payload(stream),
{
}

/// Each chain stage is deterministic: from one step and one provider outcome
/// only one next step can follow. With the opening check this makes a whole
/// Synthesize run a function of the request and the three provider outcomes —
/// the service keeps no hidden state between stages.
pub proof fn lemma_translate_stage_deterministic(
    pre: SynthesizeStep,
    outcome: Result<String, TranslateFault>,
    post1: SynthesizeStep,
    post2: SynthesizeStep,
)
    requires
        translate_stage(pre, outcome, post1),
        translate_stage(pre, outcome, post2),
    ensures
        post1 == post2,
{
}

} // verus!
