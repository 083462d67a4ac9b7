use translation_service::adapters::{DescribeVoicesFault, TranslateFault};
use translation_service::errors::{status_for_error, ErrorKind, RpcStatusKind};
use translation_service::language::LanguageCode;
use translation_service::service::{
    after_resolve_voice, after_synthesize, after_translate, start_synthesize,
    synthesize_response, translate_response, LanguageRequest, SynthesizeStep, TranslateResponse,
};

fn request(source: LanguageCode, target: LanguageCode, text: &str) -> LanguageRequest {
    LanguageRequest {
        source_language_code: source,
        target_language_code: target,
        text: text.to_string(),
    }
}

#[test]
fn error_kinds_map_to_rpc_statuses() {
    assert_eq!(
        status_for_error(ErrorKind::UserError),
        RpcStatusKind::InvalidArgument
    );
    assert_eq!(
        status_for_error(ErrorKind::InternalError),
        RpcStatusKind::Internal
    );
}

#[test]
fn synthesize_rejects_unknown_source_before_any_call() {
    let step = start_synthesize(request(LanguageCode::Unknown, LanguageCode::French, "hello"));
    assert!(matches!(
        step,
        SynthesizeStep::Failed {
            kind: ErrorKind::UserError
        }
    ));
    assert_eq!(
        synthesize_response(step),
        Err(RpcStatusKind::InvalidArgument)
    );
}

#[test]
fn synthesize_rejects_unknown_target_before_any_call() {
    let step = start_synthesize(request(LanguageCode::English, LanguageCode::Unknown, "hello"));
    assert!(matches!(
        step,
        SynthesizeStep::Failed {
            kind: ErrorKind::UserError
        }
    ));
}

#[test]
fn translation_fault_short_circuits_the_chain() {
    let step = start_synthesize(request(LanguageCode::English, LanguageCode::French, "hello"));
    assert!(matches!(step, SynthesizeStep::Translate { .. }));
    let step = after_translate(step, Err(TranslateFault::ServiceUnavailable));
    // The chain ends here: the step is terminal, so the voice-catalog and
    // synthesis calls are never requested.
    assert!(matches!(
        step,
        SynthesizeStep::Failed {
            kind: ErrorKind::InternalError
        }
    ));
    assert_eq!(synthesize_response(step), Err(RpcStatusKind::Internal));
}

#[test]
fn voice_fault_short_circuits_the_chain() {
    let step = start_synthesize(request(LanguageCode::English, LanguageCode::French, "hello"));
    let step = after_translate(step, Ok("bonjour".to_string()));
    let step = after_resolve_voice(step, Err(DescribeVoicesFault::InvalidNextToken));
    assert!(matches!(
        step,
        SynthesizeStep::Failed {
            kind: ErrorKind::UserError
        }
    ));
    assert_eq!(
        synthesize_response(step),
        Err(RpcStatusKind::InvalidArgument)
    );
}

#[test]
fn translate_with_stubbed_provider_is_deterministic() {
    // The same fixed request and the same stubbed provider reply, fed in
    // twice: identical output, no hidden state between calls.
    let first = translate_response(Ok("bonjour".to_string()));
    let second = translate_response(Ok("bonjour".to_string()));
    assert_eq!(
        first,
        Ok(TranslateResponse {
            translated_text: "bonjour".to_string()
        })
    );
    assert_eq!(first, second);
}

#[test]
fn end_to_end_english_hello_to_french_audio() {
    // Translate {source=English, target=French, text="hello"} against a stub
    // translator answering "bonjour".
    let reply = translate_response(Ok("bonjour".to_string()));
    assert_eq!(
        reply,
        Ok(TranslateResponse {
            translated_text: "bonjour".to_string()
        })
    );

    // Synthesize on the same request: voice-list stub [{id:"Celine"}], a
    // synthesizer stub echoing [0x01, 0x02] for any input.
    let step = start_synthesize(request(LanguageCode::English, LanguageCode::French, "hello"));
    let step = after_translate(step, Ok("bonjour".to_string()));
    match &step {
        SynthesizeStep::ResolveVoice {
            target,
            translated_text,
        } => {
            assert_eq!(*target, LanguageCode::French);
            assert_eq!(translated_text, "bonjour");
        }
        other => panic!("expected a voice-resolution step, got {:?}", other),
    }
    let step = after_resolve_voice(step, Ok(vec![Some("Celine".to_string())]));
    match &step {
        SynthesizeStep::SynthesizeSpeech {
            voice_id,
            translated_text,
        } => {
            assert_eq!(voice_id, "Celine");
            assert_eq!(translated_text, "bonjour");
        }
        other => panic!("expected a synthesis step, got {:?}", other),
    }
    let step = after_synthesize(step, Ok(Some(vec![0x01, 0x02])));
    let reply = synthesize_response(step).expect("the chain succeeded");
    assert_eq!(reply.audio_bytes, vec![0x01, 0x02]);
}

#[test]
fn empty_voice_list_still_reaches_the_synthesizer() {
    // A voice-list stub returning no voices resolves to the empty-string id,
    // and the synthesis call is still requested with that id: documented
    // permissive behavior, not a failure.
    let step = start_synthesize(request(LanguageCode::English, LanguageCode::French, "hello"));
    let step = after_translate(step, Ok("bonjour".to_string()));
    let step = after_resolve_voice(step, Ok(Vec::new()));
    match &step {
        SynthesizeStep::SynthesizeSpeech {
            voice_id,
            translated_text,
        } => {
            assert_eq!(voice_id, "");
            assert_eq!(translated_text, "bonjour");
        }
        other => panic!("expected a synthesis step, got {:?}", other),
    }
    let step = after_synthesize(step, Ok(Some(vec![0x0a])));
    assert_eq!(
        synthesize_response(step).expect("the chain succeeded").audio_bytes,
        vec![0x0a]
    );
}

#[test]
fn empty_audio_payload_is_an_empty_reply_not_a_failure() {
    let step = start_synthesize(request(LanguageCode::Spanish, LanguageCode::German, "hola"));
    let step = after_translate(step, Ok("hallo".to_string()));
    let step = after_resolve_voice(step, Ok(vec![Some("Vicki".to_string())]));
    let step = after_synthesize(step, Ok(None));
    assert_eq!(
        synthesize_response(step).expect("the chain succeeded").audio_bytes,
        Vec::<u8>::new()
    );
}

#[test]
fn translate_faults_reach_the_caller_as_statuses() {
    assert_eq!(
        translate_response(Err(TranslateFault::UnsupportedLanguagePair)),
        Err(RpcStatusKind::InvalidArgument)
    );
    assert_eq!(
        translate_response(Err(TranslateFault::InternalServer)),
        Err(RpcStatusKind::Internal)
    );
}
