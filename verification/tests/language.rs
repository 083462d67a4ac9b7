use translation_service::language::{
    code_to_locale_tag, code_to_short_string, get_languages, get_ops, select_language,
    select_operation, LanguageCode, Operation,
};

const KNOWN: [LanguageCode; 6] = [
    LanguageCode::Mandarin,
    LanguageCode::English,
    LanguageCode::French,
    LanguageCode::German,
    LanguageCode::Spanish,
    LanguageCode::Portuguese,
];

#[test]
fn short_codes_are_the_canonical_table() {
    assert_eq!(code_to_short_string(LanguageCode::Mandarin), "zh");
    assert_eq!(code_to_short_string(LanguageCode::English), "en");
    assert_eq!(code_to_short_string(LanguageCode::French), "fr");
    assert_eq!(code_to_short_string(LanguageCode::German), "de");
    assert_eq!(code_to_short_string(LanguageCode::Spanish), "es");
    assert_eq!(code_to_short_string(LanguageCode::Portuguese), "pt");
}

#[test]
fn short_codes_are_two_lowercase_letters_and_injective() {
    for a in KNOWN {
        let code = code_to_short_string(a);
        assert_eq!(code.len(), 2);
        assert!(code.chars().all(|c| c.is_ascii_lowercase()));
        for b in KNOWN {
            if a != b {
                assert_ne!(code_to_short_string(a), code_to_short_string(b));
            }
        }
    }
}

#[test]
fn locale_tags_follow_the_irregular_then_regular_rule() {
    assert_eq!(code_to_locale_tag(LanguageCode::Mandarin), "cmn-CN");
    assert_eq!(code_to_locale_tag(LanguageCode::English), "en-US");
    for c in [
        LanguageCode::French,
        LanguageCode::German,
        LanguageCode::Spanish,
        LanguageCode::Portuguese,
    ] {
        let short = code_to_short_string(c);
        let expected = format!("{}-{}", short, short.to_uppercase());
        assert_eq!(code_to_locale_tag(c), expected);
    }
    assert_eq!(code_to_locale_tag(LanguageCode::French), "fr-FR");
    assert_eq!(code_to_locale_tag(LanguageCode::German), "de-DE");
    assert_eq!(code_to_locale_tag(LanguageCode::Spanish), "es-ES");
    assert_eq!(code_to_locale_tag(LanguageCode::Portuguese), "pt-PT");
}

#[test]
fn language_menu_selection_matches_menu_order() {
    let names = get_languages();
    assert_eq!(
        names,
        vec![
            "Mandarin",
            "English",
            "French",
            "German",
            "Spanish",
            "Portuguese"
        ]
    );
    for (idx, code) in KNOWN.iter().enumerate() {
        assert_eq!(select_language(idx as u64 + 1), *code);
    }
}

#[test]
fn out_of_menu_selection_is_unknown() {
    assert_eq!(select_language(0), LanguageCode::Unknown);
    assert_eq!(select_language(7), LanguageCode::Unknown);
    assert_eq!(select_language(u64::MAX), LanguageCode::Unknown);
}

#[test]
fn operation_menu_selection() {
    assert_eq!(get_ops(), vec!["Translate", "Synthesize"]);
    assert_eq!(select_operation(1), Some(Operation::Translate));
    assert_eq!(select_operation(2), Some(Operation::Synthesize));
    assert_eq!(select_operation(0), None);
    assert_eq!(select_operation(3), None);
}
