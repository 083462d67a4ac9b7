//! The language catalog: the closed set of supported languages, their
//! provider-facing encodings, and the menus the interactive client offers.

use vstd::prelude::*;

verus! {

/// The closed set of languages the service understands, plus `Unknown`, the
/// sentinel standing for caller input that names none of them. `Unknown` is
/// never a valid source or target language for either operation.
#[derive(Clone, Copy, PartialEq, Eq, Structural, Debug)]
pub enum LanguageCode {
    Mandarin,
    English,
    French,
    German,
    Spanish,
    Portuguese,
    Unknown,
}

/// What the client can ask the service to do.
#[derive(Clone, Copy, PartialEq, Eq, Structural, Debug)]
pub enum Operation {
    Translate,
    Synthesize,
}

/// The canonical two-letter lowercase code sent to the translation provider.
/// `Unknown` has no code; it is mapped to the empty sequence here only so the
/// table is total.
pub open spec fn short_code(c: LanguageCode) -> Seq<char> {
    match c {
        LanguageCode::Mandarin => "zh"@,
        LanguageCode::English => "en"@,
        LanguageCode::French => "fr"@,
        LanguageCode::German => "de"@,
        LanguageCode::Spanish => "es"@,
        LanguageCode::Portuguese => "pt"@,
        LanguageCode::Unknown => Seq::<char>::empty(),
    }
}

/// The locale tag sent to the speech provider, of the form
/// `{ISO 639 language}-{ISO 3166 country}`. Mandarin and English are the two
/// irregular entries; every other supported language follows the
/// `{code}-{CODE uppercased}` rule. The speech provider demands exactly these
/// tags, so the table must stay exhaustive and explicit.
pub open spec fn locale_tag(c: LanguageCode) -> Seq<char> {
    match c {
        LanguageCode::Mandarin => "cmn-CN"@,
        LanguageCode::English => "en-US"@,
        LanguageCode::French => "fr-FR"@,
        LanguageCode::German => "de-DE"@,
        LanguageCode::Spanish => "es-ES"@,
        LanguageCode::Portuguese => "pt-PT"@,
        LanguageCode::Unknown => Seq::<char>::empty(),
    }
}

/// The canonical short code of a known language, as handed to the translation
/// provider. `Unknown` has no code: callers must rule it out beforehand.
pub fn code_to_short_string(c: LanguageCode) -> (r: &'static str)
    requires
        c != LanguageCode::Unknown,
    ensures
        r@ == short_code(c),
{
    match c {
        LanguageCode::Mandarin => "zh",
        LanguageCode::English => "en",
        LanguageCode::French => "fr",
        LanguageCode::German => "de",
        LanguageCode::Spanish => "es",
        LanguageCode::Portuguese => "pt",
        LanguageCode::Unknown => unreached(),
    }
}

/// The locale tag of a known language, as handed to the speech provider.
/// `Unknown` has no tag: callers must rule it out beforehand.
pub fn code_to_locale_tag(c: LanguageCode) -> (r: &'static str)
    requires
        c != LanguageCode::Unknown,
    ensures
        r@ == locale_tag(c),
{
    match c {
        LanguageCode::Mandarin => "cmn-CN",
        LanguageCode::English => "en-US",
        LanguageCode::French => "fr-FR",
        LanguageCode::German => "de-DE",
        LanguageCode::Spanish => "es-ES",
        LanguageCode::Portuguese => "pt-PT",
        LanguageCode::Unknown => unreached(),
    }
}

/// The language offered at 1-based position `n` of the client's language
/// menu; every selector outside the menu means no known language was named.
pub open spec fn language_at(n: u64) -> LanguageCode {
    if n == 1 {
        LanguageCode::Mandarin
    } else if n == 2 {
        LanguageCode::English
    } else if n == 3 {
        LanguageCode::French
    } else if n == 4 {
        LanguageCode::German
    } else if n == 5 {
        LanguageCode::Spanish
    } else if n == 6 {
        LanguageCode::Portuguese
    } else {
        LanguageCode::Unknown
    }
}

/// Turns a 1-based language-menu selection into a language code; anything
/// outside the menu becomes `Unknown`.
pub fn select_language(n: u64) -> (r: LanguageCode)
    ensures
        r == language_at(n),
{
    if n == 1 {
        LanguageCode::Mandarin
    } else if n == 2 {
        LanguageCode::English
    } else if n == 3 {
        LanguageCode::French
    } else if n == 4 {
        LanguageCode::German
    } else if n == 5 {
        LanguageCode::Spanish
    } else if n == 6 {
        LanguageCode::Portuguese
    } else {
        LanguageCode::Unknown
    }
}

/// Turns a 1-based operation-menu selection into an operation; anything
/// outside the menu selects nothing.
pub fn select_operation(n: u64) -> (r: Option<Operation>)
    ensures
        n == 1 ==> r == Some(Operation::Translate),
        n == 2 ==> r == Some(Operation::Synthesize),
        n != 1 && n != 2 ==> r is None,
{
    if n == 1 {
        Some(Operation::Translate)
    } else if n == 2 {
        Some(Operation::Synthesize)
    } else {
        None
    }
}

/// The human-readable names of the supported languages, in the order the
/// client's menu shows them; position `n` (1-based) names `language_at(n)`.
pub fn get_languages() -> (r: Vec<&'static str>)
    ensures
        r@.len() == 6,
        r@[0]@ == "Mandarin"@,
        r@[1]@ == "English"@,
        r@[2]@ == "French"@,
        r@[3]@ == "German"@,
        r@[4]@ == "Spanish"@,
        r@[5]@ == "Portuguese"@,
{
    let mut v: Vec<&'static str> = Vec::new();
    v.push("Mandarin");
    v.push("English");
    v.push("French");
    v.push("German");
    v.push("Spanish");
    v.push("Portuguese");
    v
}

/// The names of the operations the client offers, in menu order.
pub fn get_ops() -> (r: Vec<&'static str>)
    ensures
        r@.len() == 2,
        r@[0]@ == "Translate"@,
        r@[1]@ == "Synthesize"@,
{
    let mut v: Vec<&'static str> = Vec::new();
    v.push("Translate");
    v.push("Synthesize");
    v
}

/// Every known language has a two-letter short code made of lowercase ASCII
/// letters.
pub proof fn lemma_short_code_shape(c: LanguageCode)
    requires
        c != LanguageCode::Unknown,
    ensures
        short_code(c).len() == 2,
        forall|i: int| 0 <= i < 2 ==> 'a' <= #[trigger] short_code(c)[i] && short_code(c)[i]
            <= 'z',
{
    reveal_strlit("zh");
    reveal_strlit("en");
    reveal_strlit("fr");
    reveal_strlit("de");
    reveal_strlit("es");
    reveal_strlit("pt");
}

/// No two known languages share a short code: the mapping to provider codes
/// is injective.
pub proof fn lemma_short_codes_injective(a: LanguageCode, b: LanguageCode)
    requires
        a != LanguageCode::Unknown,
        b != LanguageCode::Unknown,
        short_code(a) == short_code(b),
    ensures
        a == b,
{
    reveal_strlit("zh");
    reveal_strlit("en");
    reveal_strlit("fr");
    reveal_strlit("de");
    reveal_strlit("es");
    reveal_strlit("pt");
    assert(short_code(a)[0] == short_code(b)[0]);
    assert(short_code(a)[1] == short_code(b)[1]);
    match a {
        LanguageCode::Mandarin => {
            assert(short_code(b)[0] == 'z');
            assert(b == LanguageCode::Mandarin);
        },
        LanguageCode::English => {
            assert(short_code(b)[0] == 'e' && short_code(b)[1] == 'n');
            assert(b == LanguageCode::English);
        },
        LanguageCode::French => {
            assert(short_code(b)[0] == 'f');
            assert(b == LanguageCode::French);
        },
        LanguageCode::German => {
            assert(short_code(b)[0] == 'd');
            assert(b == LanguageCode::German);
        },
        LanguageCode::Spanish => {
            assert(short_code(b)[0] == 'e' && short_code(b)[1] == 's');
            assert(b == LanguageCode::Spanish);
        },
        LanguageCode::Portuguese => {
            assert(short_code(b)[0] == 'p');
            assert(b == LanguageCode::Portuguese);
        },
        LanguageCode::Unknown => {
            assert(false);
        },
    }
}

/// The two irregular locale tags, spelled out: the speech provider does not
/// accept `zh-ZH` or `en-EN`.
pub proof fn lemma_irregular_locale_tags()
    ensures
        locale_tag(LanguageCode::Mandarin) == "cmn-CN"@,
        locale_tag(LanguageCode::English) == "en-US"@,
{
}

/// Every language outside the two irregular entries follows the regular rule:
/// its locale tag is the short code, a hyphen, then the short code uppercased
/// (uppercase ASCII sits 0x20 below lowercase).
pub proof fn lemma_regular_locale_tags(c: LanguageCode)
    requires
        c != LanguageCode::Mandarin,
        c != LanguageCode::English,
        c != LanguageCode::Unknown,
    ensures
        locale_tag(c).len() == 5,
        locale_tag(c).subrange(0, 2) =~= short_code(c),
        locale_tag(c)[2] == '-',
        forall|i: int|
            0 <= i < 2 ==> (#[trigger] locale_tag(c)[i + 3]) as u32 == short_code(c)[i] as u32
                - 0x20,
{
    reveal_strlit("fr");
    reveal_strlit("de");
    reveal_strlit("es");
    reveal_strlit("pt");
    reveal_strlit("fr-FR");
    reveal_strlit("de-DE");
    reveal_strlit("es-ES");
    reveal_strlit("pt-PT");
}

} // verus!
