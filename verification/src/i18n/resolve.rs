//! The language that a run speaks.

use vstd::prelude::*;

use crate::cli::LangOption;
use crate::i18n::Language;
use crate::text::{strip_prefix, text_of};

verus! {

/// How the names of Japanese locales begin.
pub const JAPANESE_LOCALE: &'static str = "ja";

/// The language of a locale: Japanese for its locales, English for all others and for none.
pub open spec fn locale_language(locale: Option<Seq<char>>) -> Language {
    match locale {
        Some(name) => if JAPANESE_LOCALE@.is_prefix_of(name) {
            Language::Japanese
        } else {
            Language::English
        },
        None => Language::English,
    }
}

/// The language of a locale.
fn language_of_locale(locale: Option<&str>) -> (language: Language)
    ensures
        language == locale_language(text_of(locale)),
{
    match locale {
        Some(name) => match strip_prefix(name, JAPANESE_LOCALE) {
            Some(_) => Language::Japanese,
            None => Language::English,
        },
        None => Language::English,
    }
}

/// What asks for a language, from some place on: the first that is a known spelling. The
/// locale decides where that is `auto`, or where there is none.
pub open spec fn language_from(
    layers: Seq<Option<&str>>,
    from: int,
    locale: Option<Seq<char>>,
) -> Language
    decreases layers.len() - from,
{
    if from < 0 || from >= layers.len() {
        locale_language(locale)
    } else {
        match text_of(layers[from]) {
            Some(word) => match LangOption::spelled(word) {
                Some(LangOption::Ja) => Language::Japanese,
                Some(LangOption::En) => Language::English,
                Some(LangOption::Auto) => locale_language(locale),
                None => language_from(layers, from + 1, locale),
            },
            None => language_from(layers, from + 1, locale),
        }
    }
}

/// Decides the language from what asks for one, the strongest first, and the locale.
pub fn resolve_language(layers: &[Option<&str>], locale: Option<&str>) -> (language: Language)
    ensures
        language == language_from(layers@, 0, text_of(locale)),
{
    let mut i: usize = 0;
    while i < layers.len()
        invariant
            i <= layers@.len(),
            language_from(layers@, 0, text_of(locale)) == language_from(
                layers@,
                i as int,
                text_of(locale),
            ),
        decreases layers@.len() - i,
    {
        if let Some(word) = layers[i] {
            match LangOption::from_spelling(word) {
                Some(LangOption::Ja) => {
                    return Language::Japanese;
                },
                Some(LangOption::En) => {
                    return Language::English;
                },
                Some(LangOption::Auto) => {
                    return language_of_locale(locale);
                },
                None => {},
            }
        }
        i += 1;
    }
    language_of_locale(locale)
}

/// Whether a layer asks for nothing: it is not there, or says a word that is none of the three.
pub open spec fn asks_for_nothing(layer: Option<&str>) -> bool {
    text_of(layer) matches Some(word) ==> word != "ja"@ && word != "en"@ && word != "auto"@
}

proof fn lemma_language_from(
    layers: Seq<Option<&str>>,
    from: int,
    at: int,
    locale: Option<Seq<char>>,
)
    requires
        0 <= from <= at <= layers.len(),
        forall|k: int| from <= k < at ==> asks_for_nothing(#[trigger] layers[k]),
    ensures
        language_from(layers, from, locale) == language_from(layers, at, locale),
    decreases at - from,
{
    if from < at {
        assert(asks_for_nothing(layers[from]));
        lemma_language_from(layers, from + 1, at, locale);
    }
}

/// The strongest layer that asks for a language decides, whatever those below it say: `ja` and
/// `en` for theirs, and `auto` for that of the locale.
pub proof fn law_the_strongest_request_decides(
    layers: &[Option<&str>],
    locale: Option<&str>,
    at: int,
    language: Language,
)
    requires
        0 <= at < layers@.len(),
        forall|k: int| 0 <= k < at ==> asks_for_nothing(#[trigger] layers@[k]),
        call_ensures(resolve_language, (layers, locale), language),
    ensures
        text_of(layers@[at]) == Some("ja"@) ==> language == Language::Japanese,
        text_of(layers@[at]) == Some("en"@) ==> language == Language::English,
        text_of(layers@[at]) == Some("auto"@) && locale is None ==> language == Language::English,
        text_of(layers@[at]) == Some("auto"@) ==> (locale matches Some(name) ==> (language
            == Language::Japanese <==> "ja"@.is_prefix_of(name@))),
{
    lemma_language_from(layers@, 0, at, text_of(locale));
    reveal_strlit("ja");
    reveal_strlit("en");
    reveal_strlit("auto");
    assert("ja"@.len() == 2 && "ja"@[0] == 'j');
    assert("en"@.len() == 2 && "en"@[0] == 'e');
    assert("auto"@.len() == 4);
}

/// Where no layer asks for a language the locale decides: Japanese for its own, and English for
/// all others and for none.
pub proof fn law_the_locale_decides_where_nobody_asks(
    layers: &[Option<&str>],
    locale: Option<&str>,
    language: Language,
)
    requires
        forall|k: int| 0 <= k < layers@.len() ==> asks_for_nothing(#[trigger] layers@[k]),
        call_ensures(resolve_language, (layers, locale), language),
    ensures
        locale is None ==> language == Language::English,
        locale matches Some(name) ==> (language == Language::Japanese <==> "ja"@.is_prefix_of(
            name@,
        )),
{
    lemma_language_from(layers@, 0, layers@.len() as int, text_of(locale));
}

} // verus!
