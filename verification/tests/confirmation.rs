use fuzgit::commands::confirmation::is_affirmative;
use fuzgit::i18n::Language;

#[test]
fn only_an_explicit_yes_confirms_the_operation() {
    for answer in ["y\n", "Y\n", "yes\n", "YES\r\n", " y \n"] {
        assert!(is_affirmative(answer), "{answer:?} should be affirmative");
    }
}

#[test]
fn anything_else_declines_the_operation() {
    for answer in ["", "\n", "n\n", "N\n", "no\n", "yeah\n", "ｙ\n", "1\n"] {
        assert!(!is_affirmative(answer), "{answer:?} should decline");
    }
}

#[test]
fn the_accepted_answers_do_not_depend_on_the_display_language() {
    for answer in ["は\n", "はい\n", "ハイ\n", "うん\n", "j\n", "o\n", "oui\n"] {
        assert!(!is_affirmative(answer), "{answer:?} should decline");
    }
}

#[test]
fn every_language_prompts_with_the_same_accepted_answers() {
    for language in [Language::Japanese, Language::English] {
        let prompt = language.messages().confirm().prompt();

        assert!(prompt.contains("[y/N]"), "{language:?}: {prompt}");
        assert!(
            !prompt.ends_with('\n'),
            "{language:?} must keep the cursor on the prompt line: {prompt:?}"
        );
    }
}

#[test]
fn the_confirmation_wording_is_translated() {
    let japanese = Language::Japanese.messages().confirm();
    let english = Language::English.messages().confirm();

    assert_ne!(japanese.prompt(), english.prompt());
    assert_ne!(japanese.cancelled(), english.cancelled());
    assert_ne!(japanese.output_failed(), english.output_failed());
    assert_ne!(japanese.input_failed(), english.input_failed());
}

#[test]
fn no_confirmation_wording_is_empty() {
    for language in [Language::Japanese, Language::English] {
        let confirm = language.messages().confirm();

        for text in [
            confirm.prompt(),
            confirm.cancelled(),
            confirm.output_failed(),
            confirm.input_failed(),
        ] {
            assert!(!text.trim().is_empty(), "{language:?} left a message empty");
        }
    }
}
