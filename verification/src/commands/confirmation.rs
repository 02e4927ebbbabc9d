//! Consent before what cannot be undone.

use vstd::prelude::*;

use crate::error::Error;
use crate::i18n::Messages;
use crate::text::{concat2, texts, trim, trimmed};

verus! {

/// Whether an answer is consent: `y` or `yes`, in either case, and nothing else. The answers
/// are the same in every language.
pub open spec fn consents(answer: Seq<char>) -> bool {
    let word = trimmed(answer);
    ||| word.len() == 1 && (word[0] == 'y' || word[0] == 'Y')
    ||| word.len() == 3 && (word[0] == 'y' || word[0] == 'Y') && (word[1] == 'e' || word[1] == 'E')
        && (word[2] == 's' || word[2] == 'S')
}

/// Reads an answer.
pub fn is_affirmative(answer: &str) -> (affirmative: bool)
    ensures
        affirmative == consents(answer@),
{
    let word = trim(answer);
    (word.len() == 1 && (word[0] == 'y' || word[0] == 'Y')) || (word.len() == 3 && (word[0] == 'y'
        || word[0] == 'Y') && (word[1] == 'e' || word[1] == 'E') && (word[2] == 's' || word[2]
        == 'S'))
}

/// What is shown for the targets: one indented line each.
pub open spec fn target_lines(targets: Seq<Seq<char>>) -> Seq<char>
    decreases targets.len(),
{
    if targets.len() == 0 {
        Seq::empty()
    } else {
        target_lines(targets.drop_last()) + "  "@ + targets.last() + "\n"@
    }
}

/// The question: what is at stake, the targets, and the prompt.
pub fn question(messages: Messages, header: &str, targets: &Vec<String>) -> (question: String)
    ensures
        question@ == header@ + "\n"@ + target_lines(texts(targets@))
            + messages.confirm().prompt_text(),
{
    let mut lines = String::new();
    let mut i: usize = 0;
    while i < targets.len()
        invariant
            i <= targets@.len(),
            lines@ == target_lines(texts(targets@).take(i as int)),
        decreases targets@.len() - i,
    {
        proof {
            let next = texts(targets@).take(i + 1);
            assert(next.drop_last() =~= texts(targets@).take(i as int));
            assert(next.last() == targets@[i as int]@);
        }
        lines.append("  ");
        lines.append(targets[i].as_str());
        lines.append("\n");
        i += 1;
    }
    assert(texts(targets@).take(i as int) =~= texts(targets@));
    let mut question = concat2(header, "\n");
    question.append(lines.as_str());
    question.append(messages.confirm().prompt());
    question
}

/// Goes on only with consent. No answer at all is no consent.
pub fn confirm(answer: &str) -> (outcome: Result<(), Error>)
    ensures
        outcome == (if consents(answer@) {
            Ok::<(), Error>(())
        } else {
            Err(Error::Cancelled)
        }),
{
    if !is_affirmative(answer) {
        return Err(Error::Cancelled);
    }
    Ok(())
}

/// An empty answer, as at the end of the input, is no consent.
pub proof fn law_silence_is_no_consent()
    ensures
        !consents(Seq::empty()),
{
}

/// A letter in its small form, as far as consent is spelled with it.
pub open spec fn small(c: char) -> char {
    if c == 'Y' {
        'y'
    } else if c == 'E' {
        'e'
    } else if c == 'S' {
        's'
    } else {
        c
    }
}

/// Consent is one of two words, however they are written and whatever blanks stand around them:
/// every other answer cancels.
pub proof fn law_consent_is_one_of_two_words(answer: &str, outcome: Result<(), Error>)
    requires
        call_ensures(confirm, (answer,), outcome),
    ensures
        ({
            let word = trimmed(answer@).map_values(|c: char| small(c));
            outcome is Ok <==> word == "y"@ || word == "yes"@
        }),
        outcome is Err ==> outcome == Err::<(), Error>(Error::Cancelled),
{
    reveal_strlit("y");
    reveal_strlit("yes");
    let given = trimmed(answer@);
    let word = given.map_values(|c: char| small(c));
    assert(word.len() == given.len());
    assert("y"@.len() == 1 && "yes"@.len() == 3);
    if word == "y"@ {
        assert(small(given[0]) == word[0]);
    }
    if word == "yes"@ {
        assert(small(given[0]) == word[0]);
        assert(small(given[1]) == word[1]);
        assert(small(given[2]) == word[2]);
    }
    if outcome is Ok {
        if given.len() == 1 {
            assert(word =~= "y"@);
        } else {
            assert(word =~= "yes"@);
        }
    }
}

/// Everything that is at stake is named before the answer: each target stands on a line of its
/// own between the header and the prompt, in order.
pub proof fn law_every_target_is_named(
    messages: Messages,
    header: &str,
    targets: &Vec<String>,
    last: String,
    more: &Vec<String>,
    question: String,
    longer: String,
)
    requires
        texts(more@) == texts(targets@).push(last@),
        call_ensures(self::question, (messages, header, targets), question),
        call_ensures(self::question, (messages, header, more), longer),
    ensures
        header@.is_prefix_of(question@),
        longer@ == question@.take(question@.len() - messages.confirm().prompt_text().len()) + "  "@
            + last@ + "\n"@ + messages.confirm().prompt_text(),
{
    let prompt = messages.confirm().prompt_text();
    let lines = target_lines(texts(targets@));
    assert(texts(more@).drop_last() =~= texts(targets@));
    assert(texts(more@).last() == last@);
    assert(question@.take(question@.len() - prompt.len()) =~= header@ + "\n"@ + lines);
    assert(longer@ =~= header@ + "\n"@ + lines + "  "@ + last@ + "\n"@ + prompt);
}

} // verus!
