//! Prompt templates: the instruction sent to the model for each assistant mode.

use vstd::prelude::*;
use crate::text::{occurs_in, single_char, spells};

verus! {

/// What the assistant is asked to do with the user's code.
#[derive(Clone, Copy, Debug, PartialEq, Eq, Structural)]
pub enum Mode {
    /// Help completing the code.
    Complete,
    /// Explain the code in simple words.
    Explain,
    /// Suggest refactorings.
    Refactor,
}

/// The text that opens every prompt, up to the user's question.
pub open spec fn template_head() -> Seq<char> {
    "Look into the user question: "@
}

/// The text between the user's question and the language.
pub open spec fn template_middle(mode: Mode) -> Seq<char> {
    match mode {
        Mode::Complete => ". Try to help as much as possible to complete the code. The preferred language is "@,
        Mode::Explain => ". The code is written in "@,
        Mode::Refactor => ". Try to help as much as possible by giving code refactoring suggestions. The code is written in "@,
    }
}

/// The text that follows the language.
pub open spec fn template_tail(mode: Mode) -> Seq<char> {
    match mode {
        Mode::Complete => "."@,
        Mode::Explain => ". Try to help as much as possible by explaining the code in simple words."@,
        Mode::Refactor => "."@,
    }
}

/// The prompt of `mode` for a question and a language.
pub open spec fn prompt_text(mode: Mode, question: Seq<char>, language: Seq<char>) -> Seq<char> {
    template_head() + question + template_middle(mode) + language + template_tail(mode)
}

/// The prompt sent in place of a template when the option names no mode.
pub open spec fn invalid_option_text() -> Seq<char> {
    "Invalid option provided."@
}

/// The mode that a menu option selects: `1`, `2` and `3` select one, nothing else does.
pub open spec fn mode_of_option(option: Seq<char>) -> Option<Mode> {
    if spells(option, '1') {
        Some(Mode::Complete)
    } else if spells(option, '2') {
        Some(Mode::Explain)
    } else if spells(option, '3') {
        Some(Mode::Refactor)
    } else {
        None
    }
}

/// The prompt for a menu option: the mode's template, or the fixed fallback text.
pub open spec fn prompt_for_option(option: Seq<char>, question: Seq<char>, language: Seq<char>) -> Seq<char> {
    match mode_of_option(option) {
        Some(mode) => prompt_text(mode, question, language),
        None => invalid_option_text(),
    }
}

impl Mode {
    /// Reads a menu option. Only the exact strings `1`, `2` and `3` name a mode.
    pub fn from_option(option: &str) -> (mode: Option<Mode>)
        ensures
            mode == mode_of_option(option@),
    {
        match single_char(option) {
            Some('1') => Some(Mode::Complete),
            Some('2') => Some(Mode::Explain),
            Some('3') => Some(Mode::Refactor),
            _ => None,
        }
    }
}

/// Renders the prompt of `mode`: the template with the question and the
/// language filled in verbatim.
pub fn build_prompt(question: &str, language: &str, mode: Mode) -> (prompt: String)
    ensures
        prompt@ == prompt_text(mode, question@, language@),
{
    let mut prompt = String::from_str("Look into the user question: ");
    prompt.append(question);
    match mode {
        Mode::Complete => {
            prompt.append(". Try to help as much as possible to complete the code. The preferred language is ");
            prompt.append(language);
            prompt.append(".");
        },
        Mode::Explain => {
            prompt.append(". The code is written in ");
            prompt.append(language);
            prompt.append(". Try to help as much as possible by explaining the code in simple words.");
        },
        Mode::Refactor => {
            prompt.append(". Try to help as much as possible by giving code refactoring suggestions. The code is written in ");
            prompt.append(language);
            prompt.append(".");
        },
    }
    prompt
}

/// Renders the prompt for a menu option. An option that names no mode is not
/// an error: the result is then the fixed text `Invalid option provided.`,
/// whatever the question and the language are.
pub fn generate_prompt(user_question: &str, language: &str, option: &str) -> (prompt: String)
    ensures
        prompt@ == prompt_for_option(option@, user_question@, language@),
        mode_of_option(option@) is None ==> prompt@ == invalid_option_text(),
{
    match Mode::from_option(option) {
        Some(mode) => build_prompt(user_question, language, mode),
        None => String::from_str("Invalid option provided."),
    }
}

/// A character of the middle text sits in the prompt right after the head
/// and the question.
proof fn lemma_middle_char(mode: Mode, question: Seq<char>, language: Seq<char>, k: int)
    requires
        0 <= k < template_middle(mode).len(),
    ensures
        template_head().len() + question.len() + k < prompt_text(mode, question, language).len(),
        prompt_text(mode, question, language)[template_head().len() + question.len() + k]
            == template_middle(mode)[k],
{
    let front = template_head() + question;
    let upto_middle = front + template_middle(mode);
    let upto_language = upto_middle + language;
    let at = front.len() + k;
    assert(upto_middle[at] == template_middle(mode)[k]);
    assert(upto_language[at] == upto_middle[at]);
    assert((upto_language + template_tail(mode))[at] == upto_language[at]);
}

/// Every prompt holds the question and the language verbatim, whatever they
/// are and whichever mode renders it.
pub proof fn lemma_prompt_holds_inputs(mode: Mode, question: Seq<char>, language: Seq<char>)
    ensures
        occurs_in(question, prompt_text(mode, question, language)),
        occurs_in(language, prompt_text(mode, question, language)),
{
    let text = prompt_text(mode, question, language);
    let q_at = template_head().len() as int;
    let l_at = q_at + question.len() + template_middle(mode).len();
    assert(text.subrange(q_at, q_at + question.len()) =~= question);
    assert(text.subrange(l_at, l_at + language.len()) =~= language);
}

/// Two different modes never render the same prompt for the same question
/// and language.
pub proof fn lemma_modes_render_distinct_prompts(
    first: Mode,
    second: Mode,
    question: Seq<char>,
    language: Seq<char>,
)
    requires
        first != second,
    ensures
        prompt_text(first, question, language) != prompt_text(second, question, language),
{
    reveal_strlit(". Try to help as much as possible to complete the code. The preferred language is ");
    reveal_strlit(". The code is written in ");
    reveal_strlit(". Try to help as much as possible by giving code refactoring suggestions. The code is written in ");
    // Where the two middle texts part: after `. T` when one of them is the
    // explaining one, after `. Try to help as much as possible ` otherwise.
    let k: int = if first == Mode::Explain || second == Mode::Explain { 3 } else { 34 };
    assert(template_middle(first)[k] != template_middle(second)[k]);
    lemma_middle_char(first, question, language, k);
    lemma_middle_char(second, question, language, k);
}

/// For an option that names no mode the prompt is the fixed fallback text,
/// whatever the question and the language are.
pub proof fn lemma_unknown_option_ignores_inputs(
    option: Seq<char>,
    question: Seq<char>,
    language: Seq<char>,
)
    requires
        !spells(option, '1'),
        !spells(option, '2'),
        !spells(option, '3'),
    ensures
        prompt_for_option(option, question, language) == invalid_option_text(),
        prompt_for_option(option, question, language) == prompt_for_option(
            option,
            Seq::<char>::empty(),
            Seq::<char>::empty(),
        ),
{
}

} // verus!
