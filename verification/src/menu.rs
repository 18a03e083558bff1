//! The decisions of the interactive menu: what a typed choice stands for.

use vstd::prelude::*;
use crate::prompt::Mode;
use crate::text::{single_char, spells};

verus! {

/// What the user asked for at the main menu.
#[derive(Clone, Copy, Debug, PartialEq, Eq, Structural)]
pub enum MenuAction {
    /// Send code to the model, to be completed or explained.
    CodeTask(Mode),
    /// Show the transcript.
    ShowHistory,
    /// Empty the transcript.
    ClearHistory,
    /// Show the help text.
    Help,
    /// Leave.
    Exit,
    /// Anything else: the menu is shown again.
    Invalid,
}

/// How the user hands over the code.
#[derive(Clone, Copy, Debug, PartialEq, Eq, Structural)]
pub enum InputMethod {
    /// Typed at the prompt.
    Typed,
    /// Read from the input file; a missing file cancels the request.
    FromFile,
}

/// The action behind a choice at the main menu: the digits `1` to `6`, each
/// alone, stand for an action; every other input is invalid.
pub open spec fn action_of(choice: Seq<char>) -> MenuAction {
    if spells(choice, '1') {
        MenuAction::CodeTask(Mode::Complete)
    } else if spells(choice, '2') {
        MenuAction::CodeTask(Mode::Explain)
    } else if spells(choice, '3') {
        MenuAction::ShowHistory
    } else if spells(choice, '4') {
        MenuAction::ClearHistory
    } else if spells(choice, '5') {
        MenuAction::Help
    } else if spells(choice, '6') {
        MenuAction::Exit
    } else {
        MenuAction::Invalid
    }
}

/// The input method behind a choice: `1` is typing, `2` is the input file.
pub open spec fn input_method_of(choice: Seq<char>) -> Option<InputMethod> {
    if spells(choice, '1') {
        Some(InputMethod::Typed)
    } else if spells(choice, '2') {
        Some(InputMethod::FromFile)
    } else {
        None
    }
}

/// Reads a choice made at the main menu.
pub fn menu_action(choice: &str) -> (action: MenuAction)
    ensures
        action == action_of(choice@),
{
    match single_char(choice) {
        Some('1') => MenuAction::CodeTask(Mode::Complete),
        Some('2') => MenuAction::CodeTask(Mode::Explain),
        Some('3') => MenuAction::ShowHistory,
        Some('4') => MenuAction::ClearHistory,
        Some('5') => MenuAction::Help,
        Some('6') => MenuAction::Exit,
        _ => MenuAction::Invalid,
    }
}

/// Reads the choice of an input method. `None` stands for an invalid choice.
pub fn input_method(choice: &str) -> (method: Option<InputMethod>)
    ensures
        method == input_method_of(choice@),
{
    match single_char(choice) {
        Some('1') => Some(InputMethod::Typed),
        Some('2') => Some(InputMethod::FromFile),
        _ => None,
    }
}

} // verus!
