//! What the console shows and what the human answers, as far as it can be
//! decided without the console.

use crate::helpers::text::{lowercased, reads_as, to_lowercase, trim, trimmed};
use vstd::prelude::*;
use vstd::string::StringExecFns;

verus! {

/// The kinds of message that an agent puts on the console.
#[derive(Debug, Clone, Copy, PartialEq, Eq, Structural)]
pub enum PrintCommand {
    AICall,
    UnitTest,
    Issue,
}

/// The colours that the console messages use.
#[derive(Debug, Clone, Copy, PartialEq, Eq, Structural)]
pub enum TextColor {
    Cyan,
    Magenta,
    Red,
    Green,
    Blue,
}

impl PrintCommand {
    /// The colour of a statement of this kind; the agent's name before it is
    /// always green.
    pub fn statement_color(&self) -> (color: TextColor)
        ensures
            color == match *self {
                PrintCommand::AICall => TextColor::Cyan,
                PrintCommand::UnitTest => TextColor::Magenta,
                PrintCommand::Issue => TextColor::Red,
            },
    {
        match self {
            PrintCommand::AICall => TextColor::Cyan,
            PrintCommand::UnitTest => TextColor::Magenta,
            PrintCommand::Issue => TextColor::Red,
        }
    }
}

/// What precedes an agent's statement on its line.
pub fn agent_label(agent_pos: &str) -> (label: String)
    ensures
        label@ == "Agent "@ + agent_pos@ + ": "@,
{
    let mut label = String::from_str("Agent ");
    label.append(agent_pos);
    label.append(": ");
    label
}

/// What an answer to the question whether the generated code may run comes
/// to, once trimmed and in lower case: a yes, a no, or neither.
pub open spec fn confirmation(answer: Seq<char>) -> Option<bool> {
    if answer == "1"@ || answer == "ok"@ || answer == "y"@ {
        Some(true)
    } else if answer == "2"@ || answer == "no"@ || answer == "n"@ {
        Some(false)
    } else {
        None
    }
}

/// Decides on an answer that has been trimmed and put in lower case: a yes
/// for `1`, `ok` and `y`, a no for `2`, `no` and `n`, and otherwise nothing.
pub fn decide_confirmation(answer: &str) -> (decision: Option<bool>)
    ensures
        decision == confirmation(answer@),
{
    if reads_as(answer, "1") || reads_as(answer, "ok") || reads_as(answer, "y") {
        Some(true)
    } else if reads_as(answer, "2") || reads_as(answer, "no") || reads_as(answer, "n") {
        Some(false)
    } else {
        None
    }
}

/// Reads the human's answer to the question whether the generated code may
/// run. `None` asks for the question to be put again.
pub fn interpret_confirmation(human_response: &str) -> (decision: Option<bool>)
    ensures
        decision == confirmation(lowercased(trimmed(human_response@))),
{
    let lowered = to_lowercase(trim(human_response));
    decide_confirmation(lowered.as_str())
}

/// The user's answer to a question, without the white space round it.
pub fn clean_response(user_response: &str) -> (answer: String)
    ensures
        answer@ == trimmed(user_response@),
{
    trim(user_response).to_owned()
}

} // verus!
