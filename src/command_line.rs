use vstd::prelude::*;

verus! {

/// The kinds of agent messages printed to the terminal.
#[derive(Debug, Clone, Copy, PartialEq, Eq, Structural)]
pub enum PrintCommand {
    AICall,
    UnitTest,
    Issue,
}

/// The colours agent messages are printed in.
#[derive(Debug, Clone, Copy, PartialEq, Eq, Structural)]
pub enum TextColor {
    Green,
    Cyan,
    Magenta,
    Red,
}

impl PrintCommand {
    /// The colour of the statement part of a message of this kind.
    pub fn statement_color(&self) -> (r: TextColor)
        ensures
            *self == PrintCommand::AICall ==> r == TextColor::Cyan,
            *self == PrintCommand::UnitTest ==> r == TextColor::Magenta,
            *self == PrintCommand::Issue ==> r == TextColor::Red,
    {
        match self {
            PrintCommand::AICall => TextColor::Cyan,
            PrintCommand::UnitTest => TextColor::Magenta,
            PrintCommand::Issue => TextColor::Red,
        }
    }

    /// The colour of the agent's position, for every kind.
    pub fn position_color(&self) -> (r: TextColor)
        ensures
            r == TextColor::Green,
    {
        TextColor::Green
    }
}

/// Whether an operator's answer allows the generated code to run.
pub open spec fn confirmation_of(answer: Seq<char>) -> Option<bool> {
    if answer == "1"@ || answer == "ok"@ || answer == "y"@ {
        Some(true)
    } else if answer == "2"@ || answer == "no"@ || answer == "n"@ {
        Some(false)
    } else {
        None
    }
}

/// Reads the operator's trimmed answer to the safety question: `Some(true)`
/// runs the code, `Some(false)` stops the run, `None` means the question is
/// asked again.
pub fn confirmation_answer(answer: &str) -> (r: Option<bool>)
    ensures
        r == confirmation_of(answer@),
{
    let a = String::from_str(answer);
    if a == String::from_str("1") || a == String::from_str("ok") || a == String::from_str("y") {
        Some(true)
    } else if a == String::from_str("2") || a == String::from_str("no") || a == String::from_str(
        "n",
    ) {
        Some(false)
    } else {
        None
    }
}

} // verus!
