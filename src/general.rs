use vstd::prelude::*;
use crate::llm::{Content, Message};

verus! {

/// What the model is told around a function's description and its input.
pub open spec fn function_prompt(description: Seq<char>, input: Seq<char>) -> Seq<char> {
    "FUNCTION "@ + description
        + " INSTRUCTION: You are a function printer. \n    You ONLY print the results of functions. Nothing else. No commentary. \n    Here is the input to the function: "@
        + input + ". Print out what the function will return."@
}

/// The system message that asks the model to act as the function that
/// `description` describes, applied to `func_input`.
pub fn function_message(description: &str, func_input: &str) -> (r: Message)
    ensures
        r.role@ == "system"@,
        r.content@.len() == 1,
        r.content@[0].kind@ == "text"@,
        r.content@[0].text@ == function_prompt(description@, func_input@),
{
    let msg = String::from_str("FUNCTION ")
        .concat(description)
        .concat(" INSTRUCTION: You are a function printer. \n    You ONLY print the results of functions. Nothing else. No commentary. \n    Here is the input to the function: ")
        .concat(func_input)
        .concat(". Print out what the function will return.");
    let part = Content { kind: String::from_str("text"), text: msg };
    let mut content: Vec<Content> = Vec::new();
    content.push(part);
    Message { role: String::from_str("system"), content }
}

/// Wraps the description that `ai_func` gives for `func_input` into a system
/// message asking the model to print only what that function returns.
pub fn extend_ai_funtion<F: Fn(&str) -> &'static str>(ai_func: F, func_input: &str) -> (r: Message)
    requires
        ai_func.requires((func_input,)),
    ensures
        exists|d: &str|
            #[trigger] ai_func.ensures((func_input,), d) && r.content@.len() == 1
                && r.content@[0].text@ == function_prompt(d@, func_input@),
        r.role@ == "system"@,
        r.content@.len() == 1,
        r.content@[0].kind@ == "text"@,
{
    let ai_function_output = ai_func(func_input);
    function_message(ai_function_output, func_input)
}

/// Calls of the model made for one request before it is given up.
pub const ORACLE_ATTEMPTS: u8 = 2;

/// What to do after a call of the model.
#[derive(Debug, Clone, PartialEq)]
pub enum OracleStep {
    /// The call answered: this is the request's result.
    Accept(String),
    /// The call failed and may be made once more.
    Retry,
    /// The call failed again: the request fails.
    GiveUp,
}

/// Decides what follows call number `attempt` (counted from 1) of the model,
/// given its answer or `None` when the transport failed: a failed first call
/// is retried once, a failed retry is final.
pub fn resolve_oracle_attempt(attempt: u8, answer: Option<String>) -> (r: OracleStep)
    ensures
        answer matches Some(t) ==> r == OracleStep::Accept(t),
        answer.is_none() && attempt < ORACLE_ATTEMPTS ==> r == OracleStep::Retry,
        answer.is_none() && attempt >= ORACLE_ATTEMPTS ==> r == OracleStep::GiveUp,
{
    match answer {
        Some(t) => OracleStep::Accept(t),
        None => if attempt < ORACLE_ATTEMPTS {
            OracleStep::Retry
        } else {
            OracleStep::GiveUp
        },
    }
}

/// The request context for a first server: the code template and the
/// project description.
pub fn initial_backend_context(template: &str, description: &str) -> (r: String)
    ensures
        r@ == "CODE_TEMPLATE: "@ + template@ + " \n PROJECT_DESCRIPTION: "@ + description@ + " \n"@,
{
    String::from_str("CODE_TEMPLATE: ").concat(template).concat(" \n PROJECT_DESCRIPTION: ").concat(
        description,
    ).concat(" \n")
}

/// The request context for extracting the endpoints of `code`.
pub fn endpoints_context(code: &str) -> (r: String)
    ensures
        r@ == "CODE_INPUT: "@ + code@,
{
    String::from_str("CODE_INPUT: ").concat(code)
}

} // verus!
