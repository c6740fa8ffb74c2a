use backend_agent::command_line::{confirmation_answer, PrintCommand, TextColor};
use backend_agent::general::{
    endpoints_context, extend_ai_funtion, function_message, initial_backend_context,
    resolve_oracle_attempt, OracleStep,
};
use backend_agent::llm::{ApiChoice, ApiMessage, ApiResponse, Message};
use backend_agent::loader::HammerLoader;

fn convert_user_input_to_goal(_user_request: &str) -> &'static str {
    "Converts a user request into a short goal statement."
}

#[test]
fn tests_extending_ai_function() {
    let extended_msg: Message = extend_ai_funtion(convert_user_input_to_goal, "dummy variable");
    assert_eq!(extended_msg.role, "system".to_string());
}

#[test]
fn extended_message_holds_description_and_input() {
    let msg = extend_ai_funtion(convert_user_input_to_goal, "dummy variable");
    assert_eq!(msg.content.len(), 1);
    assert_eq!(msg.content[0].kind, "text");
    assert_eq!(
        msg.content[0].text,
        "FUNCTION Converts a user request into a short goal statement. INSTRUCTION: You are a function printer. \n    You ONLY print the results of functions. Nothing else. No commentary. \n    Here is the input to the function: dummy variable. Print out what the function will return."
    );
}

#[test]
fn function_message_is_exact() {
    let msg = function_message("f(x)", "7");
    assert_eq!(msg.role, "system");
    assert!(msg.content[0].text.starts_with("FUNCTION f(x) INSTRUCTION:"));
    assert!(msg.content[0].text.contains("input to the function: 7. Print out"));
}

#[test]
fn contexts_are_built_from_their_parts() {
    assert_eq!(
        initial_backend_context("fn main() {}", "a clock"),
        "CODE_TEMPLATE: fn main() {} \n PROJECT_DESCRIPTION: a clock \n"
    );
    assert_eq!(endpoints_context("code"), "CODE_INPUT: code");
}

#[test]
fn failed_oracle_call_is_retried_once() {
    assert_eq!(resolve_oracle_attempt(1, Some("ok".to_string())), OracleStep::Accept("ok".to_string()));
    assert_eq!(resolve_oracle_attempt(1, None), OracleStep::Retry);
    assert_eq!(resolve_oracle_attempt(2, None), OracleStep::GiveUp);
    assert_eq!(resolve_oracle_attempt(2, Some("late".to_string())), OracleStep::Accept("late".to_string()));
}

#[test]
fn first_choice_is_taken() {
    let reply = ApiResponse {
        choices: vec![
            ApiChoice { message: ApiMessage { content: "first".to_string() } },
            ApiChoice { message: ApiMessage { content: "second".to_string() } },
        ],
    };
    assert_eq!(reply.into_first_content(), Some("first".to_string()));
    assert_eq!(ApiResponse { choices: vec![] }.into_first_content(), None);
}

#[test]
fn print_colors_by_kind() {
    assert_eq!(PrintCommand::AICall.statement_color(), TextColor::Cyan);
    assert_eq!(PrintCommand::UnitTest.statement_color(), TextColor::Magenta);
    assert_eq!(PrintCommand::Issue.statement_color(), TextColor::Red);
    assert_eq!(PrintCommand::Issue.position_color(), TextColor::Green);
}

#[test]
fn indicator_keeps_outcome_and_stops() {
    let mut loader = HammerLoader::new();
    assert!(!loader.keep_animating());
    loader.start();
    assert!(loader.keep_animating());
    let ok: Result<u32, String> = loader.finish(Ok(7));
    assert_eq!(ok, Ok(7));
    assert!(!loader.keep_animating());
    loader.start();
    let failed: Result<u32, String> = loader.finish(Err("boom".to_string()));
    assert_eq!(failed, Err("boom".to_string()));
    assert!(!loader.keep_animating());
}

#[test]
fn indicator_frames_cycle() {
    assert_eq!(
        HammerLoader::frame_line(0, "Building"),
        "\r\u{1F528} \u{2728} Smashing through the code... Building \u{2728}"
    );
    assert_eq!(
        HammerLoader::frame_line(5, "x"),
        "\r\u{2692}\u{FE0F} \u{1F4A5} Smashing through the code... x \u{1F4A5}"
    );
    let blank = HammerLoader::clear_line();
    assert_eq!(blank.len(), 82);
    assert!(blank.starts_with('\r') && blank.ends_with('\r'));
    assert!(blank[1..81].chars().all(|c| c == ' '));
}

#[test]
fn operator_answers_are_read() {
    for yes in ["1", "ok", "y"] {
        assert_eq!(confirmation_answer(yes), Some(true));
    }
    for no in ["2", "no", "n"] {
        assert_eq!(confirmation_answer(no), Some(false));
    }
    for other in ["", "yes", "3", "Y", " 1"] {
        assert_eq!(confirmation_answer(other), None);
    }
}
