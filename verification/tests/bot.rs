use wizard_bot::api::{extract_text, History, Request, Response, Results};
use wizard_bot::delivery::{
    chunk_message, collect_errors, compose_error_message, plan_delivery, MAX_MESSAGE_LEN,
};
use wizard_bot::errors::{DeliveryOutcome, FailureReason, GenerationError};
use wizard_bot::lifecycle::{
    advance, decide_command, outcome_of_generation, CommandArgument, CommandEvent, Decision,
    LifecycleState, LifecycleStep,
};
use wizard_bot::numerals::{push_digits, push_milli, push_signed};
use wizard_bot::wire::encode_request;

fn event(name: &str, argument: Option<CommandArgument>) -> CommandEvent {
    CommandEvent { name: name.to_string(), argument }
}

fn reply_with_visible(visible: Vec<Vec<String>>) -> Response {
    Response {
        results: vec![Results { history: History { internal: vec![], visible } }],
    }
}

#[test]
fn digits_render_exactly() {
    let mut s = String::new();
    push_digits(&mut s, 0);
    assert_eq!(s, "0");
    let mut s = String::new();
    push_digits(&mut s, 9071006);
    assert_eq!(s, "9071006");
    let mut s = String::new();
    push_signed(&mut s, -2048);
    assert_eq!(s, "-2048");
    let mut s = String::new();
    push_signed(&mut s, i32::MIN);
    assert_eq!(s, "-2147483648");
    let mut s = String::new();
    push_milli(&mut s, 1180);
    assert_eq!(s, "1.180");
    let mut s = String::new();
    push_milli(&mut s, 700);
    assert_eq!(s, "0.700");
    let mut s = String::new();
    push_milli(&mut s, 7);
    assert_eq!(s, "0.007");
}

#[test]
fn default_request_matches_static_defaults() {
    let r = Request::default();
    assert_eq!(r.user_input, "Hello");
    assert_eq!(r.mode, "instruct");
    assert_eq!(r.character, "None");
    assert_eq!(r.instruction_template, "Alpaca");
    assert_eq!(r.temperature, 700);
    assert_eq!(r.top_p, 100);
    assert_eq!(r.repetition_penalty, 1180);
    assert_eq!(r.max_new_tokens, 2000);
    assert_eq!(r.seed, -1);
    assert_eq!(r.truncation_length, 2048);
    assert!(r.history.internal.is_empty());
    assert!(r.history.visible.is_empty());
    assert!(r.stopping_strings.is_empty());
}

#[test]
fn encode_request_produces_expected_wire_body() {
    let r = Request::new("Hi".to_string());
    let body = encode_request(&r);
    let expected = "{\"user_input\":\"Hi\",\"history\":{\"internal\":[],\"visible\":[]},\"mode\":\"instruct\",\"character\":\"None\",\"instruction_template\":\"Alpaca\",\"regenerate\":false,\"_continue\":false,\"stop_at_newline\":false,\"chat_prompt_size\":2048,\"chat_generation_attempts\":1,\"instruct_command\":\"Below is an instruction that describes a task. Write a response that appropriately completes the request.\",\"max_new_tokens\":2000,\"do_sample\":true,\"temperature\":0.700,\"top_p\":0.100,\"typical_p\":1,\"epsilon_cutoff\":0,\"eta_cutoff\":0,\"repetition_penalty\":1.180,\"top_k\":40,\"min_length\":0,\"no_repeat_ngram_size\":0,\"num_beams\":1,\"penalty_alpha\":0,\"length_penalty\":1,\"early_stopping\":false,\"mirostat_mode\":0,\"mirostat_tau\":5,\"mirostat_eta\":0.100,\"seed\":-1,\"add_bos_token\":true,\"truncation_length\":2048,\"ban_eos_token\":false,\"skip_special_tokens\":true,\"stopping_strings\":[]}";
    assert_eq!(body, expected);
}

#[test]
fn encoded_request_round_trips_through_a_json_parser() {
    let mut r = Request::new("He said \"hi\\there\"\n\tok".to_string());
    r.history.visible = vec![vec!["a\"b".to_string(), "c".to_string()]];
    r.history.internal = vec![vec![]];
    r.stopping_strings = vec!["\n".to_string()];
    let body = encode_request(&r);
    let v: serde_json::Value = serde_json::from_str(&body).expect("the body must be valid JSON");
    assert_eq!(v["user_input"], "He said \"hi\\there\"\n\tok");
    assert_eq!(v["mode"], "instruct");
    assert_eq!(v["character"], "None");
    assert_eq!(v["regenerate"], false);
    assert_eq!(v["do_sample"], true);
    assert_eq!(v["chat_prompt_size"], 2048);
    assert_eq!(v["seed"], -1);
    assert_eq!(v["temperature"], 0.7);
    assert_eq!(v["top_p"], 0.1);
    assert_eq!(v["repetition_penalty"], 1.18);
    assert_eq!(v["mirostat_eta"], 0.1);
    assert_eq!(v["history"]["visible"][0][0], "a\"b");
    assert_eq!(v["history"]["visible"][0][1], "c");
    assert_eq!(v["history"]["internal"][0].as_array().unwrap().len(), 0);
    assert_eq!(v["stopping_strings"][0], "\n");
    assert_eq!(v["stopping_strings"].as_array().unwrap().len(), 1);
}

#[test]
fn control_characters_are_escaped_for_the_wire() {
    let r = Request::new("bell\u{7} and \u{1f} end".to_string());
    let body = encode_request(&r);
    assert!(body.contains("bell\\u0007 and \\u001f end"));
    let v: serde_json::Value = serde_json::from_str(&body).expect("the body must be valid JSON");
    assert_eq!(v["user_input"], "bell\u{7} and \u{1f} end");
}

#[test]
fn missing_result_set_is_a_protocol_error() {
    let reply = Response { results: vec![] };
    match extract_text(&reply) {
        Err(GenerationError::ProtocolError(d)) => {
            assert_eq!(d, "reply carries no result set");
        }
        _ => panic!("an empty result set must be a protocol error"),
    }
}

#[test]
fn empty_visible_transcript_is_a_protocol_error() {
    let reply = reply_with_visible(vec![]);
    match extract_text(&reply) {
        Err(GenerationError::ProtocolError(d)) => {
            assert_eq!(d, "reply carries an empty visible transcript");
        }
        _ => panic!("an empty visible transcript must be a protocol error"),
    }
}

#[test]
fn empty_message_pair_is_a_protocol_error() {
    let reply = reply_with_visible(vec![vec!["kept".to_string()], vec![]]);
    match extract_text(&reply) {
        Err(GenerationError::ProtocolError(d)) => {
            assert_eq!(d, "reply carries an empty message pair");
        }
        _ => panic!("an empty message pair must be a protocol error"),
    }
}

#[test]
fn surfaced_text_is_last_element_of_last_pair() {
    let reply = reply_with_visible(vec![
        vec!["old".to_string(), "older".to_string()],
        vec!["Hello".to_string(), "Hi there!".to_string()],
    ]);
    assert_eq!(extract_text(&reply).unwrap(), "Hi there!");
}

#[test]
fn chunks_partition_a_small_message() {
    let chunks = chunk_message("abcde", 2);
    assert_eq!(chunks, vec!["ab", "cd", "e"]);
    assert_eq!(chunks.concat(), "abcde");
}

#[test]
fn empty_message_yields_no_chunks() {
    let chunks = chunk_message("", 7);
    assert_eq!(chunks.len(), 0);
}

#[test]
fn chunk_boundaries_count_characters_not_bytes() {
    let content = "ééééé";
    let chunks = chunk_message(content, 2);
    assert_eq!(chunks, vec!["éé", "éé", "é"]);
}

#[test]
fn scenario_recognized_command_relays_the_answer() {
    let d = decide_command(&event(
        "chat",
        Some(CommandArgument::Text("Hello".to_string())),
    ));
    let request = match d {
        Decision::Generate(r) => r,
        _ => panic!("a recognized command with a string argument must generate"),
    };
    assert_eq!(request.user_input, "Hello");
    assert_eq!(request.mode, "instruct");

    let reply = reply_with_visible(vec![vec!["Hello".to_string(), "Hi there!".to_string()]]);
    let text = extract_text(&reply).unwrap();
    let outcome = outcome_of_generation(Ok(text));
    let plan = plan_delivery(outcome, 42, "Hello", &None);
    assert!(plan.initial.ends_with("Hi there!"));
    assert!(plan.initial.starts_with("<@42>: **Hello**\n\n"));
    assert_eq!(plan.followups.len(), 0);
}

#[test]
fn scenario_long_answer_is_sent_as_three_bounded_chunks() {
    // The attribution marker for requester 1 and input "x" is 13
    // characters, so this text makes the full content 4500 characters.
    let text = "y".repeat(4487);
    let plan = plan_delivery(
        DeliveryOutcome::Success(text),
        1,
        "x",
        &Some("7".to_string()),
    );
    assert_eq!(plan.initial.chars().count(), 2000);
    assert_eq!(plan.followups.len(), 2);
    assert_eq!(plan.followups[0].chars().count(), 2000);
    assert_eq!(plan.followups[1].chars().count(), 500);
    let whole = format!("{}{}{}", plan.initial, plan.followups[0], plan.followups[1]);
    assert_eq!(whole, format!("<@1>: **x**\n\n{}", "y".repeat(4487)));
}

#[test]
fn scenario_network_failure_reports_with_placeholder_maintainer() {
    let result: Result<String, GenerationError> = Err(GenerationError::NetworkError(
        "HTTP status 500 Internal Server Error".to_string(),
    ));
    let outcome = outcome_of_generation(result);
    assert!(matches!(
        outcome,
        DeliveryOutcome::Failure(FailureReason::Generation(GenerationError::NetworkError(_)))
    ));
    let plan = plan_delivery(outcome, 42, "Hello", &None);
    assert_eq!(
        plan.initial,
        "<@?> maus error: `HTTP status 500 Internal Server Error`"
    );
    assert_eq!(plan.followups.len(), 0);
}

#[test]
fn configured_maintainer_is_mentioned_in_failures() {
    let msg = compose_error_message(&Some("90210".to_string()), "boom");
    assert_eq!(msg, "<@90210> maus error: `boom`");
}

#[test]
fn scenario_unknown_command_fails_without_a_request() {
    let d = decide_command(&event(
        "unknown",
        Some(CommandArgument::Text("Hello".to_string())),
    ));
    assert!(matches!(d, Decision::Reject(FailureReason::NotImplemented)));
    let plan = plan_delivery(
        DeliveryOutcome::Failure(FailureReason::NotImplemented),
        42,
        "Hello",
        &None,
    );
    assert_eq!(plan.initial, "<@?> maus error: `not implemented :(`");
}

#[test]
fn scenario_empty_results_array_fails_without_panicking() {
    let reply = Response { results: vec![] };
    let outcome = outcome_of_generation(extract_text(&reply));
    let plan = plan_delivery(outcome, 42, "Hello", &None);
    assert_eq!(
        plan.initial,
        "<@?> maus error: `reply carries no result set`"
    );
    assert_eq!(plan.followups.len(), 0);
}

#[test]
fn malformed_arguments_abort_without_any_outcome() {
    assert!(matches!(
        decide_command(&event("chat", None)),
        Decision::Abort(_)
    ));
    assert!(matches!(
        decide_command(&event("chat", Some(CommandArgument::Unsupported))),
        Decision::Abort(_)
    ));
    assert!(matches!(
        decide_command(&event("chat", Some(CommandArgument::Text(String::new())))),
        Decision::Abort(_)
    ));
}

#[test]
fn failure_reporting_never_escalates_a_failed_edit() {
    // Whether or not the fallback edit succeeds, the report is the
    // collected list of sub-errors and nothing is raised further.
    let no_failures = collect_errors(&vec![None]);
    assert_eq!(no_failures.len(), 0);
    let edit_failed = collect_errors(&vec![Some("edit rejected".to_string())]);
    assert_eq!(edit_failed, vec!["edit rejected".to_string()]);
}

#[test]
fn send_errors_are_collected_in_order_without_short_circuiting() {
    let report = collect_errors(&vec![
        Some("first send failed".to_string()),
        None,
        Some("third send failed".to_string()),
    ]);
    assert_eq!(
        report,
        vec!["first send failed".to_string(), "third send failed".to_string()]
    );
}

#[test]
fn lifecycle_reaches_a_terminal_state() {
    let s = advance(LifecycleState::Received, &LifecycleStep::AckScheduled);
    assert!(matches!(s, LifecycleState::Acknowledged));
    let s = advance(s, &LifecycleStep::RequestIssued);
    assert!(matches!(s, LifecycleState::Generating));
    let delivered = advance(s, &LifecycleStep::OutcomeDelivered { success: true });
    assert!(matches!(delivered, LifecycleState::Delivered));
    let s = advance(LifecycleState::Generating, &LifecycleStep::OutcomeDelivered {
        success: false,
    });
    assert!(matches!(s, LifecycleState::Failed));
}

#[test]
fn terminal_states_absorb_further_steps() {
    let s = advance(LifecycleState::Delivered, &LifecycleStep::AckScheduled);
    assert!(matches!(s, LifecycleState::Delivered));
    let s = advance(LifecycleState::Failed, &LifecycleStep::RequestIssued);
    assert!(matches!(s, LifecycleState::Failed));
}

#[test]
fn max_message_len_matches_the_platform_bound() {
    assert_eq!(MAX_MESSAGE_LEN, 2000);
}
