//! Interaction lifecycle: the per-event state machine from a received
//! command to a terminal delivered or failed state, and the decisions
//! taken at each step — validating the inbound argument, choosing
//! between generation and rejection, and classifying the generation
//! result.
use vstd::prelude::*;
use crate::api::Request;
use crate::errors::{DeliveryOutcome, FailureReason, GenerationError};

verus! {

/// Startup configuration, read once and passed in: never consulted
/// ad hoc at call time.
pub struct Config {
    /// Base URL of the generation service; must be non-empty.
    pub api_url: String,
    /// Identity to mention when reporting a failure, when configured.
    pub maintainer_uid: Option<String>,
}

impl Config {
    /// A usable configuration names the generation endpoint.
    pub open spec fn valid(self) -> bool {
        self.api_url@.len() > 0
    }
}

/// The typed value of the one inbound command argument.
#[derive(Debug)]
pub enum CommandArgument {
    /// The expected case: a string value.
    Text(String),
    /// Any other argument kind the platform may hand over.
    Unsupported,
}

/// One inbound command-invocation event, reduced to what the
/// controller decides on: the command's name and its first argument.
#[derive(Debug)]
pub struct CommandEvent {
    pub name: String,
    pub argument: Option<CommandArgument>,
}

/// What the controller does with a received event.
#[derive(Debug)]
pub enum Decision {
    /// Recognized command with a usable argument: issue this request.
    Generate(Request),
    /// Unrecognized command: fail through the normal delivery path.
    Reject(FailureReason),
    /// Missing or wrong-typed argument: a schema mismatch, reported
    /// and aborted without any outbound call.
    Abort(String),
}

/// Whether the event carries a usable (present, string-typed,
/// non-empty) argument.
pub open spec fn spec_usable_argument(event: CommandEvent) -> bool {
    event.argument matches Some(a) && a matches CommandArgument::Text(t) && t@.len() > 0
}

/// Decides a received event: a missing or wrong-typed argument aborts
/// (a schema mismatch, not user error); the one recognized command
/// starts a generation built from the argument and the static
/// defaults; any other name is rejected as not implemented, with no
/// request built.
pub fn decide_command(event: &CommandEvent) -> (d: Decision)
    ensures
        match d {
            Decision::Generate(r) => {
                &&& spec_usable_argument(*event)
                &&& event.name@ == "chat"@
                &&& r.is_default_with_input(
                    event.argument->Some_0->Text_0@,
                )
                &&& r.valid()
            },
            Decision::Reject(reason) => {
                &&& spec_usable_argument(*event)
                &&& event.name@ != "chat"@
                &&& reason == FailureReason::NotImplemented
            },
            Decision::Abort(_) => !spec_usable_argument(*event),
        },
{
    match &event.argument {
        None => Decision::Abort(String::from_str("the required argument is missing")),
        Some(CommandArgument::Unsupported) => Decision::Abort(
            String::from_str("the argument is not a string"),
        ),
        Some(CommandArgument::Text(t)) => {
            if t.as_str().is_empty() {
                Decision::Abort(String::from_str("the argument is empty"))
            } else {
                let chat = String::from_str("chat");
                if event.name.eq(&chat) {
                    Decision::Generate(Request::new(t.clone()))
                } else {
                    Decision::Reject(FailureReason::NotImplemented)
                }
            }
        },
    }
}

/// Classifies the generation client's result as the one outcome that
/// response delivery consumes.
pub fn outcome_of_generation(result: Result<String, GenerationError>) -> (o: DeliveryOutcome)
    ensures
        match result {
            Ok(t) => o == DeliveryOutcome::Success(t),
            Err(e) => o == DeliveryOutcome::Failure(FailureReason::Generation(e)),
        },
{
    match result {
        Ok(t) => DeliveryOutcome::Success(t),
        Err(e) => DeliveryOutcome::Failure(FailureReason::Generation(e)),
    }
}

/// The states one inbound event passes through.
#[derive(Debug)]
pub enum LifecycleState {
    /// The event arrived and nothing was sent yet.
    Received,
    /// The deferred acknowledgment was scheduled as a detached task.
    Acknowledged,
    /// The generation call is in flight; the only suspension point.
    Generating,
    /// Terminal: the answer (or as much of it as could be sent) went
    /// out.
    Delivered,
    /// Terminal: a failure was reported to the user.
    Failed,
}

/// The steps that drive the state machine.
#[derive(Debug)]
pub enum LifecycleStep {
    /// The deferred acknowledgment was handed to a detached task; its
    /// own success is never awaited.
    AckScheduled,
    /// The generation request went out.
    RequestIssued,
    /// Delivery of the outcome finished; `success` says whether the
    /// outcome was generated text rather than a reported failure.
    OutcomeDelivered { success: bool },
}

impl LifecycleState {
    /// Both terminal states end processing of the event.
    pub open spec fn is_terminal(self) -> bool {
        self is Delivered || self is Failed
    }
}

/// The transition relation of one event's lifecycle: ack, then
/// generation, then a terminal outcome; any out-of-order step leaves
/// the state unchanged.
pub open spec fn spec_advance(state: LifecycleState, step: LifecycleStep) -> LifecycleState {
    match (state, step) {
        (LifecycleState::Received, LifecycleStep::AckScheduled) => LifecycleState::Acknowledged,
        (LifecycleState::Acknowledged, LifecycleStep::RequestIssued) => LifecycleState::Generating,
        (LifecycleState::Generating, LifecycleStep::OutcomeDelivered { success }) => {
            if success {
                LifecycleState::Delivered
            } else {
                LifecycleState::Failed
            }
        },
        _ => state,
    }
}

/// Advances one event's lifecycle by one step.
pub fn advance(state: LifecycleState, step: &LifecycleStep) -> (next: LifecycleState)
    ensures
        next == spec_advance(state, *step),
{
    match (state, step) {
        (LifecycleState::Received, LifecycleStep::AckScheduled) => LifecycleState::Acknowledged,
        (LifecycleState::Acknowledged, LifecycleStep::RequestIssued) => LifecycleState::Generating,
        (LifecycleState::Generating, LifecycleStep::OutcomeDelivered { success }) => {
            if *success {
                LifecycleState::Delivered
            } else {
                LifecycleState::Failed
            }
        },
        (s, _) => s,
    }
}

/// Law: the terminal states absorb every further step — once an event
/// is delivered or failed, nothing reopens it.
pub proof fn lemma_terminal_states_final(state: LifecycleState, step: LifecycleStep)
    requires
        state.is_terminal(),
    ensures
        spec_advance(state, step) == state,
{
}

/// Law: every state the machine can reach from `Received` in three
/// steps of the intended order is terminal, and which terminal state
/// is reached is decided by the delivery step alone.
pub proof fn lemma_lifecycle_run(success: bool)
    ensures
        spec_advance(
            spec_advance(
                spec_advance(LifecycleState::Received, LifecycleStep::AckScheduled),
                LifecycleStep::RequestIssued,
            ),
            LifecycleStep::OutcomeDelivered { success },
        ) == (if success {
            LifecycleState::Delivered
        } else {
            LifecycleState::Failed
        }),
{
}

} // verus!
