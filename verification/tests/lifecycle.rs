use orchestrator_convos::conversation::Conversation;
use orchestrator_convos::galaxy::Galaxy;
use orchestrator_convos::locations::ExplorerLocations;
use orchestrator_convos::messages::{
    Action, ExplorerToOrchestrator, ExplorerToOrchestratorKind, OrchestratorToExplorer,
    PossibleExpectedKinds, PossibleMessage, SendOutcome,
};
use orchestrator_convos::states::{
    ConvoState, SendingExplorerReset, SendingExplorerStart, SendingExplorerStop,
    WaitingExplorerResetResult, WaitingExplorerStartResult, WaitingExplorerStopResult,
};
use orchestrator_convos::step::Step;

const CONV_ID: u32 = 1;
const EXPLORER_ID: u32 = 2;

fn advance(conv: Conversation, msg: Option<PossibleMessage<()>>, outcome: SendOutcome) -> Option<Conversation> {
    let galaxy = Galaxy::new();
    let mut locations = ExplorerLocations::new();
    match conv.transition(msg, &galaxy, &mut locations) {
        Step::Close => None,
        Step::Next(c) => Some(c),
        Step::Dispatch(_, after) => after.resolve(outcome),
        Step::ReleaseChannels(_, next) => next,
    }
}

fn explorer_msg(m: ExplorerToOrchestrator<()>) -> Option<PossibleMessage<()>> {
    Some(PossibleMessage::ExplorerToOrch(m))
}

fn start_send() -> Conversation {
    Conversation::new(CONV_ID, ConvoState::SendingExplorerStart(SendingExplorerStart::new(EXPLORER_ID)))
}

fn start_wait() -> Conversation {
    Conversation::new(CONV_ID, ConvoState::WaitingExplorerStartResult(WaitingExplorerStartResult { explorer_id: EXPLORER_ID }))
}

fn stop_send() -> Conversation {
    Conversation::new(CONV_ID, ConvoState::SendingExplorerStop(SendingExplorerStop::new(EXPLORER_ID)))
}

fn stop_wait() -> Conversation {
    Conversation::new(CONV_ID, ConvoState::WaitingExplorerStopResult(WaitingExplorerStopResult { explorer_id: EXPLORER_ID }))
}

// --- Start explorer ---

#[test]
fn start_explorer_send_success() {
    let next_conv = advance(start_send(), None, SendOutcome::Delivered).expect("Should transition to next state");
    assert_eq!(
        next_conv.get_expected_kind(),
        Some(PossibleExpectedKinds::ExplorerToOrchKind(ExplorerToOrchestratorKind::StartExplorerAIResult))
    );
    assert_eq!(next_conv.get_id(), CONV_ID);
}

#[test]
fn start_explorer_send_missing_sender() {
    let next_conv = advance(start_send(), None, SendOutcome::SenderNotFound).expect("Should transition to next state");
    assert!(next_conv.get_expected_kind().is_none());
    assert_eq!(next_conv.get_id(), CONV_ID);
    assert_eq!(next_conv.get_error_details(), Some(format!("sender to explorer {EXPLORER_ID} not found")));
}

#[test]
fn start_explorer_send_message_failure() {
    let next_conv = advance(start_send(), None, SendOutcome::SendFailed).expect("Should return an ErrorState");
    let error_msg = next_conv.get_error_details().expect("Should return an Error Details String");
    assert_eq!(error_msg, format!("failed to send message to explorer {EXPLORER_ID}"));
}

#[test]
fn start_explorer_send_getters() {
    let conv = start_send();
    assert_eq!(conv.get_id(), CONV_ID);
    assert_eq!(conv.get_entities_ids(), (None, Some(EXPLORER_ID)));
    assert_eq!(conv.get_expected_kind(), None);
    assert_eq!(conv.get_priority(), 5);
}

#[test]
fn start_explorer_wait_correct_transition() {
    let result = advance(
        start_wait(),
        explorer_msg(ExplorerToOrchestrator::StartExplorerAIResult { explorer_id: EXPLORER_ID }),
        SendOutcome::Delivered,
    );
    assert!(result.is_none(), "Conversation should terminate successfully (None)");
}

#[test]
fn start_explorer_wait_wrong_message() {
    let result = advance(
        start_wait(),
        explorer_msg(ExplorerToOrchestrator::StopExplorerAIResult { explorer_id: EXPLORER_ID }),
        SendOutcome::Delivered,
    )
    .expect("Should return an ErrorState");
    assert_eq!(result.get_id(), CONV_ID);
    assert_eq!(result.get_error_details(), Some("Wrong Message Received".to_string()));
}

#[test]
fn start_explorer_wait_getters() {
    let conv = start_wait();
    assert_eq!(conv.get_id(), CONV_ID);
    assert_eq!(conv.get_entities_ids(), (None, Some(EXPLORER_ID)));
    assert_eq!(
        conv.get_expected_kind(),
        Some(PossibleExpectedKinds::ExplorerToOrchKind(ExplorerToOrchestratorKind::StartExplorerAIResult))
    );
    assert_eq!(conv.get_priority(), 5);
}

#[test]
fn start_order_is_sent_to_the_explorer() {
    let galaxy = Galaxy::new();
    let mut locations = ExplorerLocations::new();
    match start_send().transition::<()>(None, &galaxy, &mut locations) {
        Step::Dispatch(Action::ToExplorer { explorer_id, command: OrchestratorToExplorer::StartExplorerAI }, _) => {
            assert_eq!(explorer_id, EXPLORER_ID)
        },
        _ => panic!("the start order should go to the explorer"),
    }
}

// --- Stop explorer ---

#[test]
fn stop_explorer_send_success() {
    let next_conv = advance(stop_send(), None, SendOutcome::Delivered).expect("Should transition to WaitingExplorerStopResult");
    assert_eq!(
        next_conv.get_expected_kind(),
        Some(PossibleExpectedKinds::ExplorerToOrchKind(ExplorerToOrchestratorKind::StopExplorerAIResult))
    );
    assert_eq!(next_conv.get_id(), CONV_ID);
    assert!(next_conv.get_error_details().is_none());
}

#[test]
fn stop_explorer_send_missing_sender() {
    let next_conv = advance(stop_send(), None, SendOutcome::SenderNotFound).expect("Should return an ErrorState");
    assert!(next_conv.get_expected_kind().is_none());
    assert_eq!(next_conv.get_error_details(), Some(format!("sender to explorer {EXPLORER_ID} not found")));
}

#[test]
fn stop_explorer_send_message_failure() {
    let next_conv = advance(stop_send(), None, SendOutcome::SendFailed).expect("Should return an ErrorState");
    let error_msg = next_conv.get_error_details().expect("Should return an Error Details String");
    assert_eq!(error_msg, format!("failed to send message to explorer {EXPLORER_ID}"));
}

#[test]
fn stop_explorer_send_getters() {
    let conv = stop_send();
    assert_eq!(conv.get_id(), CONV_ID);
    assert_eq!(conv.get_entities_ids(), (None, Some(EXPLORER_ID)));
    assert_eq!(conv.get_expected_kind(), None);
    assert_eq!(conv.get_priority(), 5);
}

#[test]
fn stop_explorer_wait_correct_message() {
    let result = advance(
        stop_wait(),
        explorer_msg(ExplorerToOrchestrator::StopExplorerAIResult { explorer_id: EXPLORER_ID }),
        SendOutcome::Delivered,
    );
    assert!(result.is_none(), "Conversation should terminate upon receiving StopExplorerAIResult");
}

#[test]
fn stop_explorer_wait_wrong_message() {
    let result = advance(
        stop_wait(),
        explorer_msg(ExplorerToOrchestrator::StartExplorerAIResult { explorer_id: EXPLORER_ID }),
        SendOutcome::Delivered,
    )
    .expect("Should transition to ErrorState");
    assert_eq!(result.get_id(), CONV_ID);
    assert_eq!(result.get_error_details(), Some("Wrong Message Received".to_string()));
}

#[test]
fn stop_explorer_wait_getters() {
    let conv = stop_wait();
    assert_eq!(conv.get_id(), CONV_ID);
    assert_eq!(conv.get_entities_ids(), (None, Some(EXPLORER_ID)));
    assert_eq!(
        conv.get_expected_kind(),
        Some(PossibleExpectedKinds::ExplorerToOrchKind(ExplorerToOrchestratorKind::StopExplorerAIResult))
    );
    assert_eq!(conv.get_priority(), 5);
}

// --- Reset explorer ---

#[test]
fn reset_explorer_round_trip() {
    let send = Conversation::new(CONV_ID, ConvoState::SendingExplorerReset(SendingExplorerReset::new(EXPLORER_ID)));
    assert_eq!(send.get_priority(), 5);
    let wait = advance(send, None, SendOutcome::Delivered).expect("Should wait for the reset result");
    assert_eq!(
        wait.get_expected_kind(),
        Some(PossibleExpectedKinds::ExplorerToOrchKind(ExplorerToOrchestratorKind::ResetExplorerAIResult))
    );
    let done = advance(
        wait,
        explorer_msg(ExplorerToOrchestrator::ResetExplorerAIResult { explorer_id: EXPLORER_ID }),
        SendOutcome::Delivered,
    );
    assert!(done.is_none());
}

#[test]
fn reset_explorer_wait_wrong_message() {
    let wait = Conversation::new(CONV_ID, ConvoState::WaitingExplorerResetResult(WaitingExplorerResetResult { explorer_id: EXPLORER_ID }));
    let result = advance(wait, None, SendOutcome::Delivered).expect("no message is a wrong message");
    assert_eq!(result.get_error_details(), Some("Wrong Message Received".to_string()));
}
