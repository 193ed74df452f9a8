use orchestrator_convos::conversation::{BagContentConversation, Conversation};
use orchestrator_convos::galaxy::Galaxy;
use orchestrator_convos::locations::ExplorerLocations;
use orchestrator_convos::messages::{
    Action, ExplorerToOrchestrator, ExplorerToOrchestratorKind, OrchestratorToExplorer,
    OrchestratorToUiUpdate, PossibleExpectedKinds, PossibleMessage, SendOutcome,
};
use orchestrator_convos::states::{ConvoState, SendingBagContentRequest, WaitingBagContentResponse};
use orchestrator_convos::step::Step;
use std::collections::HashMap;

const CONV_ID: u32 = 1;
const EXPLORER_ID: u32 = 2;

#[derive(Debug, Clone, PartialEq)]
struct BagContent {
    resources_amounts: HashMap<String, u32>,
}

fn advance(conv: Conversation, msg: Option<PossibleMessage<BagContent>>, outcome: SendOutcome) -> Option<Conversation> {
    let galaxy = Galaxy::new();
    let mut locations = ExplorerLocations::new();
    match conv.transition(msg, &galaxy, &mut locations) {
        Step::Close => None,
        Step::Next(c) => Some(c),
        Step::Dispatch(_, after) => after.resolve(outcome),
        Step::ReleaseChannels(_, next) => next,
    }
}

fn make_send_conv() -> Conversation {
    BagContentConversation::new(CONV_ID, SendingBagContentRequest::new(EXPLORER_ID))
}

fn make_wait_conv() -> Conversation {
    Conversation::new(
        CONV_ID,
        ConvoState::WaitingBagContentResponse(WaitingBagContentResponse { explorer_id: EXPLORER_ID }),
    )
}

#[test]
fn bag_content_scenario_send_success() {
    let next_conv = advance(make_send_conv(), None, SendOutcome::Delivered).expect("Should transition to next state");
    assert_eq!(
        next_conv.get_expected_kind(),
        Some(PossibleExpectedKinds::ExplorerToOrchKind(ExplorerToOrchestratorKind::BagContentResponse))
    );
    assert_eq!(next_conv.get_id(), CONV_ID);
}

#[test]
fn bag_content_scenario_send_missing_sender() {
    let next_conv = advance(make_send_conv(), None, SendOutcome::SenderNotFound).expect("Should return an ErrorState");
    assert!(next_conv.get_expected_kind().is_none());
    assert_eq!(next_conv.get_id(), CONV_ID);
    assert_eq!(next_conv.get_error_details(), Some(format!("sender to explorer {EXPLORER_ID} not found")));
}

#[test]
fn bag_content_scenario_send_message_failure() {
    let next_conv = advance(make_send_conv(), None, SendOutcome::SendFailed).expect("Should return an ErrorState");
    let error_msg = next_conv.get_error_details().expect("Should return an Error Details String");
    assert_eq!(error_msg, format!("failed to send message to explorer {EXPLORER_ID}"));
}

#[test]
fn bag_content_scenario_send_getters() {
    let conv = make_send_conv();
    assert_eq!(conv.get_id(), CONV_ID);
    assert_eq!(conv.get_entities_ids(), (None, Some(EXPLORER_ID)));
    assert_eq!(conv.get_expected_kind(), None);
    assert_eq!(conv.get_priority(), 3);
}

#[test]
fn bag_content_scenario_wait_correct_transition() {
    let msg = PossibleMessage::ExplorerToOrch(ExplorerToOrchestrator::BagContentResponse {
        explorer_id: EXPLORER_ID,
        bag_content: BagContent { resources_amounts: HashMap::default() },
    });
    let result = advance(make_wait_conv(), Some(msg), SendOutcome::Delivered);
    assert!(result.is_none(), "Conversation should terminate upon receiving ResetExplorerAIResult");
}

#[test]
fn bag_content_scenario_wait_wrong_message() {
    let wrong_msg = PossibleMessage::ExplorerToOrch(ExplorerToOrchestrator::StartExplorerAIResult { explorer_id: EXPLORER_ID });
    let result = advance(make_wait_conv(), Some(wrong_msg), SendOutcome::Delivered).expect("Should return an ErrorState");
    assert_eq!(result.get_id(), CONV_ID);
    assert_eq!(result.get_error_details(), Some("Wrong Message Received".to_string()));
}

#[test]
fn bag_content_scenario_wait_getters() {
    let conv = make_wait_conv();
    assert_eq!(conv.get_id(), CONV_ID);
    assert_eq!(conv.get_entities_ids(), (None, Some(EXPLORER_ID)));
    assert_eq!(
        conv.get_expected_kind(),
        Some(PossibleExpectedKinds::ExplorerToOrchKind(ExplorerToOrchestratorKind::BagContentResponse))
    );
    assert_eq!(conv.get_priority(), 3);
}

#[test]
fn bag_request_is_sent_to_the_explorer() {
    let galaxy = Galaxy::new();
    let mut locations = ExplorerLocations::new();
    match make_send_conv().transition::<BagContent>(None, &galaxy, &mut locations) {
        Step::Dispatch(Action::ToExplorer { explorer_id, command: OrchestratorToExplorer::BagContentRequest }, _) => {
            assert_eq!(explorer_id, EXPLORER_ID)
        },
        _ => panic!("the bag request should be sent to the explorer"),
    }
}

#[test]
fn bag_content_is_forwarded_to_the_ui() {
    let galaxy = Galaxy::new();
    let mut locations = ExplorerLocations::new();
    let mut amounts = HashMap::new();
    amounts.insert("Oxygen".to_string(), 3);
    let bag = BagContent { resources_amounts: amounts };
    let msg = PossibleMessage::ExplorerToOrch(ExplorerToOrchestrator::BagContentResponse {
        explorer_id: 7,
        bag_content: bag.clone(),
    });
    match make_wait_conv().transition(Some(msg), &galaxy, &mut locations) {
        Step::Dispatch(Action::ToUi(OrchestratorToUiUpdate::ExplorerSnapshot(id, content)), after) => {
            assert_eq!(id, 7);
            assert_eq!(content, bag);
            let failed = after.resolve(SendOutcome::SendFailed).expect("a failed forward is an error");
            assert_eq!(failed.get_error_details(), Some("failed to send message to ui".to_string()));
        },
        _ => panic!("the bag should be forwarded to the ui"),
    }
}

#[test]
fn bag_request_rejects_a_routed_message() {
    let msg = PossibleMessage::ExplorerToOrch(ExplorerToOrchestrator::BagContentResponse {
        explorer_id: EXPLORER_ID,
        bag_content: BagContent { resources_amounts: HashMap::default() },
    });
    let next_conv = advance(make_send_conv(), Some(msg), SendOutcome::Delivered).expect("Should return an ErrorState");
    assert_eq!(next_conv.get_error_details(), Some("Wrong Message Received".to_string()));
    assert_eq!(next_conv.get_priority(), 5);
}
