use orchestrator_convos::conversation::Conversation;
use orchestrator_convos::galaxy::Galaxy;
use orchestrator_convos::locations::ExplorerLocations;
use orchestrator_convos::messages::{
    Action, ExplorerToOrchestrator, ExplorerToOrchestratorKind, OrchestratorToExplorer,
    PossibleExpectedKinds, PossibleMessage, SendOutcome,
};
use orchestrator_convos::states::{ConvoState, SendingNeighbors, WaitingExplorerNeighborsRequest};
use orchestrator_convos::step::Step;

const CONV_ID: u32 = 1;
const EXPLORER_ID: u32 = 2;
const PLANET_ID: u32 = 10;
const NEIGHBOR_ID: u32 = 11;

fn make_galaxy() -> Galaxy {
    let mut galaxy = Galaxy::new();
    galaxy.add_planet(PLANET_ID, vec![NEIGHBOR_ID]);
    galaxy
}

fn run(conv: Conversation, msg: Option<PossibleMessage<()>>, galaxy: &Galaxy, outcome: SendOutcome) -> Option<Conversation> {
    let mut locations = ExplorerLocations::new();
    match conv.transition(msg, galaxy, &mut locations) {
        Step::Close => None,
        Step::Next(c) => Some(c),
        Step::Dispatch(_, after) => after.resolve(outcome),
        Step::ReleaseChannels(_, next) => next,
    }
}

fn make_wait_conv() -> Conversation {
    Conversation::new(CONV_ID, ConvoState::WaitingExplorerNeighborsRequest(WaitingExplorerNeighborsRequest::new(EXPLORER_ID)))
}

fn make_send_conv(neighbors: Vec<u32>) -> Conversation {
    Conversation::new(CONV_ID, ConvoState::SendingNeighbors(SendingNeighbors { explorer_id: EXPLORER_ID, neighbors }))
}

fn neighbors_request(current_planet_id: u32) -> Option<PossibleMessage<()>> {
    Some(PossibleMessage::ExplorerToOrch(ExplorerToOrchestrator::NeighborsRequest { explorer_id: EXPLORER_ID, current_planet_id }))
}

#[test]
fn neighbors_discovery_wait_correct_transition() {
    let galaxy = make_galaxy();
    let next_conv = run(make_wait_conv(), neighbors_request(PLANET_ID), &galaxy, SendOutcome::Delivered)
        .expect("Should transition to SendingNeighbors state");
    assert_eq!(next_conv.get_expected_kind(), None);
    assert_eq!(next_conv.get_id(), CONV_ID);
    match next_conv.state() {
        ConvoState::SendingNeighbors(s) => assert_eq!(s.neighbors, vec![NEIGHBOR_ID]),
        _ => panic!("the neighbors should be sent next"),
    }
}

#[test]
fn neighbors_discovery_wait_wrong_message() {
    let galaxy = make_galaxy();
    let wrong_msg = Some(PossibleMessage::ExplorerToOrch(ExplorerToOrchestrator::StartExplorerAIResult { explorer_id: EXPLORER_ID }));
    let result = run(make_wait_conv(), wrong_msg, &galaxy, SendOutcome::Delivered).expect("Should return an ErrorState");
    assert_eq!(result.get_id(), CONV_ID);
    assert_eq!(result.get_error_details(), Some("Wrong Message Received".to_string()));
}

#[test]
fn neighbors_discovery_wait_getters() {
    let conv = make_wait_conv();
    assert_eq!(conv.get_id(), CONV_ID);
    assert_eq!(conv.get_entities_ids(), (None, Some(EXPLORER_ID)));
    assert_eq!(
        conv.get_expected_kind(),
        Some(PossibleExpectedKinds::ExplorerToOrchKind(ExplorerToOrchestratorKind::NeighborsRequest))
    );
    assert_eq!(conv.get_priority(), 3);
}

#[test]
fn wait_planet_not_found_error() {
    let galaxy = make_galaxy();
    let invalid_planet_id = 9_999_999;
    let result = run(make_wait_conv(), neighbors_request(invalid_planet_id), &galaxy, SendOutcome::Delivered)
        .expect("Should return an ErrorState");
    let details = result.get_error_details().expect("Should have error details");
    assert!(details.contains(&format!("Planet {invalid_planet_id} not found")), "Error message should mention planet not found");
    assert_eq!(details, "Planet 9999999 not found in current galaxy, can't provide neighbors");
}

#[test]
fn neighbors_discovery_send_success() {
    let galaxy = Galaxy::new();
    let result = run(make_send_conv(vec![10, 20, 30]), None, &galaxy, SendOutcome::Delivered);
    assert!(result.is_none(), "Conversation should terminate after sending NeighborsResponse");
}

#[test]
fn neighbors_discovery_send_missing_sender() {
    let galaxy = Galaxy::new();
    let next_conv = run(make_send_conv(vec![10, 20, 30]), None, &galaxy, SendOutcome::SenderNotFound).expect("Should return an ErrorState");
    assert!(next_conv.get_expected_kind().is_none());
    assert_eq!(next_conv.get_id(), CONV_ID);
    assert_eq!(next_conv.get_error_details(), Some(format!("sender to explorer {EXPLORER_ID} not found")));
}

#[test]
fn neighbors_discovery_send_message_failure() {
    let galaxy = Galaxy::new();
    let next_conv = run(make_send_conv(vec![10, 20, 30]), None, &galaxy, SendOutcome::SendFailed).expect("Should return an ErrorState");
    let error_msg = next_conv.get_error_details().expect("Should return an Error Details String");
    assert_eq!(error_msg, format!("failed to send message to explorer {EXPLORER_ID}"));
}

#[test]
fn neighbors_discovery_send_getters() {
    let conv = make_send_conv(vec![10, 20, 30]);
    assert_eq!(conv.get_id(), CONV_ID);
    assert_eq!(conv.get_entities_ids(), (None, Some(EXPLORER_ID)));
    assert_eq!(conv.get_expected_kind(), None);
    assert_eq!(conv.get_priority(), 3);
}

#[test]
fn neighbors_are_sent_as_listed() {
    let galaxy = Galaxy::new();
    let mut locations = ExplorerLocations::new();
    match make_send_conv(vec![10, 20, 30]).transition::<()>(None, &galaxy, &mut locations) {
        Step::Dispatch(Action::ToExplorer { explorer_id, command: OrchestratorToExplorer::NeighborsResponse { neighbors } }, _) => {
            assert_eq!(explorer_id, EXPLORER_ID);
            assert_eq!(neighbors, vec![10, 20, 30]);
        },
        _ => panic!("the neighbors should be sent"),
    }
}

#[test]
fn galaxy_neighbor_queries() {
    let mut galaxy = make_galaxy();
    galaxy.add_planet(NEIGHBOR_ID, vec![]);
    assert!(galaxy.has_neighbor(PLANET_ID, NEIGHBOR_ID));
    assert!(!galaxy.has_neighbor(NEIGHBOR_ID, PLANET_ID));
    assert!(!galaxy.has_neighbor(PLANET_ID, 99));
    assert!(galaxy.contains_planet(NEIGHBOR_ID));
    assert_eq!(galaxy.neighbors_of(PLANET_ID), Some(vec![NEIGHBOR_ID]));
    assert_eq!(galaxy.neighbors_of(99), None);
}
