use orchestrator_convos::conversation::Conversation;
use orchestrator_convos::galaxy::Galaxy;
use orchestrator_convos::locations::ExplorerLocations;
use orchestrator_convos::messages::{
    Action, ExplorerToOrchestrator, ExplorerToOrchestratorKind, OrchestratorToExplorer,
    OrchestratorToPlanet, PlanetToOrchestrator, PlanetToOrchestratorKind, PossibleExpectedKinds, PossibleMessage, SendOutcome,
};
use orchestrator_convos::states::{
    ConvoState, KillExplorersManager, SendingKillExplorer, WaitingDeadExpAdvResult,
    WaitingKillExplorerResult,
};
use orchestrator_convos::step::Step;

const CONV_ID: u32 = 1;
const EXPLORER_ID: u32 = 2;
const PLANET_ID: u32 = 5;

fn run(
    conv: Conversation,
    msg: Option<PossibleMessage<()>>,
    locations: &mut ExplorerLocations,
    outcome: SendOutcome,
) -> Option<Conversation> {
    let galaxy = Galaxy::new();
    match conv.transition(msg, &galaxy, locations) {
        Step::Close => None,
        Step::Next(c) => Some(c),
        Step::Dispatch(_, after) => after.resolve(outcome),
        Step::ReleaseChannels(_, next) => next,
    }
}

fn make_send_conv(handle_outgoing: bool) -> Conversation {
    let state = SendingKillExplorer::new(EXPLORER_ID, PLANET_ID, handle_outgoing);
    Conversation::new(CONV_ID, ConvoState::SendingKillExplorer(state, None))
}

fn make_wait_conv(handle_outgoing: bool) -> Conversation {
    let state = WaitingKillExplorerResult { explorer_id: EXPLORER_ID, curr_planet_id: PLANET_ID, handle_outgoing };
    Conversation::new(CONV_ID, ConvoState::WaitingKillExplorerResult(state, None))
}

fn kill_result() -> PossibleMessage<()> {
    PossibleMessage::ExplorerToOrch(ExplorerToOrchestrator::KillExplorerResult { explorer_id: EXPLORER_ID })
}

#[test]
fn kill_explorer_send_success() {
    let mut locations = ExplorerLocations::new();
    let next_conv = run(make_send_conv(false), None, &mut locations, SendOutcome::Delivered)
        .expect("Should transition to next state");
    assert_eq!(
        next_conv.get_expected_kind(),
        Some(PossibleExpectedKinds::ExplorerToOrchKind(ExplorerToOrchestratorKind::KillExplorerResult))
    );
    assert_eq!(next_conv.get_id(), CONV_ID);
}

#[test]
fn kill_explorer_send_missing_sender() {
    let mut locations = ExplorerLocations::new();
    let next_conv = run(make_send_conv(false), None, &mut locations, SendOutcome::SenderNotFound)
        .expect("Should return an ErrorState");
    assert!(next_conv.get_expected_kind().is_none());
    assert_eq!(next_conv.get_id(), CONV_ID);
    assert_eq!(next_conv.get_error_details(), Some(format!("sender to explorer {EXPLORER_ID} not found")));
}

#[test]
fn kill_explorer_send_message_failure() {
    let mut locations = ExplorerLocations::new();
    let next_conv = run(make_send_conv(false), None, &mut locations, SendOutcome::SendFailed)
        .expect("Should return an ErrorState");
    let error_msg = next_conv.get_error_details().expect("Should return an Error Details String");
    assert_eq!(error_msg, format!("failed to send message to explorer {EXPLORER_ID}"));
}

#[test]
fn kill_explorer_send_getters() {
    let conv = make_send_conv(false);
    assert_eq!(conv.get_id(), CONV_ID);
    assert_eq!(conv.get_entities_ids(), (None, Some(EXPLORER_ID)));
    assert_eq!(conv.get_expected_kind(), None);
    assert_eq!(conv.get_priority(), 5);
}

#[test]
fn kill_explorer_wait_correct_transition_no_outgoing_handling() {
    let mut locations = ExplorerLocations::new();
    locations.place(EXPLORER_ID, 5);
    let next_conv = run(make_wait_conv(false), Some(kill_result()), &mut locations, SendOutcome::Delivered);
    assert!(next_conv.is_none(), "Conversation should end and return None");
    assert!(locations.is_empty(), "Should have killed the only explorer saved in the map");
}

#[test]
fn kill_explorer_wait_correct_transition_outgoing_handling() {
    let mut locations = ExplorerLocations::new();
    locations.place(EXPLORER_ID, 5);
    let next_conv = run(make_wait_conv(true), Some(kill_result()), &mut locations, SendOutcome::Delivered)
        .expect("Should transition to next state");
    assert_eq!(next_conv.get_id(), CONV_ID);
    assert!(next_conv.get_expected_kind().is_none());
    assert_eq!(next_conv.get_priority(), 4);
    assert!(next_conv.get_error_details().is_none());
    assert!(locations.is_empty(), "Should have killed the only explorer saved in the map");
}

#[test]
fn kill_explorer_wait_wrong_message() {
    let mut locations = ExplorerLocations::new();
    let wrong_msg = PossibleMessage::ExplorerToOrch(ExplorerToOrchestrator::StartExplorerAIResult { explorer_id: EXPLORER_ID });
    let next_conv = run(make_wait_conv(true), Some(wrong_msg), &mut locations, SendOutcome::Delivered)
        .expect("Should transition to next state");
    assert_eq!(next_conv.get_id(), CONV_ID);
    assert!(next_conv.get_expected_kind().is_none());
    assert_eq!(next_conv.get_priority(), 5);
    assert_eq!(next_conv.get_error_details(), Some("Wrong Message Received".to_string()));
}

#[test]
fn kill_explorer_wait_getters() {
    let conv = make_wait_conv(false);
    assert_eq!(conv.get_id(), CONV_ID);
    assert_eq!(conv.get_entities_ids(), (None, Some(EXPLORER_ID)));
    assert_eq!(
        conv.get_expected_kind(),
        Some(PossibleExpectedKinds::ExplorerToOrchKind(ExplorerToOrchestratorKind::KillExplorerResult))
    );
    assert_eq!(conv.get_priority(), 5);
}

#[test]
fn kill_confirmation_releases_channels_and_tells_the_planet() {
    let galaxy = Galaxy::new();
    let mut locations = ExplorerLocations::new();
    locations.place(EXPLORER_ID, PLANET_ID);
    locations.place(9, 6);
    match make_wait_conv(true).transition(Some(kill_result()), &galaxy, &mut locations) {
        Step::ReleaseChannels(released, Some(next)) => {
            assert_eq!(released, EXPLORER_ID);
            assert_eq!(next.get_entities_ids(), (Some(PLANET_ID), Some(EXPLORER_ID)));
            match next.transition::<()>(None, &galaxy, &mut locations) {
                Step::Dispatch(Action::ToPlanet { planet_id, request }, after) => {
                    assert_eq!(planet_id, PLANET_ID);
                    assert_eq!(request, OrchestratorToPlanet::OutgoingExplorerRequest { explorer_id: EXPLORER_ID });
                    let waiting = after.resolve(SendOutcome::Delivered).expect("the planet's answer is awaited");
                    assert_eq!(
                        waiting.get_expected_kind(),
                        Some(PossibleExpectedKinds::PlanetToOrchKind(PlanetToOrchestratorKind::OutgoingExplorerResponse))
                    );
                    assert_eq!(waiting.get_entities_ids(), (Some(PLANET_ID), Some(EXPLORER_ID)));
                },
                _ => panic!("the planet should be told"),
            }
        },
        _ => panic!("a confirmed kill releases the channels"),
    }
    assert_eq!(locations.location_of(9), Some(6));
    assert_eq!(locations.location_of(EXPLORER_ID), None);
}

#[test]
fn test_manager_initialization() {
    let manager = KillExplorersManager::new(true, vec![(10, 100)]);
    assert_eq!(manager.explorers_to_kill.len(), 1);
    let conv = Conversation::new(CONV_ID, ConvoState::KillExplorersManager(manager));
    assert_eq!(conv.get_id(), CONV_ID);
    assert_eq!(conv.get_expected_kind(), None);
}

#[test]
fn test_transition_with_empty_list_returns_none() {
    let mut locations = ExplorerLocations::new();
    let conv = Conversation::new(CONV_ID, ConvoState::KillExplorersManager(KillExplorersManager::new(false, vec![])));
    let result = run(conv, None, &mut locations, SendOutcome::Delivered);
    assert!(result.is_none(), "Manager should terminate when no explorers are left");
}

#[test]
fn test_transition_to_kill_conversation() {
    let mut locations = ExplorerLocations::new();
    let conv = Conversation::new(CONV_ID, ConvoState::KillExplorersManager(KillExplorersManager::new(true, vec![(10, 100)])));
    let next_state = run(conv, None, &mut locations, SendOutcome::Delivered);
    assert!(next_state.is_some(), "Should transition to a KillExplorerConversation");
}

#[test]
fn manager_kills_every_explorer_last_first() {
    let galaxy = Galaxy::new();
    let mut locations = ExplorerLocations::new();
    locations.place(10, 100);
    locations.place(11, 101);
    let mut conv = Some(Conversation::new(
        CONV_ID,
        ConvoState::KillExplorersManager(KillExplorersManager::new(false, vec![(10, 100), (11, 101)])),
    ));
    let mut killed = Vec::new();
    let mut steps = 0;
    while let Some(c) = conv {
        steps += 1;
        assert!(steps < 20);
        assert_eq!(c.get_id(), CONV_ID);
        let msg = match c.state() {
            ConvoState::WaitingKillExplorerResult(s, _) => Some(PossibleMessage::<()>::ExplorerToOrch(
                ExplorerToOrchestrator::KillExplorerResult { explorer_id: s.explorer_id },
            )),
            _ => None,
        };
        conv = match c.transition(msg, &galaxy, &mut locations) {
            Step::Close => None,
            Step::Next(n) => Some(n),
            Step::Dispatch(Action::ToExplorer { explorer_id, command: OrchestratorToExplorer::KillExplorer }, after) => {
                killed.push(explorer_id);
                after.resolve(SendOutcome::Delivered)
            },
            Step::Dispatch(_, after) => after.resolve(SendOutcome::Delivered),
            Step::ReleaseChannels(_, next) => next,
        };
    }
    assert_eq!(killed, vec![11, 10]);
    assert_eq!(locations.location_of(10), None);
    assert_eq!(locations.location_of(11), None);
}

fn waiting_for_planet() -> Conversation {
    let state = WaitingDeadExpAdvResult { planet_id: PLANET_ID, explorer_id: EXPLORER_ID };
    Conversation::new(CONV_ID, ConvoState::WaitingDeadExpAdvResult(state, None))
}

#[test]
fn planet_letting_go_closes_the_kill() {
    let mut locations = ExplorerLocations::new();
    let answer = PossibleMessage::PlanetToOrch(PlanetToOrchestrator::OutgoingExplorerResponse {
        planet_id: PLANET_ID,
        explorer_id: EXPLORER_ID,
        res: Ok(()),
    });
    assert!(run(waiting_for_planet(), Some(answer), &mut locations, SendOutcome::Delivered).is_none());
}

#[test]
fn planet_refusing_to_let_go_fails_the_kill() {
    let mut locations = ExplorerLocations::new();
    let answer = PossibleMessage::PlanetToOrch(PlanetToOrchestrator::OutgoingExplorerResponse {
        planet_id: PLANET_ID,
        explorer_id: EXPLORER_ID,
        res: Err(String::from("busy")),
    });
    let failed = run(waiting_for_planet(), Some(answer), &mut locations, SendOutcome::Delivered)
        .expect("the failure is kept in an error state");
    assert_eq!(failed.get_expected_kind(), None);
    assert!(failed.get_error_details().unwrap().contains("failed to let go"));
}
