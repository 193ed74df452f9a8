use orchestrator_convos::conversation::Conversation;
use orchestrator_convos::errors::ConvoError;
use orchestrator_convos::galaxy::Galaxy;
use orchestrator_convos::locations::ExplorerLocations;
use orchestrator_convos::messages::{ExplorerToOrchestrator, PlanetToOrchestrator, PossibleMessage, SendOutcome};
use orchestrator_convos::states::{
    ConvoState, SendingExplorerStop, WaitingExplorerStartResult, WaitingTravelRequest,
};
use orchestrator_convos::step::Step;

fn advance(conv: Conversation, msg: Option<PossibleMessage<()>>, outcome: SendOutcome) -> Option<Conversation> {
    let galaxy = Galaxy::new();
    let mut locations = ExplorerLocations::new();
    match conv.transition(msg, &galaxy, &mut locations) {
        Step::Close => None,
        Step::Next(c) => Some(c),
        Step::Dispatch(_, after) => after.resolve(outcome),
        Step::ReleaseChannels(_, next) => next,
    }
}

#[test]
fn error_state_closes_on_any_input() {
    let conv = Conversation::new(3, ConvoState::Failed(ConvoError::WrongMessage));
    let msg = Some(PossibleMessage::ExplorerToOrch(ExplorerToOrchestrator::StopExplorerAIResult { explorer_id: 1 }));
    assert!(advance(conv, msg, SendOutcome::Delivered).is_none());
}

#[test]
fn message_of_the_wrong_protocol_is_rejected() {
    let conv = Conversation::new(3, ConvoState::WaitingExplorerStartResult(WaitingExplorerStartResult { explorer_id: 1 }));
    let msg = Some(PossibleMessage::PlanetToOrch(PlanetToOrchestrator::StartPlanetAIResult { planet_id: 1 }));
    let next = advance(conv, msg, SendOutcome::Delivered).unwrap();
    assert_eq!(next.get_id(), 3);
    assert_eq!(next.get_error_details(), Some("Wrong Message Received".to_string()));
}

#[test]
fn acting_state_rejects_even_its_own_answer() {
    let conv = Conversation::new(3, ConvoState::SendingExplorerStop(SendingExplorerStop::new(1)));
    let msg = Some(PossibleMessage::ExplorerToOrch(ExplorerToOrchestrator::StopExplorerAIResult { explorer_id: 1 }));
    let next = advance(conv, msg, SendOutcome::Delivered).unwrap();
    assert_eq!(next.get_error_details(), Some("Wrong Message Received".to_string()));
}

#[test]
fn every_undelivered_outcome_fails() {
    for outcome in [SendOutcome::SenderNotFound, SendOutcome::SendFailed, SendOutcome::AttachedSenderNotFound] {
        let conv = Conversation::new(4, ConvoState::SendingExplorerStop(SendingExplorerStop::new(1)));
        let next = advance(conv, None, outcome).unwrap();
        assert_eq!(next.get_id(), 4);
        assert!(next.get_error_details().is_some());
    }
}

#[test]
fn locations_untouched_by_a_refused_travel() {
    let mut galaxy = Galaxy::new();
    galaxy.add_planet(1, vec![]);
    galaxy.add_planet(2, vec![]);
    let mut locations = ExplorerLocations::new();
    locations.place(5, 1);
    let conv = Conversation::new(8, ConvoState::WaitingTravelRequest(WaitingTravelRequest { explorer_id: 5, curr_planet_id: 1 }));
    let msg = Some(PossibleMessage::<()>::ExplorerToOrch(ExplorerToOrchestrator::TravelToPlanetRequest {
        explorer_id: 5,
        current_planet_id: 1,
        dst_planet_id: 2,
    }));
    let mut conv = match conv.transition(msg, &galaxy, &mut locations) {
        Step::Next(c) => Some(c),
        _ => panic!("a refused travel goes on to tell the explorer"),
    };
    let mut steps = 0;
    while let Some(c) = conv {
        steps += 1;
        let msg = match c.state() {
            ConvoState::WaitMoveToPlanetResponse(_) => Some(PossibleMessage::<()>::ExplorerToOrch(
                ExplorerToOrchestrator::MovedToPlanetResult { explorer_id: 5, planet_id: 2 },
            )),
            _ => None,
        };
        conv = match c.transition(msg, &galaxy, &mut locations) {
            Step::Close => None,
            Step::Next(n) => Some(n),
            Step::Dispatch(_, after) => after.resolve(SendOutcome::Delivered),
            Step::ReleaseChannels(_, n) => n,
        };
    }
    assert_eq!(steps, 2);
    assert_eq!(locations.location_of(5), Some(1));
}
