use orchestrator_convos::conversation::{Conversation, TimeoutClass};
use orchestrator_convos::errors::{ConvoError, TimeoutErrorType};
use orchestrator_convos::messages::{
    BasicResourceType, ComplexResourceType, ExplorerToOrchestrator, ExplorerToOrchestratorKind,
    PlanetToOrchestrator, PlanetToOrchestratorKind, PossibleExpectedKinds, PossibleMessage,
};
use orchestrator_convos::states::{ConvoState, SendingKillExplorer, WaitingBagContentResponse, WaitingIncomingResponse};
use orchestrator_convos::text::push_decimal;
use orchestrator_convos::locations::ExplorerLocations;
use orchestrator_convos::messages::{
    dispatch_outcome, ready_to_send, Action, CarriedChannel, OrchestratorToExplorer, OrchestratorToPlanet, SendOutcome,
};

#[test]
fn message_kinds() {
    let m: PossibleMessage<()> = PossibleMessage::PlanetToOrch(PlanetToOrchestrator::IncomingExplorerResponse {
        planet_id: 3,
        explorer_id: 4,
        res: Ok(()),
    });
    assert_eq!(m.to_kind_type(), PossibleExpectedKinds::PlanetToOrchKind(PlanetToOrchestratorKind::IncomingExplorerResponse));
    let e: PossibleMessage<()> = PossibleMessage::ExplorerToOrch(ExplorerToOrchestrator::NeighborsRequest { explorer_id: 4, current_planet_id: 3 });
    assert_eq!(e.to_kind_type(), PossibleExpectedKinds::ExplorerToOrchKind(ExplorerToOrchestratorKind::NeighborsRequest));
}

#[test]
fn message_entity_ids() {
    let incoming: PossibleMessage<()> = PossibleMessage::PlanetToOrch(PlanetToOrchestrator::OutgoingExplorerResponse {
        planet_id: 3,
        explorer_id: 4,
        res: Err("no".to_string()),
    });
    assert_eq!(incoming.get_entity_ids(), (Some(3), Some(4)));
    let moved: PossibleMessage<()> = PossibleMessage::ExplorerToOrch(ExplorerToOrchestrator::MovedToPlanetResult { explorer_id: 4, planet_id: 9 });
    assert_eq!(moved.get_entity_ids(), (Some(9), Some(4)));
    let travel: PossibleMessage<()> = PossibleMessage::ExplorerToOrch(ExplorerToOrchestrator::TravelToPlanetRequest {
        explorer_id: 4,
        current_planet_id: 1,
        dst_planet_id: 2,
    });
    assert_eq!(travel.get_entity_ids(), (Some(1), Some(4)));
    let sunray: PossibleMessage<()> = PossibleMessage::PlanetToOrch(PlanetToOrchestrator::SunrayAck { planet_id: 8 });
    assert_eq!(sunray.get_entity_ids(), (Some(8), None));
    let bag: PossibleMessage<u8> = PossibleMessage::ExplorerToOrch(ExplorerToOrchestrator::BagContentResponse { explorer_id: 6, bag_content: 0 });
    assert_eq!(bag.get_entity_ids(), (None, Some(6)));
}

#[test]
fn error_reports() {
    assert_eq!(ConvoError::WrongMessage.stringify(), "Wrong Message Received");
    assert_eq!(ConvoError::PlanetSenderNotFound(0).stringify(), "sender to planet 0 not found");
    assert_eq!(ConvoError::ExplorerSenderNotFound(4294967295).stringify(), "sender to explorer 4294967295 not found");
    assert_eq!(ConvoError::MessageToExplorerFailed(12).stringify(), "failed to send message to explorer 12");
    assert_eq!(ConvoError::MessageToPlanetFailed(120).stringify(), "failed to send message to planet 120");
    assert_eq!(ConvoError::MessageToUiFailed.stringify(), "failed to send message to ui");
    assert_eq!(
        ConvoError::IncomingMessageFailed(10).stringify(),
        "Failed to send Incoming message to destination planet 10"
    );
    assert_eq!(
        ConvoError::OutgoingMessageFailed(20).stringify(),
        "Failed to send Outgoing message to current planet 20"
    );
    assert_eq!(
        ConvoError::DstPlanetFailed { planet_id: 5, explorer_id: 2 }.stringify(),
        "Destination planet 5 failed to acquire incoming explorer 2"
    );
    assert_eq!(
        ConvoError::CurrPlanetFailed { planet_id: 5, explorer_id: 6 }.stringify(),
        "Current planet 5 failed to let go of outgoing explorer 6"
    );
    assert_eq!(ConvoError::PlanetNotFound(7).stringify(), "Planet 7 not found in current galaxy, can't provide neighbors");
    assert_eq!(
        ConvoError::CraftingFailed { explorer_id: 1, err: "x".to_string(), resource: BasicResourceType::Silicon }.stringify(),
        "Explorer 1, failed to craft Silicon: x"
    );
    assert_eq!(
        ConvoError::CombineFailed { explorer_id: 1, err: String::new(), combination: ComplexResourceType::Dolphin }.stringify(),
        "Explorer 1, failed to craft Dolphin: "
    );
}

#[test]
fn decimal_notation() {
    for n in [0u32, 7, 10, 99, 100, 1234567, u32::MAX] {
        let mut s = String::from("#");
        push_decimal(&mut s, n);
        assert_eq!(s, format!("#{n}"));
    }
}

#[test]
fn timeout_reports() {
    let conv = Conversation::new(1, ConvoState::WaitingBagContentResponse(WaitingBagContentResponse { explorer_id: 2 }));
    assert_eq!(
        conv.timeout_error().stringify(),
        "Conversation 1 timed out waiting for Some(ExplorerToOrchKind(BagContentResponse)) (entities: (None, Some(2)))"
    );
    let conv = Conversation::new(
        7,
        ConvoState::WaitingIncomingResponse(WaitingIncomingResponse { explorer_id: 2, dst_planet_id: 10, curr_planet_id: None }),
    );
    assert_eq!(
        conv.timeout_error().stringify(),
        "Conversation 7 timed out waiting for Some(PlanetToOrchKind(IncomingExplorerResponse)) (entities: (Some(10), Some(2)))"
    );
    let t = TimeoutErrorType::new(3, (None, None), None);
    assert_eq!(t.stringify(), "Conversation 3 timed out waiting for None (entities: (None, None))");
}

#[test]
fn timeouts_by_state() {
    let kill = Conversation::new(1, ConvoState::SendingKillExplorer(SendingKillExplorer::new(2, 3, false), None));
    assert_eq!(kill.get_timeout(), TimeoutClass::Never);
    let wait = Conversation::new(1, ConvoState::WaitingBagContentResponse(WaitingBagContentResponse { explorer_id: 2 }));
    assert_eq!(wait.get_timeout(), TimeoutClass::Explorer);
}

#[test]
fn error_state_getters() {
    let conv = Conversation::new(9, ConvoState::Failed(ConvoError::MessageToUiFailed));
    assert_eq!(conv.get_id(), 9);
    assert_eq!(conv.get_priority(), 5);
    assert_eq!(conv.get_expected_kind(), None);
    assert_eq!(conv.get_entities_ids(), (None, None));
    assert_eq!(conv.get_error_details(), Some("failed to send message to ui".to_string()));
}

#[test]
fn dispatch_looks_up_the_carried_channel_first() {
    assert_eq!(dispatch_outcome(true, false, false, false), SendOutcome::AttachedSenderNotFound);
    assert_eq!(dispatch_outcome(true, true, false, false), SendOutcome::SenderNotFound);
    assert_eq!(dispatch_outcome(false, false, false, false), SendOutcome::SenderNotFound);
    assert_eq!(dispatch_outcome(false, false, true, false), SendOutcome::SendFailed);
    assert_eq!(dispatch_outcome(true, true, true, true), SendOutcome::Delivered);
    assert_eq!(dispatch_outcome(false, false, true, true), SendOutcome::Delivered);
    assert!(ready_to_send(false, false, true));
    assert!(!ready_to_send(true, false, true));
    assert!(!ready_to_send(true, true, false));
}

#[test]
fn carried_channels() {
    let granted: Action<()> = Action::ToExplorer {
        explorer_id: 2,
        command: OrchestratorToExplorer::MoveToPlanet { planet_id: 7, grants_passage: true },
    };
    assert_eq!(granted.carried_channel(), Some(CarriedChannel::ExplorerToPlanet(7)));
    let refused: Action<()> = Action::ToExplorer {
        explorer_id: 2,
        command: OrchestratorToExplorer::MoveToPlanet { planet_id: 7, grants_passage: false },
    };
    assert_eq!(refused.carried_channel(), None);
    let incoming: Action<()> =
        Action::ToPlanet { planet_id: 7, request: OrchestratorToPlanet::IncomingExplorerRequest { explorer_id: 2 } };
    assert_eq!(incoming.carried_channel(), Some(CarriedChannel::PlanetToExplorer(2)));
    let outgoing: Action<()> =
        Action::ToPlanet { planet_id: 7, request: OrchestratorToPlanet::OutgoingExplorerRequest { explorer_id: 2 } };
    assert_eq!(outgoing.carried_channel(), None);
}

#[test]
fn empty_registry() {
    let mut locations = ExplorerLocations::new();
    assert!(locations.is_empty());
    locations.place(1, 2);
    assert!(!locations.is_empty());
    locations.forget(1);
    assert!(locations.is_empty());
}
