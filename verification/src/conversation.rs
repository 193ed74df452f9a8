//! A conversation: its id and current state, and what the orchestrator asks of
//! it to route messages and schedule work.
use crate::errors::{error_text, TimeoutErrorType};
use crate::messages::{ExplorerToOrchestratorKind, PlanetToOrchestratorKind, PossibleExpectedKinds, ID};
use crate::states::{ConvoState, SendOutgoingRequest, SendingBagContentRequest, StateView};
use vstd::prelude::*;

verus! {

/// One exchange between the orchestrator and an explorer (and the planets
/// involved), in one of its states.
pub struct Conversation {
    id: ID,
    state: ConvoState,
}

/// The mathematical form of a [`Conversation`].
pub struct ConvView {
    pub id: ID,
    pub state: StateView,
}

impl View for Conversation {
    type V = ConvView;

    closed spec fn view(&self) -> ConvView {
        ConvView { id: self.id, state: self.state@ }
    }
}

/// The view of an optional conversation.
pub open spec fn opt_conv_view(c: Option<Conversation>) -> Option<ConvView> {
    match c {
        Some(c) => Some(c@),
        None => None,
    }
}

/// How long the orchestrator waits for a conversation before it times out.
#[derive(Debug, Clone, Copy, PartialEq, Eq, Structural)]
pub enum TimeoutClass {
    /// The conversation never times out.
    Never,
    /// The fixed conversation timeout.
    Fixed,
    /// The timeout configured for conversations.
    Conversation,
    /// Twice the timeout configured for conversations.
    DoubleConversation,
    /// The timeout configured for explorers' answers.
    Explorer,
    /// Twice the timeout configured for explorers' answers.
    DoubleExplorer,
}

/// The (planet, explorer) pair a state concerns.
pub open spec fn state_entities(s: StateView) -> (Option<ID>, Option<ID>) {
    match s {
        StateView::SendingBagContentRequest(x) => (None, Some(x.explorer_id)),
        StateView::WaitingBagContentResponse(x) => (None, Some(x.explorer_id)),
        StateView::SendingKillExplorer(x, _) => (None, Some(x.explorer_id)),
        StateView::WaitingKillExplorerResult(x, _) => (None, Some(x.explorer_id)),
        StateView::SendingDeadExpAdv(x, _) => (Some(x.planet_id), Some(x.explorer_id)),
        StateView::WaitingDeadExpAdvResult(x, _) => (Some(x.planet_id), Some(x.explorer_id)),
        StateView::KillExplorersManager(_) => (None, None),
        StateView::SendingExplorerStart(x) => (None, Some(x.explorer_id)),
        StateView::WaitingExplorerStartResult(x) => (None, Some(x.explorer_id)),
        StateView::SendingExplorerStop(x) => (None, Some(x.explorer_id)),
        StateView::WaitingExplorerStopResult(x) => (None, Some(x.explorer_id)),
        StateView::SendingExplorerReset(x) => (None, Some(x.explorer_id)),
        StateView::WaitingExplorerResetResult(x) => (None, Some(x.explorer_id)),
        StateView::WaitingExplorerNeighborsRequest(x) => (None, Some(x.explorer_id)),
        StateView::SendingNeighbors { explorer_id, .. } => (None, Some(explorer_id)),
        StateView::SendingSupportedResourcesRequest(x) => (None, Some(x.explorer_id)),
        StateView::WaitingSupportedResourcesResult(x) => (None, Some(x.explorer_id)),
        StateView::SendingSupportedCombinationRequest(x) => (None, Some(x.explorer_id)),
        StateView::WaitingSupportedCombinationResult(x) => (None, Some(x.explorer_id)),
        StateView::SendingCraftResourceRequest(x) => (None, Some(x.explorer_id)),
        StateView::WaitingCraftResourceResult(x) => (None, Some(x.explorer_id)),
        StateView::SendingCombineResourceRequest(x) => (None, Some(x.explorer_id)),
        StateView::WaitingCombineResourceResult(x) => (None, Some(x.explorer_id)),
        StateView::WaitingTravelRequest(x) => (Some(x.curr_planet_id), Some(x.explorer_id)),
        StateView::SendManualMoveRequest(x) => (Some(x.dst_planet_id), Some(x.explorer_id)),
        StateView::SendIncomingRequest(x) => (Some(x.dst_planet_id), Some(x.explorer_id)),
        StateView::WaitingIncomingResponse(x) => (Some(x.dst_planet_id), Some(x.explorer_id)),
        StateView::SendOutgoingRequest(x) => (Some(x.curr_planet_id), Some(x.explorer_id)),
        StateView::WaitingOutgoingResponse(x) => (Some(x.curr_planet_id), Some(x.explorer_id)),
        StateView::SendMoveRequest(x) => (Some(x.dst_planet_id), Some(x.explorer_id)),
        StateView::WaitMoveToPlanetResponse(x) => (Some(x.dst_planet_id), Some(x.explorer_id)),
        StateView::Failed(_) => (None, None),
    }
}

/// The kind of message a state waits for; `None` for the states that act
/// without waiting.
pub open spec fn state_expected_kind(s: StateView) -> Option<PossibleExpectedKinds> {
    match s {
        StateView::WaitingBagContentResponse(_) =>
            Some(PossibleExpectedKinds::ExplorerToOrchKind(ExplorerToOrchestratorKind::BagContentResponse)),
        StateView::WaitingKillExplorerResult(_, _) =>
            Some(PossibleExpectedKinds::ExplorerToOrchKind(ExplorerToOrchestratorKind::KillExplorerResult)),
        StateView::WaitingExplorerStartResult(_) =>
            Some(PossibleExpectedKinds::ExplorerToOrchKind(ExplorerToOrchestratorKind::StartExplorerAIResult)),
        StateView::WaitingExplorerStopResult(_) =>
            Some(PossibleExpectedKinds::ExplorerToOrchKind(ExplorerToOrchestratorKind::StopExplorerAIResult)),
        StateView::WaitingExplorerResetResult(_) =>
            Some(PossibleExpectedKinds::ExplorerToOrchKind(ExplorerToOrchestratorKind::ResetExplorerAIResult)),
        StateView::WaitingExplorerNeighborsRequest(_) =>
            Some(PossibleExpectedKinds::ExplorerToOrchKind(ExplorerToOrchestratorKind::NeighborsRequest)),
        StateView::WaitingSupportedResourcesResult(_) =>
            Some(PossibleExpectedKinds::ExplorerToOrchKind(ExplorerToOrchestratorKind::SupportedResourceResult)),
        StateView::WaitingSupportedCombinationResult(_) =>
            Some(PossibleExpectedKinds::ExplorerToOrchKind(ExplorerToOrchestratorKind::SupportedCombinationResult)),
        StateView::WaitingCraftResourceResult(_) =>
            Some(PossibleExpectedKinds::ExplorerToOrchKind(ExplorerToOrchestratorKind::GenerateResourceResponse)),
        StateView::WaitingCombineResourceResult(_) =>
            Some(PossibleExpectedKinds::ExplorerToOrchKind(ExplorerToOrchestratorKind::CombineResourceResponse)),
        StateView::WaitingTravelRequest(_) =>
            Some(PossibleExpectedKinds::ExplorerToOrchKind(ExplorerToOrchestratorKind::TravelToPlanetRequest)),
        StateView::WaitingDeadExpAdvResult(_, _) =>
            Some(PossibleExpectedKinds::PlanetToOrchKind(PlanetToOrchestratorKind::OutgoingExplorerResponse)),
        StateView::WaitingIncomingResponse(_) =>
            Some(PossibleExpectedKinds::PlanetToOrchKind(PlanetToOrchestratorKind::IncomingExplorerResponse)),
        StateView::WaitingOutgoingResponse(_) =>
            Some(PossibleExpectedKinds::PlanetToOrchKind(PlanetToOrchestratorKind::OutgoingExplorerResponse)),
        StateView::WaitMoveToPlanetResponse(_) =>
            Some(PossibleExpectedKinds::ExplorerToOrchKind(ExplorerToOrchestratorKind::MovedToPlanetResult)),
        _ => None,
    }
}

/// The scheduling priority of a state; higher runs first.
pub open spec fn state_priority(s: StateView) -> i32 {
    match s {
        StateView::SendingBagContentRequest(_) => 3,
        StateView::WaitingBagContentResponse(_) => 3,
        StateView::SendingKillExplorer(_, _) => 5,
        StateView::WaitingKillExplorerResult(_, _) => 5,
        StateView::SendingDeadExpAdv(_, _) => 4,
        StateView::WaitingDeadExpAdvResult(_, _) => 4,
        StateView::KillExplorersManager(_) => 5,
        StateView::SendingExplorerStart(_) => 5,
        StateView::WaitingExplorerStartResult(_) => 5,
        StateView::SendingExplorerStop(_) => 5,
        StateView::WaitingExplorerStopResult(_) => 5,
        StateView::SendingExplorerReset(_) => 5,
        StateView::WaitingExplorerResetResult(_) => 5,
        StateView::WaitingExplorerNeighborsRequest(_) => 3,
        StateView::SendingNeighbors { .. } => 3,
        StateView::SendingSupportedResourcesRequest(_) => 2,
        StateView::WaitingSupportedResourcesResult(_) => 2,
        StateView::SendingSupportedCombinationRequest(_) => 2,
        StateView::WaitingSupportedCombinationResult(_) => 2,
        StateView::SendingCraftResourceRequest(_) => 2,
        StateView::WaitingCraftResourceResult(_) => 2,
        StateView::SendingCombineResourceRequest(_) => 2,
        StateView::WaitingCombineResourceResult(_) => 2,
        StateView::WaitingTravelRequest(_) => 4,
        StateView::SendManualMoveRequest(_) => 5,
        StateView::SendIncomingRequest(_) => 4,
        StateView::WaitingIncomingResponse(_) => 4,
        StateView::SendOutgoingRequest(_) => 4,
        StateView::WaitingOutgoingResponse(_) => 4,
        StateView::SendMoveRequest(_) => 5,
        StateView::WaitMoveToPlanetResponse(_) => 4,
        StateView::Failed(_) => 5,
    }
}

/// How long the orchestrator waits on a state.
pub open spec fn state_timeout(s: StateView) -> TimeoutClass {
    match s {
        StateView::SendingBagContentRequest(_) => TimeoutClass::Fixed,
        StateView::WaitingBagContentResponse(_) => TimeoutClass::Explorer,
        StateView::SendingKillExplorer(_, _) => TimeoutClass::Never,
        StateView::WaitingKillExplorerResult(_, _) => TimeoutClass::Conversation,
        StateView::SendingDeadExpAdv(_, _) => TimeoutClass::Fixed,
        StateView::WaitingDeadExpAdvResult(_, _) => TimeoutClass::Fixed,
        StateView::KillExplorersManager(_) => TimeoutClass::Never,
        StateView::SendingExplorerStart(_) => TimeoutClass::Fixed,
        StateView::WaitingExplorerStartResult(_) => TimeoutClass::Explorer,
        StateView::SendingExplorerStop(_) => TimeoutClass::Fixed,
        StateView::WaitingExplorerStopResult(_) => TimeoutClass::Explorer,
        StateView::SendingExplorerReset(_) => TimeoutClass::Fixed,
        StateView::WaitingExplorerResetResult(_) => TimeoutClass::Explorer,
        StateView::WaitingExplorerNeighborsRequest(_) => TimeoutClass::Explorer,
        StateView::SendingNeighbors { .. } => TimeoutClass::Fixed,
        StateView::SendingSupportedResourcesRequest(_) => TimeoutClass::Fixed,
        StateView::WaitingSupportedResourcesResult(_) => TimeoutClass::DoubleExplorer,
        StateView::SendingSupportedCombinationRequest(_) => TimeoutClass::Fixed,
        StateView::WaitingSupportedCombinationResult(_) => TimeoutClass::DoubleExplorer,
        StateView::SendingCraftResourceRequest(_) => TimeoutClass::Never,
        StateView::WaitingCraftResourceResult(_) => TimeoutClass::DoubleConversation,
        StateView::SendingCombineResourceRequest(_) => TimeoutClass::Fixed,
        StateView::WaitingCombineResourceResult(_) => TimeoutClass::DoubleExplorer,
        StateView::WaitingTravelRequest(_) => TimeoutClass::Conversation,
        StateView::SendManualMoveRequest(_) => TimeoutClass::Fixed,
        StateView::SendIncomingRequest(_) => TimeoutClass::Fixed,
        StateView::WaitingIncomingResponse(_) => TimeoutClass::Fixed,
        StateView::SendOutgoingRequest(_) => TimeoutClass::Fixed,
        StateView::WaitingOutgoingResponse(_) => TimeoutClass::Fixed,
        StateView::SendMoveRequest(_) => TimeoutClass::Conversation,
        StateView::WaitMoveToPlanetResponse(_) => TimeoutClass::Conversation,
        StateView::Failed(_) => TimeoutClass::Never,
    }
}

impl Conversation {
    /// Conversation `id` in state `state`.
    pub fn new(id: ID, state: ConvoState) -> (c: Self)
        ensures
            c@ == (ConvView { id, state: state@ }),
    {
        Conversation { id, state }
    }

    /// The id of the conversation, kept across all its states.
    pub fn get_id(&self) -> (id: ID)
        ensures
            id == self@.id,
    {
        self.id
    }

    /// The state the conversation is in.
    pub fn state(&self) -> (s: &ConvoState)
        ensures
            s@ == self@.state,
    {
        &self.state
    }

    /// Takes the conversation apart into its id and state.
    pub fn into_parts(self) -> (parts: (ID, ConvoState))
        ensures
            parts.0 == self@.id,
            parts.1@ == self@.state,
    {
        (self.id, self.state)
    }

    /// The (planet, explorer) pair the conversation concerns.
    pub fn get_entities_ids(&self) -> (ids: (Option<ID>, Option<ID>))
        ensures
            ids == state_entities(self@.state),
    {
        match &self.state {
            ConvoState::SendingBagContentRequest(x) => (None, Some(x.explorer_id)),
            ConvoState::WaitingBagContentResponse(x) => (None, Some(x.explorer_id)),
            ConvoState::SendingKillExplorer(x, _) => (None, Some(x.explorer_id)),
            ConvoState::WaitingKillExplorerResult(x, _) => (None, Some(x.explorer_id)),
            ConvoState::SendingDeadExpAdv(x, _) => (Some(x.planet_id), Some(x.explorer_id)),
            ConvoState::WaitingDeadExpAdvResult(x, _) => (Some(x.planet_id), Some(x.explorer_id)),
            ConvoState::KillExplorersManager(_) => (None, None),
            ConvoState::SendingExplorerStart(x) => (None, Some(x.explorer_id)),
            ConvoState::WaitingExplorerStartResult(x) => (None, Some(x.explorer_id)),
            ConvoState::SendingExplorerStop(x) => (None, Some(x.explorer_id)),
            ConvoState::WaitingExplorerStopResult(x) => (None, Some(x.explorer_id)),
            ConvoState::SendingExplorerReset(x) => (None, Some(x.explorer_id)),
            ConvoState::WaitingExplorerResetResult(x) => (None, Some(x.explorer_id)),
            ConvoState::WaitingExplorerNeighborsRequest(x) => (None, Some(x.explorer_id)),
            ConvoState::SendingNeighbors(x) => (None, Some(x.explorer_id)),
            ConvoState::SendingSupportedResourcesRequest(x) => (None, Some(x.explorer_id)),
            ConvoState::WaitingSupportedResourcesResult(x) => (None, Some(x.explorer_id)),
            ConvoState::SendingSupportedCombinationRequest(x) => (None, Some(x.explorer_id)),
            ConvoState::WaitingSupportedCombinationResult(x) => (None, Some(x.explorer_id)),
            ConvoState::SendingCraftResourceRequest(x) => (None, Some(x.explorer_id)),
            ConvoState::WaitingCraftResourceResult(x) => (None, Some(x.explorer_id)),
            ConvoState::SendingCombineResourceRequest(x) => (None, Some(x.explorer_id)),
            ConvoState::WaitingCombineResourceResult(x) => (None, Some(x.explorer_id)),
            ConvoState::WaitingTravelRequest(x) => (Some(x.curr_planet_id), Some(x.explorer_id)),
            ConvoState::SendManualMoveRequest(x) => (Some(x.dst_planet_id), Some(x.explorer_id)),
            ConvoState::SendIncomingRequest(x) => (Some(x.dst_planet_id), Some(x.explorer_id)),
            ConvoState::WaitingIncomingResponse(x) => (Some(x.dst_planet_id), Some(x.explorer_id)),
            ConvoState::SendOutgoingRequest(x) => (Some(x.curr_planet_id), Some(x.explorer_id)),
            ConvoState::WaitingOutgoingResponse(x) => (Some(x.curr_planet_id), Some(x.explorer_id)),
            ConvoState::SendMoveRequest(x) => (Some(x.dst_planet_id), Some(x.explorer_id)),
            ConvoState::WaitMoveToPlanetResponse(x) => (Some(x.dst_planet_id), Some(x.explorer_id)),
            ConvoState::Failed(_) => (None, None),
        }
    }

    /// The kind of message the conversation waits for, if it waits for one.
    pub fn get_expected_kind(&self) -> (k: Option<PossibleExpectedKinds>)
        ensures
            k == state_expected_kind(self@.state),
    {
        match &self.state {
            ConvoState::WaitingBagContentResponse(_) =>
                Some(PossibleExpectedKinds::ExplorerToOrchKind(ExplorerToOrchestratorKind::BagContentResponse)),
            ConvoState::WaitingKillExplorerResult(_, _) =>
                Some(PossibleExpectedKinds::ExplorerToOrchKind(ExplorerToOrchestratorKind::KillExplorerResult)),
            ConvoState::WaitingExplorerStartResult(_) =>
                Some(PossibleExpectedKinds::ExplorerToOrchKind(ExplorerToOrchestratorKind::StartExplorerAIResult)),
            ConvoState::WaitingExplorerStopResult(_) =>
                Some(PossibleExpectedKinds::ExplorerToOrchKind(ExplorerToOrchestratorKind::StopExplorerAIResult)),
            ConvoState::WaitingExplorerResetResult(_) =>
                Some(PossibleExpectedKinds::ExplorerToOrchKind(ExplorerToOrchestratorKind::ResetExplorerAIResult)),
            ConvoState::WaitingExplorerNeighborsRequest(_) =>
                Some(PossibleExpectedKinds::ExplorerToOrchKind(ExplorerToOrchestratorKind::NeighborsRequest)),
            ConvoState::WaitingSupportedResourcesResult(_) =>
                Some(PossibleExpectedKinds::ExplorerToOrchKind(ExplorerToOrchestratorKind::SupportedResourceResult)),
            ConvoState::WaitingSupportedCombinationResult(_) =>
                Some(PossibleExpectedKinds::ExplorerToOrchKind(ExplorerToOrchestratorKind::SupportedCombinationResult)),
            ConvoState::WaitingCraftResourceResult(_) =>
                Some(PossibleExpectedKinds::ExplorerToOrchKind(ExplorerToOrchestratorKind::GenerateResourceResponse)),
            ConvoState::WaitingCombineResourceResult(_) =>
                Some(PossibleExpectedKinds::ExplorerToOrchKind(ExplorerToOrchestratorKind::CombineResourceResponse)),
            ConvoState::WaitingTravelRequest(_) =>
                Some(PossibleExpectedKinds::ExplorerToOrchKind(ExplorerToOrchestratorKind::TravelToPlanetRequest)),
            ConvoState::WaitingDeadExpAdvResult(_, _) =>
                Some(PossibleExpectedKinds::PlanetToOrchKind(PlanetToOrchestratorKind::OutgoingExplorerResponse)),
            ConvoState::WaitingIncomingResponse(_) =>
                Some(PossibleExpectedKinds::PlanetToOrchKind(PlanetToOrchestratorKind::IncomingExplorerResponse)),
            ConvoState::WaitingOutgoingResponse(_) =>
                Some(PossibleExpectedKinds::PlanetToOrchKind(PlanetToOrchestratorKind::OutgoingExplorerResponse)),
            ConvoState::WaitMoveToPlanetResponse(_) =>
                Some(PossibleExpectedKinds::ExplorerToOrchKind(ExplorerToOrchestratorKind::MovedToPlanetResult)),
            _ => None,
        }
    }

    /// The scheduling priority of the conversation; higher runs first.
    pub fn get_priority(&self) -> (p: i32)
        ensures
            p == state_priority(self@.state),
    {
        match &self.state {
            ConvoState::SendingBagContentRequest(_) => 3,
            ConvoState::WaitingBagContentResponse(_) => 3,
            ConvoState::SendingKillExplorer(_, _) => 5,
            ConvoState::WaitingKillExplorerResult(_, _) => 5,
            ConvoState::SendingDeadExpAdv(_, _) => 4,
            ConvoState::WaitingDeadExpAdvResult(_, _) => 4,
            ConvoState::KillExplorersManager(_) => 5,
            ConvoState::SendingExplorerStart(_) => 5,
            ConvoState::WaitingExplorerStartResult(_) => 5,
            ConvoState::SendingExplorerStop(_) => 5,
            ConvoState::WaitingExplorerStopResult(_) => 5,
            ConvoState::SendingExplorerReset(_) => 5,
            ConvoState::WaitingExplorerResetResult(_) => 5,
            ConvoState::WaitingExplorerNeighborsRequest(_) => 3,
            ConvoState::SendingNeighbors(_) => 3,
            ConvoState::SendingSupportedResourcesRequest(_) => 2,
            ConvoState::WaitingSupportedResourcesResult(_) => 2,
            ConvoState::SendingSupportedCombinationRequest(_) => 2,
            ConvoState::WaitingSupportedCombinationResult(_) => 2,
            ConvoState::SendingCraftResourceRequest(_) => 2,
            ConvoState::WaitingCraftResourceResult(_) => 2,
            ConvoState::SendingCombineResourceRequest(_) => 2,
            ConvoState::WaitingCombineResourceResult(_) => 2,
            ConvoState::WaitingTravelRequest(_) => 4,
            ConvoState::SendManualMoveRequest(_) => 5,
            ConvoState::SendIncomingRequest(_) => 4,
            ConvoState::WaitingIncomingResponse(_) => 4,
            ConvoState::SendOutgoingRequest(_) => 4,
            ConvoState::WaitingOutgoingResponse(_) => 4,
            ConvoState::SendMoveRequest(_) => 5,
            ConvoState::WaitMoveToPlanetResponse(_) => 4,
            ConvoState::Failed(_) => 5,
        }
    }

    /// How long the orchestrator waits on the conversation before it times out.
    pub fn get_timeout(&self) -> (t: TimeoutClass)
        ensures
            t == state_timeout(self@.state),
    {
        match &self.state {
            ConvoState::SendingBagContentRequest(_) => TimeoutClass::Fixed,
            ConvoState::WaitingBagContentResponse(_) => TimeoutClass::Explorer,
            ConvoState::SendingKillExplorer(_, _) => TimeoutClass::Never,
            ConvoState::WaitingKillExplorerResult(_, _) => TimeoutClass::Conversation,
            ConvoState::SendingDeadExpAdv(_, _) => TimeoutClass::Fixed,
            ConvoState::WaitingDeadExpAdvResult(_, _) => TimeoutClass::Fixed,
            ConvoState::KillExplorersManager(_) => TimeoutClass::Never,
            ConvoState::SendingExplorerStart(_) => TimeoutClass::Fixed,
            ConvoState::WaitingExplorerStartResult(_) => TimeoutClass::Explorer,
            ConvoState::SendingExplorerStop(_) => TimeoutClass::Fixed,
            ConvoState::WaitingExplorerStopResult(_) => TimeoutClass::Explorer,
            ConvoState::SendingExplorerReset(_) => TimeoutClass::Fixed,
            ConvoState::WaitingExplorerResetResult(_) => TimeoutClass::Explorer,
            ConvoState::WaitingExplorerNeighborsRequest(_) => TimeoutClass::Explorer,
            ConvoState::SendingNeighbors(_) => TimeoutClass::Fixed,
            ConvoState::SendingSupportedResourcesRequest(_) => TimeoutClass::Fixed,
            ConvoState::WaitingSupportedResourcesResult(_) => TimeoutClass::DoubleExplorer,
            ConvoState::SendingSupportedCombinationRequest(_) => TimeoutClass::Fixed,
            ConvoState::WaitingSupportedCombinationResult(_) => TimeoutClass::DoubleExplorer,
            ConvoState::SendingCraftResourceRequest(_) => TimeoutClass::Never,
            ConvoState::WaitingCraftResourceResult(_) => TimeoutClass::DoubleConversation,
            ConvoState::SendingCombineResourceRequest(_) => TimeoutClass::Fixed,
            ConvoState::WaitingCombineResourceResult(_) => TimeoutClass::DoubleExplorer,
            ConvoState::WaitingTravelRequest(_) => TimeoutClass::Conversation,
            ConvoState::SendManualMoveRequest(_) => TimeoutClass::Fixed,
            ConvoState::SendIncomingRequest(_) => TimeoutClass::Fixed,
            ConvoState::WaitingIncomingResponse(_) => TimeoutClass::Fixed,
            ConvoState::SendOutgoingRequest(_) => TimeoutClass::Fixed,
            ConvoState::WaitingOutgoingResponse(_) => TimeoutClass::Fixed,
            ConvoState::SendMoveRequest(_) => TimeoutClass::Conversation,
            ConvoState::WaitMoveToPlanetResponse(_) => TimeoutClass::Conversation,
            ConvoState::Failed(_) => TimeoutClass::Never,
        }
    }

    /// The record of this conversation timing out in its present state.
    pub fn timeout_error(&self) -> (t: TimeoutErrorType)
        ensures
            t == (TimeoutErrorType {
                conversation_id: self@.id,
                entity_ids: state_entities(self@.state),
                expected_kind: state_expected_kind(self@.state),
            }),
    {
        TimeoutErrorType::new(self.id, self.get_entities_ids(), self.get_expected_kind())
    }

    /// The report of the error that ended the conversation, if it is in its
    /// error state.
    pub fn get_error_details(&self) -> (d: Option<String>)
        ensures
            match self@.state {
                StateView::Failed(e) => d is Some && d->0@ == error_text(e),
                _ => d is None,
            },
    {
        match &self.state {
            ConvoState::Failed(e) => Some(e.stringify()),
            _ => None,
        }
    }
}

/// The bag content conversation: asks an explorer for its bag and forwards it
/// to the user interface.
pub struct BagContentConversation;

impl BagContentConversation {
    /// Conversation `id`, about to ask for the bag.
    pub fn new(id: ID, state: SendingBagContentRequest) -> (c: Conversation)
        ensures
            c@ == (ConvView { id, state: StateView::SendingBagContentRequest(state) }),
    {
        Conversation { id, state: ConvoState::SendingBagContentRequest(state) }
    }
}

/// The move to planet conversation: the handshake that moves an explorer from
/// a planet to a neighbor.
pub struct MoveToPlanetConversation;

impl MoveToPlanetConversation {
    /// Conversation `id`, about to ask the explorer's current planet to let it
    /// go.
    pub fn new(id: ID, state: SendOutgoingRequest) -> (c: Conversation)
        ensures
            c@ == (ConvView { id, state: StateView::SendOutgoingRequest(state) }),
    {
        Conversation { id, state: ConvoState::SendOutgoingRequest(state) }
    }
}

} // verus!
