//! The protocol vocabulary seen by the conversations: the kinds of messages a
//! conversation waits for, the messages that planets and explorers send to the
//! orchestrator, and the commands the orchestrator sends back.
//!
//! Every type here holds plain values only: the fields that the conversations
//! read. Channels that travel inside a command (the sender handed to a planet
//! or an explorer) are named by a flag and attached by the caller.
use vstd::prelude::*;

verus! {

/// Identifier of a planet, an explorer or a conversation.
pub type ID = u32;

/// Discriminant of a message from an explorer to the orchestrator.
#[derive(Debug, Clone, Copy, PartialEq, Eq, Structural, Hash)]
pub enum ExplorerToOrchestratorKind {
    StartExplorerAIResult,
    KillExplorerResult,
    ResetExplorerAIResult,
    StopExplorerAIResult,
    MovedToPlanetResult,
    CurrentPlanetResult,
    SupportedResourceResult,
    SupportedCombinationResult,
    GenerateResourceResponse,
    CombineResourceResponse,
    BagContentResponse,
    NeighborsRequest,
    TravelToPlanetRequest,
}

/// Discriminant of a message from a planet to the orchestrator.
#[derive(Debug, Clone, Copy, PartialEq, Eq, Structural, Hash)]
pub enum PlanetToOrchestratorKind {
    SunrayAck,
    AsteroidAck,
    StartPlanetAIResult,
    StopPlanetAIResult,
    KillPlanetResult,
    InternalStateResponse,
    IncomingExplorerResponse,
    OutgoingExplorerResponse,
    Stopped,
}

/// The kind of message a conversation is waiting for, from either protocol.
#[derive(Debug, Clone, Copy, PartialEq, Eq, Structural, Hash)]
pub enum PossibleExpectedKinds {
    PlanetToOrchKind(PlanetToOrchestratorKind),
    ExplorerToOrchKind(ExplorerToOrchestratorKind),
}

/// A basic resource that an explorer can ask its planet to generate.
#[derive(Debug, Clone, Copy, PartialEq, Eq, Structural, Hash)]
pub enum BasicResourceType {
    Oxygen,
    Hydrogen,
    Carbon,
    Silicon,
}

/// A complex resource that an explorer can ask its planet to combine.
#[derive(Debug, Clone, Copy, PartialEq, Eq, Structural, Hash)]
pub enum ComplexResourceType {
    Diamond,
    Water,
    Life,
    Robot,
    Dolphin,
    AIPartner,
}

/// A message from an explorer to the orchestrator; `T` is the explorer's bag
/// content, which the orchestrator only forwards.
#[verifier::reject_recursive_types(T)]
pub enum ExplorerToOrchestrator<T> {
    StartExplorerAIResult { explorer_id: ID },
    KillExplorerResult { explorer_id: ID },
    ResetExplorerAIResult { explorer_id: ID },
    StopExplorerAIResult { explorer_id: ID },
    MovedToPlanetResult { explorer_id: ID, planet_id: ID },
    CurrentPlanetResult { explorer_id: ID, planet_id: ID },
    SupportedResourceResult { explorer_id: ID, supported_resources: Vec<BasicResourceType> },
    SupportedCombinationResult { explorer_id: ID, combination_list: Vec<ComplexResourceType> },
    GenerateResourceResponse { explorer_id: ID, generated: Result<(), String> },
    CombineResourceResponse { explorer_id: ID, generated: Result<(), String> },
    BagContentResponse { explorer_id: ID, bag_content: T },
    NeighborsRequest { explorer_id: ID, current_planet_id: ID },
    TravelToPlanetRequest { explorer_id: ID, current_planet_id: ID, dst_planet_id: ID },
}

/// A message from a planet to the orchestrator.
pub enum PlanetToOrchestrator {
    SunrayAck { planet_id: ID },
    AsteroidAck { planet_id: ID },
    StartPlanetAIResult { planet_id: ID },
    StopPlanetAIResult { planet_id: ID },
    KillPlanetResult { planet_id: ID },
    InternalStateResponse { planet_id: ID },
    IncomingExplorerResponse { planet_id: ID, explorer_id: ID, res: Result<(), String> },
    OutgoingExplorerResponse { planet_id: ID, explorer_id: ID, res: Result<(), String> },
    Stopped { planet_id: ID },
}

/// A message received by the orchestrator, from either protocol.
#[verifier::reject_recursive_types(T)]
pub enum PossibleMessage<T> {
    PlanetToOrch(PlanetToOrchestrator),
    ExplorerToOrch(ExplorerToOrchestrator<T>),
}

/// The discriminant of an explorer message.
pub open spec fn explorer_msg_kind<T>(m: ExplorerToOrchestrator<T>) -> ExplorerToOrchestratorKind {
    match m {
        ExplorerToOrchestrator::StartExplorerAIResult { .. } => ExplorerToOrchestratorKind::StartExplorerAIResult,
        ExplorerToOrchestrator::KillExplorerResult { .. } => ExplorerToOrchestratorKind::KillExplorerResult,
        ExplorerToOrchestrator::ResetExplorerAIResult { .. } => ExplorerToOrchestratorKind::ResetExplorerAIResult,
        ExplorerToOrchestrator::StopExplorerAIResult { .. } => ExplorerToOrchestratorKind::StopExplorerAIResult,
        ExplorerToOrchestrator::MovedToPlanetResult { .. } => ExplorerToOrchestratorKind::MovedToPlanetResult,
        ExplorerToOrchestrator::CurrentPlanetResult { .. } => ExplorerToOrchestratorKind::CurrentPlanetResult,
        ExplorerToOrchestrator::SupportedResourceResult { .. } => ExplorerToOrchestratorKind::SupportedResourceResult,
        ExplorerToOrchestrator::SupportedCombinationResult { .. } => ExplorerToOrchestratorKind::SupportedCombinationResult,
        ExplorerToOrchestrator::GenerateResourceResponse { .. } => ExplorerToOrchestratorKind::GenerateResourceResponse,
        ExplorerToOrchestrator::CombineResourceResponse { .. } => ExplorerToOrchestratorKind::CombineResourceResponse,
        ExplorerToOrchestrator::BagContentResponse { .. } => ExplorerToOrchestratorKind::BagContentResponse,
        ExplorerToOrchestrator::NeighborsRequest { .. } => ExplorerToOrchestratorKind::NeighborsRequest,
        ExplorerToOrchestrator::TravelToPlanetRequest { .. } => ExplorerToOrchestratorKind::TravelToPlanetRequest,
    }
}

/// The explorer that sent an explorer message.
pub open spec fn explorer_msg_sender<T>(m: ExplorerToOrchestrator<T>) -> ID {
    match m {
        ExplorerToOrchestrator::StartExplorerAIResult { explorer_id } => explorer_id,
        ExplorerToOrchestrator::KillExplorerResult { explorer_id } => explorer_id,
        ExplorerToOrchestrator::ResetExplorerAIResult { explorer_id } => explorer_id,
        ExplorerToOrchestrator::StopExplorerAIResult { explorer_id } => explorer_id,
        ExplorerToOrchestrator::MovedToPlanetResult { explorer_id, .. } => explorer_id,
        ExplorerToOrchestrator::CurrentPlanetResult { explorer_id, .. } => explorer_id,
        ExplorerToOrchestrator::SupportedResourceResult { explorer_id, .. } => explorer_id,
        ExplorerToOrchestrator::SupportedCombinationResult { explorer_id, .. } => explorer_id,
        ExplorerToOrchestrator::GenerateResourceResponse { explorer_id, .. } => explorer_id,
        ExplorerToOrchestrator::CombineResourceResponse { explorer_id, .. } => explorer_id,
        ExplorerToOrchestrator::BagContentResponse { explorer_id, .. } => explorer_id,
        ExplorerToOrchestrator::NeighborsRequest { explorer_id, .. } => explorer_id,
        ExplorerToOrchestrator::TravelToPlanetRequest { explorer_id, .. } => explorer_id,
    }
}

/// The discriminant of a planet message.
pub open spec fn planet_msg_kind(m: PlanetToOrchestrator) -> PlanetToOrchestratorKind {
    match m {
        PlanetToOrchestrator::SunrayAck { .. } => PlanetToOrchestratorKind::SunrayAck,
        PlanetToOrchestrator::AsteroidAck { .. } => PlanetToOrchestratorKind::AsteroidAck,
        PlanetToOrchestrator::StartPlanetAIResult { .. } => PlanetToOrchestratorKind::StartPlanetAIResult,
        PlanetToOrchestrator::StopPlanetAIResult { .. } => PlanetToOrchestratorKind::StopPlanetAIResult,
        PlanetToOrchestrator::KillPlanetResult { .. } => PlanetToOrchestratorKind::KillPlanetResult,
        PlanetToOrchestrator::InternalStateResponse { .. } => PlanetToOrchestratorKind::InternalStateResponse,
        PlanetToOrchestrator::IncomingExplorerResponse { .. } => PlanetToOrchestratorKind::IncomingExplorerResponse,
        PlanetToOrchestrator::OutgoingExplorerResponse { .. } => PlanetToOrchestratorKind::OutgoingExplorerResponse,
        PlanetToOrchestrator::Stopped { .. } => PlanetToOrchestratorKind::Stopped,
    }
}

/// The planet that sent a planet message.
pub open spec fn planet_msg_sender(m: PlanetToOrchestrator) -> ID {
    match m {
        PlanetToOrchestrator::SunrayAck { planet_id } => planet_id,
        PlanetToOrchestrator::AsteroidAck { planet_id } => planet_id,
        PlanetToOrchestrator::StartPlanetAIResult { planet_id } => planet_id,
        PlanetToOrchestrator::StopPlanetAIResult { planet_id } => planet_id,
        PlanetToOrchestrator::KillPlanetResult { planet_id } => planet_id,
        PlanetToOrchestrator::InternalStateResponse { planet_id } => planet_id,
        PlanetToOrchestrator::IncomingExplorerResponse { planet_id, .. } => planet_id,
        PlanetToOrchestrator::OutgoingExplorerResponse { planet_id, .. } => planet_id,
        PlanetToOrchestrator::Stopped { planet_id } => planet_id,
    }
}

/// The kind of a received message, as conversations name what they wait for.
pub open spec fn message_kind<T>(msg: PossibleMessage<T>) -> PossibleExpectedKinds {
    match msg {
        PossibleMessage::PlanetToOrch(m) => PossibleExpectedKinds::PlanetToOrchKind(planet_msg_kind(m)),
        PossibleMessage::ExplorerToOrch(m) => PossibleExpectedKinds::ExplorerToOrchKind(explorer_msg_kind(m)),
    }
}

/// The (planet, explorer) pair a received message concerns: both ids for the
/// messages of the movement handshake, otherwise the sender alone.
pub open spec fn message_entities<T>(msg: PossibleMessage<T>) -> (Option<ID>, Option<ID>) {
    match msg {
        PossibleMessage::PlanetToOrch(PlanetToOrchestrator::IncomingExplorerResponse { planet_id, explorer_id, .. }) =>
            (Some(planet_id), Some(explorer_id)),
        PossibleMessage::PlanetToOrch(PlanetToOrchestrator::OutgoingExplorerResponse { planet_id, explorer_id, .. }) =>
            (Some(planet_id), Some(explorer_id)),
        PossibleMessage::ExplorerToOrch(ExplorerToOrchestrator::MovedToPlanetResult { explorer_id, planet_id }) =>
            (Some(planet_id), Some(explorer_id)),
        PossibleMessage::ExplorerToOrch(ExplorerToOrchestrator::TravelToPlanetRequest { explorer_id, current_planet_id, .. }) =>
            (Some(current_planet_id), Some(explorer_id)),
        PossibleMessage::PlanetToOrch(m) => (Some(planet_msg_sender(m)), None),
        PossibleMessage::ExplorerToOrch(m) => (None, Some(explorer_msg_sender(m))),
    }
}

impl<T> ExplorerToOrchestrator<T> {
    /// The discriminant of this message.
    pub fn kind(&self) -> (k: ExplorerToOrchestratorKind)
        ensures
            k == explorer_msg_kind(*self),
    {
        match self {
            ExplorerToOrchestrator::StartExplorerAIResult { .. } => ExplorerToOrchestratorKind::StartExplorerAIResult,
            ExplorerToOrchestrator::KillExplorerResult { .. } => ExplorerToOrchestratorKind::KillExplorerResult,
            ExplorerToOrchestrator::ResetExplorerAIResult { .. } => ExplorerToOrchestratorKind::ResetExplorerAIResult,
            ExplorerToOrchestrator::StopExplorerAIResult { .. } => ExplorerToOrchestratorKind::StopExplorerAIResult,
            ExplorerToOrchestrator::MovedToPlanetResult { .. } => ExplorerToOrchestratorKind::MovedToPlanetResult,
            ExplorerToOrchestrator::CurrentPlanetResult { .. } => ExplorerToOrchestratorKind::CurrentPlanetResult,
            ExplorerToOrchestrator::SupportedResourceResult { .. } => ExplorerToOrchestratorKind::SupportedResourceResult,
            ExplorerToOrchestrator::SupportedCombinationResult { .. } => ExplorerToOrchestratorKind::SupportedCombinationResult,
            ExplorerToOrchestrator::GenerateResourceResponse { .. } => ExplorerToOrchestratorKind::GenerateResourceResponse,
            ExplorerToOrchestrator::CombineResourceResponse { .. } => ExplorerToOrchestratorKind::CombineResourceResponse,
            ExplorerToOrchestrator::BagContentResponse { .. } => ExplorerToOrchestratorKind::BagContentResponse,
            ExplorerToOrchestrator::NeighborsRequest { .. } => ExplorerToOrchestratorKind::NeighborsRequest,
            ExplorerToOrchestrator::TravelToPlanetRequest { .. } => ExplorerToOrchestratorKind::TravelToPlanetRequest,
        }
    }

    /// The explorer that sent this message.
    pub fn explorer_id(&self) -> (id: ID)
        ensures
            id == explorer_msg_sender(*self),
    {
        match self {
            ExplorerToOrchestrator::StartExplorerAIResult { explorer_id } => *explorer_id,
            ExplorerToOrchestrator::KillExplorerResult { explorer_id } => *explorer_id,
            ExplorerToOrchestrator::ResetExplorerAIResult { explorer_id } => *explorer_id,
            ExplorerToOrchestrator::StopExplorerAIResult { explorer_id } => *explorer_id,
            ExplorerToOrchestrator::MovedToPlanetResult { explorer_id, .. } => *explorer_id,
            ExplorerToOrchestrator::CurrentPlanetResult { explorer_id, .. } => *explorer_id,
            ExplorerToOrchestrator::SupportedResourceResult { explorer_id, .. } => *explorer_id,
            ExplorerToOrchestrator::SupportedCombinationResult { explorer_id, .. } => *explorer_id,
            ExplorerToOrchestrator::GenerateResourceResponse { explorer_id, .. } => *explorer_id,
            ExplorerToOrchestrator::CombineResourceResponse { explorer_id, .. } => *explorer_id,
            ExplorerToOrchestrator::BagContentResponse { explorer_id, .. } => *explorer_id,
            ExplorerToOrchestrator::NeighborsRequest { explorer_id, .. } => *explorer_id,
            ExplorerToOrchestrator::TravelToPlanetRequest { explorer_id, .. } => *explorer_id,
        }
    }
}

impl PlanetToOrchestrator {
    /// The discriminant of this message.
    pub fn kind(&self) -> (k: PlanetToOrchestratorKind)
        ensures
            k == planet_msg_kind(*self),
    {
        match self {
            PlanetToOrchestrator::SunrayAck { .. } => PlanetToOrchestratorKind::SunrayAck,
            PlanetToOrchestrator::AsteroidAck { .. } => PlanetToOrchestratorKind::AsteroidAck,
            PlanetToOrchestrator::StartPlanetAIResult { .. } => PlanetToOrchestratorKind::StartPlanetAIResult,
            PlanetToOrchestrator::StopPlanetAIResult { .. } => PlanetToOrchestratorKind::StopPlanetAIResult,
            PlanetToOrchestrator::KillPlanetResult { .. } => PlanetToOrchestratorKind::KillPlanetResult,
            PlanetToOrchestrator::InternalStateResponse { .. } => PlanetToOrchestratorKind::InternalStateResponse,
            PlanetToOrchestrator::IncomingExplorerResponse { .. } => PlanetToOrchestratorKind::IncomingExplorerResponse,
            PlanetToOrchestrator::OutgoingExplorerResponse { .. } => PlanetToOrchestratorKind::OutgoingExplorerResponse,
            PlanetToOrchestrator::Stopped { .. } => PlanetToOrchestratorKind::Stopped,
        }
    }

    /// The planet that sent this message.
    pub fn planet_id(&self) -> (id: ID)
        ensures
            id == planet_msg_sender(*self),
    {
        match self {
            PlanetToOrchestrator::SunrayAck { planet_id } => *planet_id,
            PlanetToOrchestrator::AsteroidAck { planet_id } => *planet_id,
            PlanetToOrchestrator::StartPlanetAIResult { planet_id } => *planet_id,
            PlanetToOrchestrator::StopPlanetAIResult { planet_id } => *planet_id,
            PlanetToOrchestrator::KillPlanetResult { planet_id } => *planet_id,
            PlanetToOrchestrator::InternalStateResponse { planet_id } => *planet_id,
            PlanetToOrchestrator::IncomingExplorerResponse { planet_id, .. } => *planet_id,
            PlanetToOrchestrator::OutgoingExplorerResponse { planet_id, .. } => *planet_id,
            PlanetToOrchestrator::Stopped { planet_id } => *planet_id,
        }
    }
}

impl<T> PossibleMessage<T> {
    /// Extracts the kind (discriminant) of the message, to be matched against
    /// the kind a conversation waits for.
    pub fn to_kind_type(&self) -> (k: PossibleExpectedKinds)
        ensures
            k == message_kind(*self),
    {
        match self {
            PossibleMessage::PlanetToOrch(m) => PossibleExpectedKinds::PlanetToOrchKind(m.kind()),
            PossibleMessage::ExplorerToOrch(m) => PossibleExpectedKinds::ExplorerToOrchKind(m.kind()),
        }
    }

    /// The (planet, explorer) ids the message concerns.
    pub fn get_entity_ids(&self) -> (ids: (Option<ID>, Option<ID>))
        ensures
            ids == message_entities(*self),
    {
        match self {
            PossibleMessage::PlanetToOrch(PlanetToOrchestrator::IncomingExplorerResponse { planet_id, explorer_id, .. }) =>
                (Some(*planet_id), Some(*explorer_id)),
            PossibleMessage::PlanetToOrch(PlanetToOrchestrator::OutgoingExplorerResponse { planet_id, explorer_id, .. }) =>
                (Some(*planet_id), Some(*explorer_id)),
            PossibleMessage::ExplorerToOrch(ExplorerToOrchestrator::MovedToPlanetResult { explorer_id, planet_id }) =>
                (Some(*planet_id), Some(*explorer_id)),
            PossibleMessage::ExplorerToOrch(ExplorerToOrchestrator::TravelToPlanetRequest { explorer_id, current_planet_id, .. }) =>
                (Some(*current_planet_id), Some(*explorer_id)),
            PossibleMessage::PlanetToOrch(m) => (Some(m.planet_id()), None),
            PossibleMessage::ExplorerToOrch(m) => (None, Some(m.explorer_id())),
        }
    }
}

/// A command from the orchestrator to an explorer.
///
/// `MoveToPlanet` carries, when `grants_passage` holds, the sender towards
/// the planet `planet_id`; the caller attaches that sender on dispatch.
#[allow(inconsistent_fields)]
pub enum OrchestratorToExplorer {
    StartExplorerAI,
    ResetExplorerAI,
    KillExplorer,
    StopExplorerAI,
    MoveToPlanet { planet_id: ID, grants_passage: bool },
    CurrentPlanetRequest,
    SupportedResourceRequest,
    SupportedCombinationRequest,
    GenerateResourceRequest { to_generate: BasicResourceType },
    CombineResourceRequest { to_generate: ComplexResourceType },
    BagContentRequest,
    NeighborsResponse { neighbors: Vec<ID> },
}

/// A command from the orchestrator to a planet. `IncomingExplorerRequest`
/// carries the sender from the planet to the explorer, attached on dispatch.
#[derive(Debug, Clone, Copy, PartialEq, Eq, Structural)]
pub enum OrchestratorToPlanet {
    IncomingExplorerRequest { explorer_id: ID },
    OutgoingExplorerRequest { explorer_id: ID },
}

/// An update forwarded to the user interface.
#[verifier::reject_recursive_types(T)]
pub enum OrchestratorToUiUpdate<T> {
    ExplorerSnapshot(ID, T),
    SupportedResources(ID, Vec<BasicResourceType>),
    SupportedCombinations(ID, Vec<ComplexResourceType>),
}

/// Something the orchestrator must send on behalf of a conversation.
#[verifier::reject_recursive_types(T)]
pub enum Action<T> {
    ToExplorer { explorer_id: ID, command: OrchestratorToExplorer },
    ToPlanet { planet_id: ID, request: OrchestratorToPlanet },
    ToUi(OrchestratorToUiUpdate<T>),
}

/// How the dispatch of an [`Action`] went (see [`dispatch_outcome`]).
#[derive(Debug, Clone, Copy, PartialEq, Eq, Structural)]
pub enum SendOutcome {
    /// The message was handed to the channel.
    Delivered,
    /// No channel towards the addressee is registered.
    SenderNotFound,
    /// The channel exists but its receiving end is gone.
    SendFailed,
    /// The channel that the message must carry is not registered.
    AttachedSenderNotFound,
}

/// The mathematical form of a command to an explorer.
#[allow(inconsistent_fields)]
pub enum ExplorerCommandView {
    StartExplorerAI,
    ResetExplorerAI,
    KillExplorer,
    StopExplorerAI,
    MoveToPlanet { planet_id: ID, grants_passage: bool },
    CurrentPlanetRequest,
    SupportedResourceRequest,
    SupportedCombinationRequest,
    GenerateResourceRequest { to_generate: BasicResourceType },
    CombineResourceRequest { to_generate: ComplexResourceType },
    BagContentRequest,
    NeighborsResponse { neighbors: Seq<ID> },
}

impl View for OrchestratorToExplorer {
    type V = ExplorerCommandView;

    open spec fn view(&self) -> ExplorerCommandView {
        match self {
            OrchestratorToExplorer::StartExplorerAI => ExplorerCommandView::StartExplorerAI,
            OrchestratorToExplorer::ResetExplorerAI => ExplorerCommandView::ResetExplorerAI,
            OrchestratorToExplorer::KillExplorer => ExplorerCommandView::KillExplorer,
            OrchestratorToExplorer::StopExplorerAI => ExplorerCommandView::StopExplorerAI,
            OrchestratorToExplorer::MoveToPlanet { planet_id, grants_passage } =>
                ExplorerCommandView::MoveToPlanet { planet_id: *planet_id, grants_passage: *grants_passage },
            OrchestratorToExplorer::CurrentPlanetRequest => ExplorerCommandView::CurrentPlanetRequest,
            OrchestratorToExplorer::SupportedResourceRequest => ExplorerCommandView::SupportedResourceRequest,
            OrchestratorToExplorer::SupportedCombinationRequest => ExplorerCommandView::SupportedCombinationRequest,
            OrchestratorToExplorer::GenerateResourceRequest { to_generate } =>
                ExplorerCommandView::GenerateResourceRequest { to_generate: *to_generate },
            OrchestratorToExplorer::CombineResourceRequest { to_generate } =>
                ExplorerCommandView::CombineResourceRequest { to_generate: *to_generate },
            OrchestratorToExplorer::BagContentRequest => ExplorerCommandView::BagContentRequest,
            OrchestratorToExplorer::NeighborsResponse { neighbors } =>
                ExplorerCommandView::NeighborsResponse { neighbors: neighbors@ },
        }
    }
}

/// The mathematical form of an update to the user interface.
#[verifier::reject_recursive_types(T)]
pub enum UiUpdateView<T> {
    ExplorerSnapshot(ID, T),
    SupportedResources(ID, Seq<BasicResourceType>),
    SupportedCombinations(ID, Seq<ComplexResourceType>),
}

impl<T> View for OrchestratorToUiUpdate<T> {
    type V = UiUpdateView<T>;

    open spec fn view(&self) -> UiUpdateView<T> {
        match self {
            OrchestratorToUiUpdate::ExplorerSnapshot(id, bag) => UiUpdateView::ExplorerSnapshot(*id, *bag),
            OrchestratorToUiUpdate::SupportedResources(id, v) => UiUpdateView::SupportedResources(*id, v@),
            OrchestratorToUiUpdate::SupportedCombinations(id, v) => UiUpdateView::SupportedCombinations(*id, v@),
        }
    }
}

/// The mathematical form of an [`Action`].
#[verifier::reject_recursive_types(T)]
pub enum ActionView<T> {
    ToExplorer { explorer_id: ID, command: ExplorerCommandView },
    ToPlanet { planet_id: ID, request: OrchestratorToPlanet },
    ToUi(UiUpdateView<T>),
}

impl<T> View for Action<T> {
    type V = ActionView<T>;

    open spec fn view(&self) -> ActionView<T> {
        match self {
            Action::ToExplorer { explorer_id, command } =>
                ActionView::ToExplorer { explorer_id: *explorer_id, command: command@ },
            Action::ToPlanet { planet_id, request } =>
                ActionView::ToPlanet { planet_id: *planet_id, request: *request },
            Action::ToUi(u) => ActionView::ToUi(u@),
        }
    }
}

/// A channel that a message hands over, besides the one it travels on.
#[derive(Debug, Clone, Copy, PartialEq, Eq, Structural)]
pub enum CarriedChannel {
    /// The sender from explorers to this planet, handed to an explorer that
    /// is granted passage to it.
    ExplorerToPlanet(ID),
    /// The sender from planets to this explorer, handed to the planet that
    /// takes it in.
    PlanetToExplorer(ID),
}

/// The channel that the message of action `a` carries, if any.
pub open spec fn carried_channel_spec<T>(a: ActionView<T>) -> Option<CarriedChannel> {
    match a {
        ActionView::ToExplorer { command: ExplorerCommandView::MoveToPlanet { planet_id, grants_passage }, .. } =>
            if grants_passage { Some(CarriedChannel::ExplorerToPlanet(planet_id)) } else { None },
        ActionView::ToPlanet { request: OrchestratorToPlanet::IncomingExplorerRequest { explorer_id }, .. } =>
            Some(CarriedChannel::PlanetToExplorer(explorer_id)),
        _ => None,
    }
}

impl<T> Action<T> {
    /// The channel that the message of this action carries, if any.
    pub fn carried_channel(&self) -> (c: Option<CarriedChannel>)
        ensures
            c == carried_channel_spec(self@),
    {
        match self {
            Action::ToExplorer { command: OrchestratorToExplorer::MoveToPlanet { planet_id, grants_passage }, .. } =>
                if *grants_passage { Some(CarriedChannel::ExplorerToPlanet(*planet_id)) } else { None },
            Action::ToPlanet { request: OrchestratorToPlanet::IncomingExplorerRequest { explorer_id }, .. } =>
                Some(CarriedChannel::PlanetToExplorer(*explorer_id)),
            _ => None,
        }
    }
}

/// How a dispatch goes: the carried channel, when one is needed, is looked up
/// first, then the addressee's channel, and only then is the message sent.
pub open spec fn dispatch_outcome_spec(
    needs_attachment: bool,
    attachment_found: bool,
    addressee_found: bool,
    sent: bool,
) -> SendOutcome {
    if needs_attachment && !attachment_found {
        SendOutcome::AttachedSenderNotFound
    } else if !addressee_found {
        SendOutcome::SenderNotFound
    } else if !sent {
        SendOutcome::SendFailed
    } else {
        SendOutcome::Delivered
    }
}

/// Whether the message can be sent: every channel it needs was found.
pub fn ready_to_send(needs_attachment: bool, attachment_found: bool, addressee_found: bool) -> (b: bool)
    ensures
        b == (dispatch_outcome_spec(needs_attachment, attachment_found, addressee_found, true)
            == SendOutcome::Delivered),
        b == ((!needs_attachment || attachment_found) && addressee_found),
{
    (!needs_attachment || attachment_found) && addressee_found
}

/// The outcome of a dispatch, given whether the carried channel was needed
/// and found, whether the addressee's channel was found, and whether the
/// send went through (meaningful only when both were found).
pub fn dispatch_outcome(
    needs_attachment: bool,
    attachment_found: bool,
    addressee_found: bool,
    sent: bool,
) -> (o: SendOutcome)
    ensures
        o == dispatch_outcome_spec(needs_attachment, attachment_found, addressee_found, sent),
{
    if needs_attachment && !attachment_found {
        SendOutcome::AttachedSenderNotFound
    } else if !addressee_found {
        SendOutcome::SenderNotFound
    } else if !sent {
        SendOutcome::SendFailed
    } else {
        SendOutcome::Delivered
    }
}

} // verus!
