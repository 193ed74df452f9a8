//! What a conversation does when the orchestrator advances it: the
//! transition function of every state.
//!
//! A transition consumes the conversation and, optionally, the message routed
//! to it. It either closes the conversation, moves it to its next state, asks
//! the orchestrator to release the channels of a dead explorer, or asks it to
//! send something. In the last case the orchestrator reports how the sending
//! went to the returned [`AfterDispatch`], which yields the next state.
use crate::conversation::{opt_conv_view, ConvView, Conversation};
use crate::errors::{ConvoError, ErrorView};
use crate::galaxy::{are_neighbors, Galaxy};
use crate::locations::ExplorerLocations;
use crate::messages::{
    Action, ActionView, ExplorerCommandView, ExplorerToOrchestrator, OrchestratorToExplorer,
    OrchestratorToPlanet, OrchestratorToUiUpdate, PlanetToOrchestrator, PossibleMessage, SendOutcome,
    UiUpdateView, ID,
};
use crate::states::{
    queue_view, ConvoState, KillExplorersManager, KillQueueView, SendIncomingRequest,
    SendManualMoveRequest, SendMoveRequest, SendOutgoingRequest, SendingBagContentRequest,
    SendingCombineResourceRequest, SendingCraftResourceRequest, SendingDeadExpAdv,
    SendingExplorerReset, SendingExplorerStart, SendingExplorerStop, SendingKillExplorer,
    SendingNeighbors, SendingSupportedCombinationRequest, SendingSupportedResourcesRequest,
    StateView, WaitingDeadExpAdvResult, WaitingExplorerNeighborsRequest, WaitingTravelRequest,
    WaitMoveToPlanetResponse, WaitingBagContentResponse, WaitingCombineResourceResult,
    WaitingCraftResourceResult, WaitingExplorerResetResult, WaitingExplorerStartResult,
    WaitingExplorerStopResult, WaitingIncomingResponse, WaitingKillExplorerResult,
    WaitingOutgoingResponse, WaitingSupportedCombinationResult, WaitingSupportedResourcesResult,
};
use vstd::prelude::*;

verus! {

/// What the orchestrator does with a sending, once it knows how it went.
///
/// For a sending that carries no channel, the outcome
/// [`SendOutcome::AttachedSenderNotFound`] cannot arise; it is answered like a
/// missing addressee.
pub struct AfterDispatch {
    id: ID,
    on_delivered: Option<Conversation>,
    missing_sender: ConvoError,
    send_failed: ConvoError,
    missing_attachment: ConvoError,
}

/// The mathematical form of an [`AfterDispatch`]: the conversation that
/// follows a delivery (`None`: the conversation ends), and the error for each
/// way the sending can fail.
pub struct AfterDispatchView {
    pub id: ID,
    pub on_delivered: Option<ConvView>,
    pub missing_sender: ErrorView,
    pub send_failed: ErrorView,
    pub missing_attachment: ErrorView,
}

impl View for AfterDispatch {
    type V = AfterDispatchView;

    closed spec fn view(&self) -> AfterDispatchView {
        AfterDispatchView {
            id: self.id,
            on_delivered: opt_conv_view(self.on_delivered),
            missing_sender: self.missing_sender@,
            send_failed: self.send_failed@,
            missing_attachment: self.missing_attachment@,
        }
    }
}

/// The result of advancing a conversation.
#[verifier::reject_recursive_types(T)]
pub enum Step<T> {
    /// The conversation is over.
    Close,
    /// The conversation moves to this state.
    Next(Conversation),
    /// Send this, then hand the outcome to the [`AfterDispatch`].
    Dispatch(Action<T>, AfterDispatch),
    /// Drop the channels of this (dead) explorer, then go on with the
    /// conversation given, or end if there is none.
    ReleaseChannels(ID, Option<Conversation>),
}

/// The mathematical form of a [`Step`].
#[verifier::reject_recursive_types(T)]
pub enum StepView<T> {
    Close,
    Next(ConvView),
    Dispatch(ActionView<T>, AfterDispatchView),
    ReleaseChannels(ID, Option<ConvView>),
}

impl<T> View for Step<T> {
    type V = StepView<T>;

    open spec fn view(&self) -> StepView<T> {
        match self {
            Step::Close => StepView::Close,
            Step::Next(c) => StepView::Next(c@),
            Step::Dispatch(a, r) => StepView::Dispatch(a@, r@),
            Step::ReleaseChannels(e, c) => StepView::ReleaseChannels(*e, opt_conv_view(*c)),
        }
    }
}

// --- Specification ---

/// Conversation `id` in state `s`.
pub open spec fn conv(id: ID, s: StateView) -> ConvView {
    ConvView { id, state: s }
}

/// Conversation `id` in its error state, for error `e`.
pub open spec fn failed(id: ID, e: ErrorView) -> ConvView {
    conv(id, StateView::Failed(e))
}

/// Conversation `id` received a message it was not waiting for.
pub open spec fn wrong_message<T>(id: ID) -> StepView<T> {
    StepView::Next(failed(id, ErrorView::WrongMessage))
}

/// Send `command` to explorer `explorer_id`; on delivery continue with
/// `next`.
pub open spec fn explorer_dispatch<T>(
    id: ID,
    explorer_id: ID,
    command: ExplorerCommandView,
    next: Option<ConvView>,
    missing_attachment: ErrorView,
) -> StepView<T> {
    StepView::Dispatch(
        ActionView::ToExplorer { explorer_id, command },
        AfterDispatchView {
            id,
            on_delivered: next,
            missing_sender: ErrorView::ExplorerSenderNotFound(explorer_id),
            send_failed: ErrorView::MessageToExplorerFailed(explorer_id),
            missing_attachment,
        },
    )
}

/// Send `request` to planet `planet_id`; on delivery continue with `next`;
/// when the channel is closed, fail with `send_failed`.
pub open spec fn planet_dispatch<T>(
    id: ID,
    planet_id: ID,
    request: OrchestratorToPlanet,
    next: Option<ConvView>,
    send_failed: ErrorView,
    missing_attachment: ErrorView,
) -> StepView<T> {
    StepView::Dispatch(
        ActionView::ToPlanet { planet_id, request },
        AfterDispatchView {
            id,
            on_delivered: next,
            missing_sender: ErrorView::PlanetSenderNotFound(planet_id),
            send_failed,
            missing_attachment,
        },
    )
}

/// Forward `update` to the user interface; on delivery the conversation ends.
pub open spec fn ui_dispatch<T>(id: ID, update: UiUpdateView<T>) -> StepView<T> {
    StepView::Dispatch(
        ActionView::ToUi(update),
        AfterDispatchView {
            id,
            on_delivered: None,
            missing_sender: ErrorView::MessageToUiFailed,
            send_failed: ErrorView::MessageToUiFailed,
            missing_attachment: ErrorView::MessageToUiFailed,
        },
    )
}

/// Where a kill sequence goes once its explorer is dealt with: back to the
/// queue it came from, or to its end.
pub open spec fn after_kill(id: ID, q: Option<KillQueueView>) -> Option<ConvView> {
    match q {
        Some(m) => Some(conv(id, StateView::KillExplorersManager(m))),
        None => None,
    }
}

/// The transition of a state that acts without waiting, when no message is
/// routed to it.
pub open spec fn request_step<T>(id: ID, s: StateView) -> StepView<T> {
    match s {
        StateView::SendingBagContentRequest(x) => explorer_dispatch(
            id,
            x.explorer_id,
            ExplorerCommandView::BagContentRequest,
            Some(conv(id, StateView::WaitingBagContentResponse(WaitingBagContentResponse { explorer_id: x.explorer_id }))),
            ErrorView::ExplorerSenderNotFound(x.explorer_id),
        ),
        StateView::SendingKillExplorer(x, q) => explorer_dispatch(
            id,
            x.explorer_id,
            ExplorerCommandView::KillExplorer,
            Some(conv(id, StateView::WaitingKillExplorerResult(
                WaitingKillExplorerResult {
                    explorer_id: x.explorer_id,
                    curr_planet_id: x.curr_planet_id,
                    handle_outgoing: x.handle_outgoing,
                },
                q,
            ))),
            ErrorView::ExplorerSenderNotFound(x.explorer_id),
        ),
        StateView::SendingDeadExpAdv(x, q) => planet_dispatch(
            id,
            x.planet_id,
            OrchestratorToPlanet::OutgoingExplorerRequest { explorer_id: x.explorer_id },
            Some(conv(id, StateView::WaitingDeadExpAdvResult(
                WaitingDeadExpAdvResult { planet_id: x.planet_id, explorer_id: x.explorer_id },
                q,
            ))),
            ErrorView::MessageToPlanetFailed(x.planet_id),
            ErrorView::PlanetSenderNotFound(x.planet_id),
        ),
        StateView::SendingExplorerStart(x) => explorer_dispatch(
            id,
            x.explorer_id,
            ExplorerCommandView::StartExplorerAI,
            Some(conv(id, StateView::WaitingExplorerStartResult(WaitingExplorerStartResult { explorer_id: x.explorer_id }))),
            ErrorView::ExplorerSenderNotFound(x.explorer_id),
        ),
        StateView::SendingExplorerStop(x) => explorer_dispatch(
            id,
            x.explorer_id,
            ExplorerCommandView::StopExplorerAI,
            Some(conv(id, StateView::WaitingExplorerStopResult(WaitingExplorerStopResult { explorer_id: x.explorer_id }))),
            ErrorView::ExplorerSenderNotFound(x.explorer_id),
        ),
        StateView::SendingExplorerReset(x) => explorer_dispatch(
            id,
            x.explorer_id,
            ExplorerCommandView::ResetExplorerAI,
            Some(conv(id, StateView::WaitingExplorerResetResult(WaitingExplorerResetResult { explorer_id: x.explorer_id }))),
            ErrorView::ExplorerSenderNotFound(x.explorer_id),
        ),
        StateView::SendingNeighbors { explorer_id, neighbors } => explorer_dispatch(
            id,
            explorer_id,
            ExplorerCommandView::NeighborsResponse { neighbors },
            None,
            ErrorView::ExplorerSenderNotFound(explorer_id),
        ),
        StateView::SendingSupportedResourcesRequest(x) => explorer_dispatch(
            id,
            x.explorer_id,
            ExplorerCommandView::SupportedResourceRequest,
            Some(conv(id, StateView::WaitingSupportedResourcesResult(WaitingSupportedResourcesResult { explorer_id: x.explorer_id }))),
            ErrorView::ExplorerSenderNotFound(x.explorer_id),
        ),
        StateView::SendingSupportedCombinationRequest(x) => explorer_dispatch(
            id,
            x.explorer_id,
            ExplorerCommandView::SupportedCombinationRequest,
            Some(conv(id, StateView::WaitingSupportedCombinationResult(WaitingSupportedCombinationResult { explorer_id: x.explorer_id }))),
            ErrorView::ExplorerSenderNotFound(x.explorer_id),
        ),
        StateView::SendingCraftResourceRequest(x) => explorer_dispatch(
            id,
            x.explorer_id,
            ExplorerCommandView::GenerateResourceRequest { to_generate: x.to_craft },
            Some(conv(id, StateView::WaitingCraftResourceResult(
                WaitingCraftResourceResult { explorer_id: x.explorer_id, to_craft: x.to_craft },
            ))),
            ErrorView::ExplorerSenderNotFound(x.explorer_id),
        ),
        StateView::SendingCombineResourceRequest(x) => explorer_dispatch(
            id,
            x.explorer_id,
            ExplorerCommandView::CombineResourceRequest { to_generate: x.to_combine },
            Some(conv(id, StateView::WaitingCombineResourceResult(
                WaitingCombineResourceResult { explorer_id: x.explorer_id, to_combine: x.to_combine },
            ))),
            ErrorView::ExplorerSenderNotFound(x.explorer_id),
        ),
        StateView::SendManualMoveRequest(x) => StepView::Next(conv(id, StateView::SendIncomingRequest(
            SendIncomingRequest {
                explorer_id: x.explorer_id,
                dst_planet_id: x.dst_planet_id,
                curr_planet_id: x.curr_planet_id,
            },
        ))),
        StateView::SendIncomingRequest(x) => planet_dispatch(
            id,
            x.dst_planet_id,
            OrchestratorToPlanet::IncomingExplorerRequest { explorer_id: x.explorer_id },
            Some(conv(id, StateView::WaitingIncomingResponse(
                WaitingIncomingResponse {
                    explorer_id: x.explorer_id,
                    dst_planet_id: x.dst_planet_id,
                    curr_planet_id: x.curr_planet_id,
                },
            ))),
            ErrorView::IncomingMessageFailed(x.dst_planet_id),
            ErrorView::ExplorerSenderNotFound(x.explorer_id),
        ),
        StateView::SendOutgoingRequest(x) => planet_dispatch(
            id,
            x.curr_planet_id,
            OrchestratorToPlanet::OutgoingExplorerRequest { explorer_id: x.explorer_id },
            Some(conv(id, StateView::WaitingOutgoingResponse(
                WaitingOutgoingResponse {
                    explorer_id: x.explorer_id,
                    curr_planet_id: x.curr_planet_id,
                    dst_planet_id: x.dst_planet_id,
                },
            ))),
            ErrorView::IncomingMessageFailed(x.curr_planet_id),
            ErrorView::PlanetSenderNotFound(x.curr_planet_id),
        ),
        StateView::SendMoveRequest(x) => explorer_dispatch(
            id,
            x.explorer_id,
            ExplorerCommandView::MoveToPlanet { planet_id: x.dst_planet_id, grants_passage: x.is_explorer_moving },
            Some(conv(id, StateView::WaitMoveToPlanetResponse(
                WaitMoveToPlanetResponse {
                    explorer_id: x.explorer_id,
                    dst_planet_id: x.dst_planet_id,
                    is_explorer_moving: x.is_explorer_moving,
                },
            ))),
            ErrorView::NewSenderToPlanetNotFound(x.dst_planet_id),
        ),
        _ => StepView::Close,
    }
}

/// Whether a state acts without waiting for a message (the queue of kills and
/// the error state excepted, which ignore any message).
pub open spec fn is_request_state(s: StateView) -> bool {
    match s {
        StateView::SendingBagContentRequest(_) => true,
        StateView::SendingKillExplorer(_, _) => true,
        StateView::SendingDeadExpAdv(_, _) => true,
        StateView::SendingExplorerStart(_) => true,
        StateView::SendingExplorerStop(_) => true,
        StateView::SendingExplorerReset(_) => true,
        StateView::SendingNeighbors { .. } => true,
        StateView::SendingSupportedResourcesRequest(_) => true,
        StateView::SendingSupportedCombinationRequest(_) => true,
        StateView::SendingCraftResourceRequest(_) => true,
        StateView::SendingCombineResourceRequest(_) => true,
        StateView::SendManualMoveRequest(_) => true,
        StateView::SendIncomingRequest(_) => true,
        StateView::SendOutgoingRequest(_) => true,
        StateView::SendMoveRequest(_) => true,
        _ => false,
    }
}

/// The transition of a state that waits for a message.
pub open spec fn wait_step<T>(
    id: ID,
    s: StateView,
    msg: Option<PossibleMessage<T>>,
    g: Map<ID, Seq<ID>>,
) -> StepView<T> {
    match s {
        StateView::WaitingBagContentResponse(_) => match msg {
            Some(PossibleMessage::ExplorerToOrch(ExplorerToOrchestrator::BagContentResponse { explorer_id, bag_content })) =>
                ui_dispatch(id, UiUpdateView::ExplorerSnapshot(explorer_id, bag_content)),
            _ => wrong_message(id),
        },
        StateView::WaitingKillExplorerResult(x, q) => match msg {
            Some(PossibleMessage::ExplorerToOrch(ExplorerToOrchestrator::KillExplorerResult { explorer_id })) =>
                StepView::ReleaseChannels(
                    explorer_id,
                    if x.handle_outgoing {
                        Some(conv(id, StateView::SendingDeadExpAdv(
                            SendingDeadExpAdv { planet_id: x.curr_planet_id, explorer_id: x.explorer_id },
                            q,
                        )))
                    } else {
                        after_kill(id, q)
                    },
                ),
            _ => wrong_message(id),
        },
        StateView::WaitingDeadExpAdvResult(_, q) => match msg {
            Some(PossibleMessage::PlanetToOrch(PlanetToOrchestrator::OutgoingExplorerResponse { planet_id, explorer_id, res })) =>
                if res is Ok {
                    match after_kill(id, q) {
                        Some(n) => StepView::Next(n),
                        None => StepView::Close,
                    }
                } else {
                    StepView::Next(failed(id, ErrorView::CurrPlanetFailed { planet_id, explorer_id }))
                },
            _ => wrong_message(id),
        },
        StateView::WaitingExplorerStartResult(_) => match msg {
            Some(PossibleMessage::ExplorerToOrch(ExplorerToOrchestrator::StartExplorerAIResult { .. })) => StepView::Close,
            _ => wrong_message(id),
        },
        StateView::WaitingExplorerStopResult(_) => match msg {
            Some(PossibleMessage::ExplorerToOrch(ExplorerToOrchestrator::StopExplorerAIResult { .. })) => StepView::Close,
            _ => wrong_message(id),
        },
        StateView::WaitingExplorerResetResult(_) => match msg {
            Some(PossibleMessage::ExplorerToOrch(ExplorerToOrchestrator::ResetExplorerAIResult { .. })) => StepView::Close,
            _ => wrong_message(id),
        },
        StateView::WaitingExplorerNeighborsRequest(x) => match msg {
            Some(PossibleMessage::ExplorerToOrch(ExplorerToOrchestrator::NeighborsRequest { current_planet_id, .. })) =>
                if g.contains_key(current_planet_id) {
                    StepView::Next(conv(id, StateView::SendingNeighbors {
                        explorer_id: x.explorer_id,
                        neighbors: g[current_planet_id],
                    }))
                } else {
                    StepView::Next(failed(id, ErrorView::PlanetNotFound(current_planet_id)))
                },
            _ => wrong_message(id),
        },
        StateView::WaitingSupportedResourcesResult(_) => match msg {
            Some(PossibleMessage::ExplorerToOrch(ExplorerToOrchestrator::SupportedResourceResult { explorer_id, supported_resources })) =>
                ui_dispatch(id, UiUpdateView::SupportedResources(explorer_id, supported_resources@)),
            _ => wrong_message(id),
        },
        StateView::WaitingSupportedCombinationResult(_) => match msg {
            Some(PossibleMessage::ExplorerToOrch(ExplorerToOrchestrator::SupportedCombinationResult { explorer_id, combination_list })) =>
                ui_dispatch(id, UiUpdateView::SupportedCombinations(explorer_id, combination_list@)),
            _ => wrong_message(id),
        },
        StateView::WaitingCraftResourceResult(x) => match msg {
            Some(PossibleMessage::ExplorerToOrch(ExplorerToOrchestrator::GenerateResourceResponse { explorer_id, generated })) =>
                match generated {
                    Ok(_) => StepView::Close,
                    Err(e) => StepView::Next(failed(id, ErrorView::CraftingFailed { explorer_id, err: e@, resource: x.to_craft })),
                },
            _ => wrong_message(id),
        },
        StateView::WaitingCombineResourceResult(x) => match msg {
            Some(PossibleMessage::ExplorerToOrch(ExplorerToOrchestrator::CombineResourceResponse { explorer_id, generated })) =>
                match generated {
                    Ok(_) => StepView::Close,
                    Err(e) => StepView::Next(failed(id, ErrorView::CombineFailed { explorer_id, err: e@, combination: x.to_combine })),
                },
            _ => wrong_message(id),
        },
        StateView::WaitingTravelRequest(_) => match msg {
            Some(PossibleMessage::ExplorerToOrch(ExplorerToOrchestrator::TravelToPlanetRequest { explorer_id, current_planet_id, dst_planet_id })) =>
                if are_neighbors(g, current_planet_id, dst_planet_id) {
                    StepView::Next(conv(id, StateView::SendIncomingRequest(
                        SendIncomingRequest { explorer_id, dst_planet_id, curr_planet_id: Some(current_planet_id) },
                    )))
                } else {
                    StepView::Next(conv(id, StateView::SendMoveRequest(
                        SendMoveRequest { explorer_id, dst_planet_id, is_explorer_moving: false },
                    )))
                },
            _ => wrong_message(id),
        },
        StateView::WaitingIncomingResponse(x) => match msg {
            Some(PossibleMessage::PlanetToOrch(PlanetToOrchestrator::IncomingExplorerResponse { res, .. })) =>
                if res is Ok {
                    match x.curr_planet_id {
                        Some(curr) => StepView::Next(conv(id, StateView::SendOutgoingRequest(
                            SendOutgoingRequest { explorer_id: x.explorer_id, curr_planet_id: curr, dst_planet_id: x.dst_planet_id },
                        ))),
                        None => StepView::Next(conv(id, StateView::SendMoveRequest(
                            SendMoveRequest { explorer_id: x.explorer_id, dst_planet_id: x.dst_planet_id, is_explorer_moving: true },
                        ))),
                    }
                } else {
                    StepView::Next(conv(id, StateView::SendMoveRequest(
                        SendMoveRequest { explorer_id: x.explorer_id, dst_planet_id: x.dst_planet_id, is_explorer_moving: false },
                    )))
                },
            _ => wrong_message(id),
        },
        StateView::WaitingOutgoingResponse(x) => match msg {
            Some(PossibleMessage::PlanetToOrch(PlanetToOrchestrator::OutgoingExplorerResponse { planet_id, explorer_id, res })) =>
                if res is Ok {
                    StepView::Next(conv(id, StateView::SendMoveRequest(
                        SendMoveRequest { explorer_id: x.explorer_id, dst_planet_id: x.dst_planet_id, is_explorer_moving: true },
                    )))
                } else {
                    StepView::Next(failed(id, ErrorView::CurrPlanetFailed { planet_id, explorer_id }))
                },
            _ => wrong_message(id),
        },
        StateView::WaitMoveToPlanetResponse(_) => match msg {
            Some(PossibleMessage::ExplorerToOrch(ExplorerToOrchestrator::MovedToPlanetResult { .. })) => StepView::Close,
            _ => wrong_message(id),
        },
        _ => StepView::Close,
    }
}

/// The transition of a queue of kills: the last explorer of the queue is
/// killed next, the queue keeping the others; an empty queue ends.
pub open spec fn manager_step<T>(id: ID, q: KillQueueView) -> StepView<T> {
    if q.targets.len() == 0 {
        StepView::Close
    } else {
        StepView::Next(conv(id, StateView::SendingKillExplorer(
            SendingKillExplorer {
                explorer_id: q.targets.last().0,
                curr_planet_id: q.targets.last().1,
                handle_outgoing: q.handle_outgoing,
            },
            Some(KillQueueView { targets: q.targets.drop_last(), handle_outgoing: q.handle_outgoing }),
        )))
    }
}

/// The transition of conversation `c` given the routed message `msg`, in a
/// galaxy whose neighbor lists are `g`.
pub open spec fn step_spec<T>(c: ConvView, msg: Option<PossibleMessage<T>>, g: Map<ID, Seq<ID>>) -> StepView<T> {
    match c.state {
        StateView::Failed(_) => StepView::Close,
        StateView::KillExplorersManager(q) => manager_step(c.id, q),
        _ =>
            if is_request_state(c.state) {
                if msg is Some {
                    wrong_message(c.id)
                } else {
                    request_step(c.id, c.state)
                }
            } else {
                wait_step(c.id, c.state, msg, g)
            },
    }
}

/// The explorer locations after the transition of `c` given `msg`: a confirmed
/// kill forgets the explorer; a confirmed, granted move records its new planet.
pub open spec fn locations_after<T>(c: ConvView, msg: Option<PossibleMessage<T>>, l: Map<ID, ID>) -> Map<ID, ID> {
    match c.state {
        StateView::WaitingKillExplorerResult(x, _) => match msg {
            Some(PossibleMessage::ExplorerToOrch(ExplorerToOrchestrator::KillExplorerResult { .. })) => l.remove(x.explorer_id),
            _ => l,
        },
        StateView::WaitMoveToPlanetResponse(x) => match msg {
            Some(PossibleMessage::ExplorerToOrch(ExplorerToOrchestrator::MovedToPlanetResult { explorer_id, planet_id })) =>
                if x.is_explorer_moving { l.insert(explorer_id, planet_id) } else { l },
            _ => l,
        },
        _ => l,
    }
}

/// What a transition needs of the locations: a confirmed kill concerns an
/// explorer whose location is recorded.
pub open spec fn step_requires<T>(c: ConvView, msg: Option<PossibleMessage<T>>, l: Map<ID, ID>) -> bool {
    match c.state {
        StateView::WaitingKillExplorerResult(x, _) => match msg {
            Some(PossibleMessage::ExplorerToOrch(ExplorerToOrchestrator::KillExplorerResult { .. })) => l.contains_key(x.explorer_id),
            _ => true,
        },
        _ => true,
    }
}

/// The conversation that follows a sending, given how it went.
pub open spec fn resolve_spec(a: AfterDispatchView, outcome: SendOutcome) -> Option<ConvView> {
    match outcome {
        SendOutcome::Delivered => a.on_delivered,
        SendOutcome::SenderNotFound => Some(failed(a.id, a.missing_sender)),
        SendOutcome::SendFailed => Some(failed(a.id, a.send_failed)),
        SendOutcome::AttachedSenderNotFound => Some(failed(a.id, a.missing_attachment)),
    }
}

// --- Execution ---

impl AfterDispatch {
    /// The conversation that follows the sending, given how it went: the
    /// planned next state on delivery, the error state otherwise.
    pub fn resolve(self, outcome: SendOutcome) -> (next: Option<Conversation>)
        ensures
            opt_conv_view(next) == resolve_spec(self@, outcome),
    {
        match outcome {
            SendOutcome::Delivered => self.on_delivered,
            SendOutcome::SenderNotFound => Some(Conversation::new(self.id, ConvoState::Failed(self.missing_sender))),
            SendOutcome::SendFailed => Some(Conversation::new(self.id, ConvoState::Failed(self.send_failed))),
            SendOutcome::AttachedSenderNotFound =>
                Some(Conversation::new(self.id, ConvoState::Failed(self.missing_attachment))),
        }
    }
}

fn dispatch_to_explorer<T>(
    id: ID,
    explorer_id: ID,
    command: OrchestratorToExplorer,
    next: Option<Conversation>,
    missing_attachment: ConvoError,
) -> (r: Step<T>)
    ensures
        r@ == explorer_dispatch::<T>(id, explorer_id, command@, opt_conv_view(next), missing_attachment@),
{
    Step::Dispatch(
        Action::ToExplorer { explorer_id, command },
        AfterDispatch {
            id,
            on_delivered: next,
            missing_sender: ConvoError::ExplorerSenderNotFound(explorer_id),
            send_failed: ConvoError::MessageToExplorerFailed(explorer_id),
            missing_attachment,
        },
    )
}

fn dispatch_to_planet<T>(
    id: ID,
    planet_id: ID,
    request: OrchestratorToPlanet,
    next: Option<Conversation>,
    send_failed: ConvoError,
    missing_attachment: ConvoError,
) -> (r: Step<T>)
    ensures
        r@ == planet_dispatch::<T>(id, planet_id, request, opt_conv_view(next), send_failed@, missing_attachment@),
{
    Step::Dispatch(
        Action::ToPlanet { planet_id, request },
        AfterDispatch {
            id,
            on_delivered: next,
            missing_sender: ConvoError::PlanetSenderNotFound(planet_id),
            send_failed,
            missing_attachment,
        },
    )
}

fn dispatch_to_ui<T>(id: ID, update: OrchestratorToUiUpdate<T>) -> (r: Step<T>)
    ensures
        r@ == ui_dispatch::<T>(id, update@),
{
    Step::Dispatch(
        Action::ToUi(update),
        AfterDispatch {
            id,
            on_delivered: None,
            missing_sender: ConvoError::MessageToUiFailed,
            send_failed: ConvoError::MessageToUiFailed,
            missing_attachment: ConvoError::MessageToUiFailed,
        },
    )
}

fn reject_message<T>(id: ID) -> (r: Step<T>)
    ensures
        r@ == wrong_message::<T>(id),
{
    Step::Next(Conversation::new(id, ConvoState::Failed(ConvoError::WrongMessage)))
}

fn move_to<T>(id: ID, state: ConvoState) -> (r: Step<T>)
    ensures
        r@ == StepView::<T>::Next(conv(id, state@)),
{
    Step::Next(Conversation::new(id, state))
}

fn fail_with<T>(id: ID, e: ConvoError) -> (r: Step<T>)
    ensures
        r@ == StepView::<T>::Next(failed(id, e@)),
{
    Step::Next(Conversation::new(id, ConvoState::Failed(e)))
}

fn after_kill_exec(id: ID, q: Option<KillExplorersManager>) -> (next: Option<Conversation>)
    ensures
        opt_conv_view(next) == after_kill(id, queue_view(q)),
{
    match q {
        Some(m) => Some(Conversation::new(id, ConvoState::KillExplorersManager(m))),
        None => None,
    }
}

fn kill_manager_transition<T>(id: ID, m: KillExplorersManager) -> (r: Step<T>)
    ensures
        r@ == manager_step::<T>(id, m@),
{
    let mut m = m;
    match m.explorers_to_kill.pop() {
        Some((explorer_id, planet_id)) => {
            let handle_outgoing = m.handle_outgoing;
            move_to(id, ConvoState::SendingKillExplorer(
                SendingKillExplorer { explorer_id, curr_planet_id: planet_id, handle_outgoing },
                Some(m),
            ))
        },
        None => Step::Close,
    }
}

fn send_bag_content_req_transition<T>(id: ID, s: SendingBagContentRequest) -> (r: Step<T>)
    ensures
        r@ == request_step::<T>(id, StateView::SendingBagContentRequest(s)),
{
    dispatch_to_explorer(
        id,
        s.explorer_id,
        OrchestratorToExplorer::BagContentRequest,
        Some(Conversation::new(id, ConvoState::WaitingBagContentResponse(
            WaitingBagContentResponse { explorer_id: s.explorer_id },
        ))),
        ConvoError::ExplorerSenderNotFound(s.explorer_id),
    )
}

fn send_explorer_kill_transition<T>(id: ID, s: SendingKillExplorer, q: Option<KillExplorersManager>) -> (r: Step<T>)
    ensures
        r@ == request_step::<T>(id, StateView::SendingKillExplorer(s, queue_view(q))),
{
    dispatch_to_explorer(
        id,
        s.explorer_id,
        OrchestratorToExplorer::KillExplorer,
        Some(Conversation::new(id, ConvoState::WaitingKillExplorerResult(
            WaitingKillExplorerResult {
                explorer_id: s.explorer_id,
                curr_planet_id: s.curr_planet_id,
                handle_outgoing: s.handle_outgoing,
            },
            q,
        ))),
        ConvoError::ExplorerSenderNotFound(s.explorer_id),
    )
}

fn send_dead_exp_adv_transition<T>(id: ID, s: SendingDeadExpAdv, q: Option<KillExplorersManager>) -> (r: Step<T>)
    ensures
        r@ == request_step::<T>(id, StateView::SendingDeadExpAdv(s, queue_view(q))),
{
    dispatch_to_planet(
        id,
        s.planet_id,
        OrchestratorToPlanet::OutgoingExplorerRequest { explorer_id: s.explorer_id },
        Some(Conversation::new(id, ConvoState::WaitingDeadExpAdvResult(
            WaitingDeadExpAdvResult { planet_id: s.planet_id, explorer_id: s.explorer_id },
            q,
        ))),
        ConvoError::MessageToPlanetFailed(s.planet_id),
        ConvoError::PlanetSenderNotFound(s.planet_id),
    )
}

fn wait_dead_exp_adv_res_transition<T>(
    id: ID,
    s: WaitingDeadExpAdvResult,
    q: Option<KillExplorersManager>,
    msg: Option<PossibleMessage<T>>,
    galaxy: &Galaxy,
) -> (r: Step<T>)
    ensures
        r@ == wait_step(id, StateView::WaitingDeadExpAdvResult(s, queue_view(q)), msg, galaxy@),
{
    match msg {
        Some(PossibleMessage::PlanetToOrch(PlanetToOrchestrator::OutgoingExplorerResponse { planet_id, explorer_id, res })) =>
            if res.is_ok() {
                match after_kill_exec(id, q) {
                    Some(n) => Step::Next(n),
                    None => Step::Close,
                }
            } else {
                fail_with(id, ConvoError::CurrPlanetFailed { planet_id, explorer_id })
            },
        _ => reject_message(id),
    }
}

fn send_explorer_start_transition<T>(id: ID, s: SendingExplorerStart) -> (r: Step<T>)
    ensures
        r@ == request_step::<T>(id, StateView::SendingExplorerStart(s)),
{
    dispatch_to_explorer(
        id,
        s.explorer_id,
        OrchestratorToExplorer::StartExplorerAI,
        Some(Conversation::new(id, ConvoState::WaitingExplorerStartResult(
            WaitingExplorerStartResult { explorer_id: s.explorer_id },
        ))),
        ConvoError::ExplorerSenderNotFound(s.explorer_id),
    )
}

fn send_explorer_stop_transition<T>(id: ID, s: SendingExplorerStop) -> (r: Step<T>)
    ensures
        r@ == request_step::<T>(id, StateView::SendingExplorerStop(s)),
{
    dispatch_to_explorer(
        id,
        s.explorer_id,
        OrchestratorToExplorer::StopExplorerAI,
        Some(Conversation::new(id, ConvoState::WaitingExplorerStopResult(
            WaitingExplorerStopResult { explorer_id: s.explorer_id },
        ))),
        ConvoError::ExplorerSenderNotFound(s.explorer_id),
    )
}

fn send_explorer_reset_transition<T>(id: ID, s: SendingExplorerReset) -> (r: Step<T>)
    ensures
        r@ == request_step::<T>(id, StateView::SendingExplorerReset(s)),
{
    dispatch_to_explorer(
        id,
        s.explorer_id,
        OrchestratorToExplorer::ResetExplorerAI,
        Some(Conversation::new(id, ConvoState::WaitingExplorerResetResult(
            WaitingExplorerResetResult { explorer_id: s.explorer_id },
        ))),
        ConvoError::ExplorerSenderNotFound(s.explorer_id),
    )
}

fn send_neighbors_transition<T>(id: ID, s: SendingNeighbors) -> (r: Step<T>)
    ensures
        r@ == request_step::<T>(id, StateView::SendingNeighbors { explorer_id: s.explorer_id, neighbors: s.neighbors@ }),
{
    let explorer_id = s.explorer_id;
    dispatch_to_explorer(
        id,
        explorer_id,
        OrchestratorToExplorer::NeighborsResponse { neighbors: s.neighbors },
        None,
        ConvoError::ExplorerSenderNotFound(explorer_id),
    )
}

fn send_supp_resources_req_transition<T>(id: ID, s: SendingSupportedResourcesRequest) -> (r: Step<T>)
    ensures
        r@ == request_step::<T>(id, StateView::SendingSupportedResourcesRequest(s)),
{
    dispatch_to_explorer(
        id,
        s.explorer_id,
        OrchestratorToExplorer::SupportedResourceRequest,
        Some(Conversation::new(id, ConvoState::WaitingSupportedResourcesResult(
            WaitingSupportedResourcesResult { explorer_id: s.explorer_id },
        ))),
        ConvoError::ExplorerSenderNotFound(s.explorer_id),
    )
}

fn send_supp_comb_req_transition<T>(id: ID, s: SendingSupportedCombinationRequest) -> (r: Step<T>)
    ensures
        r@ == request_step::<T>(id, StateView::SendingSupportedCombinationRequest(s)),
{
    dispatch_to_explorer(
        id,
        s.explorer_id,
        OrchestratorToExplorer::SupportedCombinationRequest,
        Some(Conversation::new(id, ConvoState::WaitingSupportedCombinationResult(
            WaitingSupportedCombinationResult { explorer_id: s.explorer_id },
        ))),
        ConvoError::ExplorerSenderNotFound(s.explorer_id),
    )
}

fn send_craft_resource_req_transition<T>(id: ID, s: SendingCraftResourceRequest) -> (r: Step<T>)
    ensures
        r@ == request_step::<T>(id, StateView::SendingCraftResourceRequest(s)),
{
    dispatch_to_explorer(
        id,
        s.explorer_id,
        OrchestratorToExplorer::GenerateResourceRequest { to_generate: s.to_craft },
        Some(Conversation::new(id, ConvoState::WaitingCraftResourceResult(
            WaitingCraftResourceResult { explorer_id: s.explorer_id, to_craft: s.to_craft },
        ))),
        ConvoError::ExplorerSenderNotFound(s.explorer_id),
    )
}

fn send_comb_resource_req_transition<T>(id: ID, s: SendingCombineResourceRequest) -> (r: Step<T>)
    ensures
        r@ == request_step::<T>(id, StateView::SendingCombineResourceRequest(s)),
{
    dispatch_to_explorer(
        id,
        s.explorer_id,
        OrchestratorToExplorer::CombineResourceRequest { to_generate: s.to_combine },
        Some(Conversation::new(id, ConvoState::WaitingCombineResourceResult(
            WaitingCombineResourceResult { explorer_id: s.explorer_id, to_combine: s.to_combine },
        ))),
        ConvoError::ExplorerSenderNotFound(s.explorer_id),
    )
}

fn send_manual_move_req_transition<T>(id: ID, s: SendManualMoveRequest) -> (r: Step<T>)
    ensures
        r@ == request_step::<T>(id, StateView::SendManualMoveRequest(s)),
{
    move_to(id, ConvoState::SendIncomingRequest(SendIncomingRequest {
        explorer_id: s.explorer_id,
        dst_planet_id: s.dst_planet_id,
        curr_planet_id: s.curr_planet_id,
    }))
}

fn send_incoming_req_transition<T>(id: ID, s: SendIncomingRequest) -> (r: Step<T>)
    ensures
        r@ == request_step::<T>(id, StateView::SendIncomingRequest(s)),
{
    dispatch_to_planet(
        id,
        s.dst_planet_id,
        OrchestratorToPlanet::IncomingExplorerRequest { explorer_id: s.explorer_id },
        Some(Conversation::new(id, ConvoState::WaitingIncomingResponse(WaitingIncomingResponse {
            explorer_id: s.explorer_id,
            dst_planet_id: s.dst_planet_id,
            curr_planet_id: s.curr_planet_id,
        }))),
        ConvoError::IncomingMessageFailed(s.dst_planet_id),
        ConvoError::ExplorerSenderNotFound(s.explorer_id),
    )
}

fn send_outgoing_req_transition<T>(id: ID, s: SendOutgoingRequest) -> (r: Step<T>)
    ensures
        r@ == request_step::<T>(id, StateView::SendOutgoingRequest(s)),
{
    dispatch_to_planet(
        id,
        s.curr_planet_id,
        OrchestratorToPlanet::OutgoingExplorerRequest { explorer_id: s.explorer_id },
        Some(Conversation::new(id, ConvoState::WaitingOutgoingResponse(WaitingOutgoingResponse {
            explorer_id: s.explorer_id,
            curr_planet_id: s.curr_planet_id,
            dst_planet_id: s.dst_planet_id,
        }))),
        ConvoError::IncomingMessageFailed(s.curr_planet_id),
        ConvoError::PlanetSenderNotFound(s.curr_planet_id),
    )
}

fn send_move_req_transition<T>(id: ID, s: SendMoveRequest) -> (r: Step<T>)
    ensures
        r@ == request_step::<T>(id, StateView::SendMoveRequest(s)),
{
    dispatch_to_explorer(
        id,
        s.explorer_id,
        OrchestratorToExplorer::MoveToPlanet { planet_id: s.dst_planet_id, grants_passage: s.is_explorer_moving },
        Some(Conversation::new(id, ConvoState::WaitMoveToPlanetResponse(WaitMoveToPlanetResponse {
            explorer_id: s.explorer_id,
            dst_planet_id: s.dst_planet_id,
            is_explorer_moving: s.is_explorer_moving,
        }))),
        ConvoError::NewSenderToPlanetNotFound(s.dst_planet_id),
    )
}

fn wait_bag_content_res_transition<T>(id: ID, s: WaitingBagContentResponse, msg: Option<PossibleMessage<T>>, galaxy: &Galaxy) -> (r: Step<T>)
    ensures
        r@ == wait_step(id, StateView::WaitingBagContentResponse(s), msg, galaxy@),
{
    match msg {
        Some(PossibleMessage::ExplorerToOrch(ExplorerToOrchestrator::BagContentResponse { explorer_id, bag_content })) =>
            dispatch_to_ui(id, OrchestratorToUiUpdate::ExplorerSnapshot(explorer_id, bag_content)),
        _ => reject_message(id),
    }
}

fn wait_exp_kill_res_transition<T>(
    id: ID,
    s: WaitingKillExplorerResult,
    q: Option<KillExplorersManager>,
    msg: Option<PossibleMessage<T>>,
    galaxy: &Galaxy,
    locations: &mut ExplorerLocations,
) -> (r: Step<T>)
    requires
        step_requires(conv(id, StateView::WaitingKillExplorerResult(s, queue_view(q))), msg, old(locations)@),
    ensures
        r@ == wait_step(id, StateView::WaitingKillExplorerResult(s, queue_view(q)), msg, galaxy@),
        final(locations)@ == locations_after(conv(id, StateView::WaitingKillExplorerResult(s, queue_view(q))), msg, old(locations)@),
{
    match msg {
        Some(PossibleMessage::ExplorerToOrch(ExplorerToOrchestrator::KillExplorerResult { explorer_id })) => {
            let _ = locations.forget(s.explorer_id);
            let next = if s.handle_outgoing {
                Some(Conversation::new(id, ConvoState::SendingDeadExpAdv(
                    SendingDeadExpAdv { planet_id: s.curr_planet_id, explorer_id: s.explorer_id },
                    q,
                )))
            } else {
                after_kill_exec(id, q)
            };
            Step::ReleaseChannels(explorer_id, next)
        },
        _ => reject_message(id),
    }
}

fn wait_exp_start_res_transition<T>(id: ID, s: WaitingExplorerStartResult, msg: Option<PossibleMessage<T>>, galaxy: &Galaxy) -> (r: Step<T>)
    ensures
        r@ == wait_step(id, StateView::WaitingExplorerStartResult(s), msg, galaxy@),
{
    match msg {
        Some(PossibleMessage::ExplorerToOrch(ExplorerToOrchestrator::StartExplorerAIResult { .. })) => Step::Close,
        _ => reject_message(id),
    }
}

fn wait_exp_stop_res_transition<T>(id: ID, s: WaitingExplorerStopResult, msg: Option<PossibleMessage<T>>, galaxy: &Galaxy) -> (r: Step<T>)
    ensures
        r@ == wait_step(id, StateView::WaitingExplorerStopResult(s), msg, galaxy@),
{
    match msg {
        Some(PossibleMessage::ExplorerToOrch(ExplorerToOrchestrator::StopExplorerAIResult { .. })) => Step::Close,
        _ => reject_message(id),
    }
}

fn wait_exp_reset_res_transition<T>(id: ID, s: WaitingExplorerResetResult, msg: Option<PossibleMessage<T>>, galaxy: &Galaxy) -> (r: Step<T>)
    ensures
        r@ == wait_step(id, StateView::WaitingExplorerResetResult(s), msg, galaxy@),
{
    match msg {
        Some(PossibleMessage::ExplorerToOrch(ExplorerToOrchestrator::ResetExplorerAIResult { .. })) => Step::Close,
        _ => reject_message(id),
    }
}

fn wait_neighbors_req_transition<T>(id: ID, s: WaitingExplorerNeighborsRequest, msg: Option<PossibleMessage<T>>, galaxy: &Galaxy) -> (r: Step<T>)
    ensures
        r@ == wait_step(id, StateView::WaitingExplorerNeighborsRequest(s), msg, galaxy@),
{
    match msg {
        Some(PossibleMessage::ExplorerToOrch(ExplorerToOrchestrator::NeighborsRequest { current_planet_id, .. })) =>
            match galaxy.neighbors_of(current_planet_id) {
                Some(neighbors) => move_to(id, ConvoState::SendingNeighbors(
                    SendingNeighbors { explorer_id: s.explorer_id, neighbors },
                )),
                None => fail_with(id, ConvoError::PlanetNotFound(current_planet_id)),
            },
        _ => reject_message(id),
    }
}

fn wait_supp_resources_res_transition<T>(id: ID, s: WaitingSupportedResourcesResult, msg: Option<PossibleMessage<T>>, galaxy: &Galaxy) -> (r: Step<T>)
    ensures
        r@ == wait_step(id, StateView::WaitingSupportedResourcesResult(s), msg, galaxy@),
{
    match msg {
        Some(PossibleMessage::ExplorerToOrch(ExplorerToOrchestrator::SupportedResourceResult { explorer_id, supported_resources })) =>
            dispatch_to_ui(id, OrchestratorToUiUpdate::SupportedResources(explorer_id, supported_resources)),
        _ => reject_message(id),
    }
}

fn wait_supp_comb_res_transition<T>(id: ID, s: WaitingSupportedCombinationResult, msg: Option<PossibleMessage<T>>, galaxy: &Galaxy) -> (r: Step<T>)
    ensures
        r@ == wait_step(id, StateView::WaitingSupportedCombinationResult(s), msg, galaxy@),
{
    match msg {
        Some(PossibleMessage::ExplorerToOrch(ExplorerToOrchestrator::SupportedCombinationResult { explorer_id, combination_list })) =>
            dispatch_to_ui(id, OrchestratorToUiUpdate::SupportedCombinations(explorer_id, combination_list)),
        _ => reject_message(id),
    }
}

fn wait_craft_resource_res_transition<T>(id: ID, s: WaitingCraftResourceResult, msg: Option<PossibleMessage<T>>, galaxy: &Galaxy) -> (r: Step<T>)
    ensures
        r@ == wait_step(id, StateView::WaitingCraftResourceResult(s), msg, galaxy@),
{
    match msg {
        Some(PossibleMessage::ExplorerToOrch(ExplorerToOrchestrator::GenerateResourceResponse { explorer_id, generated })) =>
            match generated {
                Ok(()) => Step::Close,
                Err(err) => fail_with(id, ConvoError::CraftingFailed { explorer_id, err, resource: s.to_craft }),
            },
        _ => reject_message(id),
    }
}

fn wait_comb_resource_res_transition<T>(id: ID, s: WaitingCombineResourceResult, msg: Option<PossibleMessage<T>>, galaxy: &Galaxy) -> (r: Step<T>)
    ensures
        r@ == wait_step(id, StateView::WaitingCombineResourceResult(s), msg, galaxy@),
{
    match msg {
        Some(PossibleMessage::ExplorerToOrch(ExplorerToOrchestrator::CombineResourceResponse { explorer_id, generated })) =>
            match generated {
                Ok(()) => Step::Close,
                Err(err) => fail_with(id, ConvoError::CombineFailed { explorer_id, err, combination: s.to_combine }),
            },
        _ => reject_message(id),
    }
}

fn wait_travel_req_transition<T>(id: ID, s: WaitingTravelRequest, msg: Option<PossibleMessage<T>>, galaxy: &Galaxy) -> (r: Step<T>)
    ensures
        r@ == wait_step(id, StateView::WaitingTravelRequest(s), msg, galaxy@),
{
    match msg {
        Some(PossibleMessage::ExplorerToOrch(ExplorerToOrchestrator::TravelToPlanetRequest { explorer_id, current_planet_id, dst_planet_id })) =>
            if galaxy.has_neighbor(current_planet_id, dst_planet_id) {
                move_to(id, ConvoState::SendIncomingRequest(SendIncomingRequest {
                    explorer_id,
                    dst_planet_id,
                    curr_planet_id: Some(current_planet_id),
                }))
            } else {
                move_to(id, ConvoState::SendMoveRequest(SendMoveRequest {
                    explorer_id,
                    dst_planet_id,
                    is_explorer_moving: false,
                }))
            },
        _ => reject_message(id),
    }
}

fn wait_incoming_res_transition<T>(id: ID, s: WaitingIncomingResponse, msg: Option<PossibleMessage<T>>, galaxy: &Galaxy) -> (r: Step<T>)
    ensures
        r@ == wait_step(id, StateView::WaitingIncomingResponse(s), msg, galaxy@),
{
    match msg {
        Some(PossibleMessage::PlanetToOrch(PlanetToOrchestrator::IncomingExplorerResponse { res, .. })) =>
            if res.is_ok() {
                match s.curr_planet_id {
                    Some(curr) => move_to(id, ConvoState::SendOutgoingRequest(SendOutgoingRequest {
                        explorer_id: s.explorer_id,
                        curr_planet_id: curr,
                        dst_planet_id: s.dst_planet_id,
                    })),
                    None => move_to(id, ConvoState::SendMoveRequest(SendMoveRequest {
                        explorer_id: s.explorer_id,
                        dst_planet_id: s.dst_planet_id,
                        is_explorer_moving: true,
                    })),
                }
            } else {
                move_to(id, ConvoState::SendMoveRequest(SendMoveRequest {
                    explorer_id: s.explorer_id,
                    dst_planet_id: s.dst_planet_id,
                    is_explorer_moving: false,
                }))
            },
        _ => reject_message(id),
    }
}

fn wait_outgoing_res_transition<T>(id: ID, s: WaitingOutgoingResponse, msg: Option<PossibleMessage<T>>, galaxy: &Galaxy) -> (r: Step<T>)
    ensures
        r@ == wait_step(id, StateView::WaitingOutgoingResponse(s), msg, galaxy@),
{
    match msg {
        Some(PossibleMessage::PlanetToOrch(PlanetToOrchestrator::OutgoingExplorerResponse { planet_id, explorer_id, res })) =>
            if res.is_ok() {
                move_to(id, ConvoState::SendMoveRequest(SendMoveRequest {
                    explorer_id: s.explorer_id,
                    dst_planet_id: s.dst_planet_id,
                    is_explorer_moving: true,
                }))
            } else {
                fail_with(id, ConvoError::CurrPlanetFailed { planet_id, explorer_id })
            },
        _ => reject_message(id),
    }
}

fn wait_move_response_transition<T>(
    id: ID,
    s: WaitMoveToPlanetResponse,
    msg: Option<PossibleMessage<T>>,
    galaxy: &Galaxy,
    locations: &mut ExplorerLocations,
) -> (r: Step<T>)
    ensures
        r@ == wait_step(id, StateView::WaitMoveToPlanetResponse(s), msg, galaxy@),
        final(locations)@ == locations_after(conv(id, StateView::WaitMoveToPlanetResponse(s)), msg, old(locations)@),
{
    match msg {
        Some(PossibleMessage::ExplorerToOrch(ExplorerToOrchestrator::MovedToPlanetResult { explorer_id, planet_id })) => {
            if s.is_explorer_moving {
                let _ = locations.place(explorer_id, planet_id);
            }
            Step::Close
        },
        _ => reject_message(id),
    }
}

impl Conversation {
    /// Advances the conversation with the message routed to it (`None` when it
    /// runs without one), reading the galaxy and updating the explorer
    /// locations as the state requires.
    pub fn transition<T>(
        self,
        msg: Option<PossibleMessage<T>>,
        galaxy: &Galaxy,
        locations: &mut ExplorerLocations,
    ) -> (step: Step<T>)
        requires
            step_requires(self@, msg, old(locations)@),
        ensures
            step@ == step_spec(self@, msg, galaxy@),
            final(locations)@ == locations_after(self@, msg, old(locations)@),
    {
        let (id, state) = self.into_parts();
        match state {
            ConvoState::Failed(_) => Step::Close,
            ConvoState::KillExplorersManager(m) => kill_manager_transition(id, m),
            ConvoState::WaitingBagContentResponse(s) => wait_bag_content_res_transition(id, s, msg, galaxy),
            ConvoState::WaitingKillExplorerResult(s, q) => wait_exp_kill_res_transition(id, s, q, msg, galaxy, locations),
            ConvoState::WaitingDeadExpAdvResult(s, q) => wait_dead_exp_adv_res_transition(id, s, q, msg, galaxy),
            ConvoState::WaitingExplorerStartResult(s) => wait_exp_start_res_transition(id, s, msg, galaxy),
            ConvoState::WaitingExplorerStopResult(s) => wait_exp_stop_res_transition(id, s, msg, galaxy),
            ConvoState::WaitingExplorerResetResult(s) => wait_exp_reset_res_transition(id, s, msg, galaxy),
            ConvoState::WaitingExplorerNeighborsRequest(s) => wait_neighbors_req_transition(id, s, msg, galaxy),
            ConvoState::WaitingSupportedResourcesResult(s) => wait_supp_resources_res_transition(id, s, msg, galaxy),
            ConvoState::WaitingSupportedCombinationResult(s) => wait_supp_comb_res_transition(id, s, msg, galaxy),
            ConvoState::WaitingCraftResourceResult(s) => wait_craft_resource_res_transition(id, s, msg, galaxy),
            ConvoState::WaitingCombineResourceResult(s) => wait_comb_resource_res_transition(id, s, msg, galaxy),
            ConvoState::WaitingTravelRequest(s) => wait_travel_req_transition(id, s, msg, galaxy),
            ConvoState::WaitingIncomingResponse(s) => wait_incoming_res_transition(id, s, msg, galaxy),
            ConvoState::WaitingOutgoingResponse(s) => wait_outgoing_res_transition(id, s, msg, galaxy),
            ConvoState::WaitMoveToPlanetResponse(s) => wait_move_response_transition(id, s, msg, galaxy, locations),
            request => {
                if msg.is_some() {
                    return reject_message(id);
                }
                match request {
                    ConvoState::SendingBagContentRequest(s) => send_bag_content_req_transition(id, s),
                    ConvoState::SendingKillExplorer(s, q) => send_explorer_kill_transition(id, s, q),
                    ConvoState::SendingDeadExpAdv(s, q) => send_dead_exp_adv_transition(id, s, q),
                    ConvoState::SendingExplorerStart(s) => send_explorer_start_transition(id, s),
                    ConvoState::SendingExplorerStop(s) => send_explorer_stop_transition(id, s),
                    ConvoState::SendingExplorerReset(s) => send_explorer_reset_transition(id, s),
                    ConvoState::SendingNeighbors(s) => send_neighbors_transition(id, s),
                    ConvoState::SendingSupportedResourcesRequest(s) => send_supp_resources_req_transition(id, s),
                    ConvoState::SendingSupportedCombinationRequest(s) => send_supp_comb_req_transition(id, s),
                    ConvoState::SendingCraftResourceRequest(s) => send_craft_resource_req_transition(id, s),
                    ConvoState::SendingCombineResourceRequest(s) => send_comb_resource_req_transition(id, s),
                    ConvoState::SendManualMoveRequest(s) => send_manual_move_req_transition(id, s),
                    ConvoState::SendIncomingRequest(s) => send_incoming_req_transition(id, s),
                    ConvoState::SendOutgoingRequest(s) => send_outgoing_req_transition(id, s),
                    ConvoState::SendMoveRequest(s) => send_move_req_transition(id, s),
                    _ => Step::Close,
                }
            },
        }
    }
}

} // verus!
