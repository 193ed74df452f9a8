//! Properties that hold of every conversation and every transition.
use crate::conversation::{state_expected_kind, ConvView};
use crate::errors::ErrorView;
use crate::galaxy::are_neighbors;
use crate::conversation::state_entities;
use crate::galaxy::Galaxy;
use crate::messages::{
    message_kind, ActionView, BasicResourceType, ComplexResourceType, UiUpdateView, ExplorerCommandView, ExplorerToOrchestrator, ExplorerToOrchestratorKind,
    OrchestratorToPlanet, PlanetToOrchestrator, PlanetToOrchestratorKind, PossibleExpectedKinds,
    PossibleMessage, SendOutcome, ID,
};
use crate::states::{
    SendingBagContentRequest, SendingExplorerReset, SendingExplorerStart, SendingExplorerStop,
    SendingSupportedCombinationRequest, SendingSupportedResourcesRequest,
    SendManualMoveRequest, SendingCombineResourceRequest, SendingCraftResourceRequest,
    WaitingCombineResourceResult, WaitingCraftResourceResult, WaitingExplorerNeighborsRequest,
    WaitingSupportedCombinationResult, WaitingSupportedResourcesResult, WaitingBagContentResponse,
    KillQueueView, SendIncomingRequest, SendMoveRequest, SendOutgoingRequest, SendingDeadExpAdv, WaitingDeadExpAdvResult,
    SendingKillExplorer, StateView, WaitMoveToPlanetResponse, WaitingIncomingResponse,
    WaitingKillExplorerResult, WaitingOutgoingResponse, WaitingTravelRequest,
};
use crate::step::{
    conv, failed, is_request_state, locations_after, resolve_spec, step_spec, wrong_message, StepView,
};
use vstd::prelude::*;

verus! {

/// How far a kill state is from the end of its sequence, counting the queue
/// it returns to.
pub open spec fn queue_rank(q: Option<KillQueueView>) -> nat {
    match q {
        Some(m) => 5 * m.targets.len() + 1,
        None => 0,
    }
}

/// A bound on the number of transitions a conversation can still make.
pub open spec fn rank(c: ConvView) -> nat {
    match c.state {
        StateView::Failed(_) => 0,
        StateView::WaitingBagContentResponse(_) => 1,
        StateView::WaitingExplorerStartResult(_) => 1,
        StateView::WaitingExplorerStopResult(_) => 1,
        StateView::WaitingExplorerResetResult(_) => 1,
        StateView::WaitingSupportedResourcesResult(_) => 1,
        StateView::WaitingSupportedCombinationResult(_) => 1,
        StateView::WaitingCraftResourceResult(_) => 1,
        StateView::WaitingCombineResourceResult(_) => 1,
        StateView::WaitMoveToPlanetResponse(_) => 1,
        StateView::SendingNeighbors { .. } => 1,
        StateView::SendingBagContentRequest(_) => 2,
        StateView::SendingExplorerStart(_) => 2,
        StateView::SendingExplorerStop(_) => 2,
        StateView::SendingExplorerReset(_) => 2,
        StateView::SendingSupportedResourcesRequest(_) => 2,
        StateView::SendingSupportedCombinationRequest(_) => 2,
        StateView::SendingCraftResourceRequest(_) => 2,
        StateView::SendingCombineResourceRequest(_) => 2,
        StateView::SendMoveRequest(_) => 2,
        StateView::WaitingExplorerNeighborsRequest(_) => 2,
        StateView::WaitingOutgoingResponse(_) => 3,
        StateView::SendOutgoingRequest(_) => 4,
        StateView::WaitingIncomingResponse(_) => 5,
        StateView::SendIncomingRequest(_) => 6,
        StateView::SendManualMoveRequest(_) => 7,
        StateView::WaitingTravelRequest(_) => 7,
        StateView::WaitingDeadExpAdvResult(_, q) => queue_rank(q) + 1,
        StateView::SendingDeadExpAdv(_, q) => queue_rank(q) + 2,
        StateView::WaitingKillExplorerResult(_, q) => queue_rank(q) + 3,
        StateView::SendingKillExplorer(_, q) => queue_rank(q) + 4,
        StateView::KillExplorersManager(m) => 5 * m.targets.len() + 1,
    }
}

/// Every conversation runs to its end: each state that a transition leads to,
/// directly, after releasing channels, or after any outcome of a sending, has
/// a smaller rank than the state it leaves.
pub proof fn lemma_transitions_decrease_rank<T>(
    c: ConvView,
    msg: Option<PossibleMessage<T>>,
    g: Map<ID, Seq<ID>>,
    outcome: SendOutcome,
)
    ensures
        match step_spec(c, msg, g) {
            StepView::Next(n) => rank(n) < rank(c),
            StepView::ReleaseChannels(_, Some(n)) => rank(n) < rank(c),
            StepView::Dispatch(_, a) => match resolve_spec(a, outcome) {
                Some(n) => rank(n) < rank(c),
                None => true,
            },
            _ => true,
        },
{
}

/// A conversation keeps its id in every state it moves to.
pub proof fn lemma_transitions_keep_id<T>(
    c: ConvView,
    msg: Option<PossibleMessage<T>>,
    g: Map<ID, Seq<ID>>,
    outcome: SendOutcome,
)
    ensures
        match step_spec(c, msg, g) {
            StepView::Next(n) => n.id == c.id,
            StepView::ReleaseChannels(_, Some(n)) => n.id == c.id,
            StepView::Dispatch(_, a) => a.id == c.id && match resolve_spec(a, outcome) {
                Some(n) => n.id == c.id,
                None => true,
            },
            _ => true,
        },
{
}

/// A conversation waiting for a message of some kind that is given no
/// message, or a message of another kind, moves to its error state for a
/// wrong message.
pub proof fn lemma_unexpected_message_is_rejected<T>(
    c: ConvView,
    msg: Option<PossibleMessage<T>>,
    g: Map<ID, Seq<ID>>,
)
    requires
        state_expected_kind(c.state) is Some,
        msg is None || message_kind(msg->0) != state_expected_kind(c.state)->0,
    ensures
        step_spec(c, msg, g) == wrong_message::<T>(c.id),
{
}

/// A conversation waiting for a message of some kind is never failed for a
/// wrong message when a message of that kind arrives.
pub proof fn lemma_expected_message_is_accepted<T>(
    c: ConvView,
    m: PossibleMessage<T>,
    g: Map<ID, Seq<ID>>,
)
    requires
        state_expected_kind(c.state) == Some(message_kind(m)),
    ensures
        step_spec(c, Some(m), g) != wrong_message::<T>(c.id),
{
}

/// A conversation about to act on its own waits for no message, and any
/// message routed to it moves it to its error state for a wrong message.
pub proof fn lemma_acting_state_rejects_messages<T>(c: ConvView, m: PossibleMessage<T>, g: Map<ID, Seq<ID>>)
    requires
        is_request_state(c.state),
    ensures
        state_expected_kind(c.state) is None,
        step_spec(c, Some(m), g) == wrong_message::<T>(c.id),
{
}

/// The error state is terminal: advancing it ends the conversation.
pub proof fn lemma_error_state_closes<T>(id: ID, e: ErrorView, msg: Option<PossibleMessage<T>>, g: Map<ID, Seq<ID>>)
    ensures
        step_spec(failed(id, e), msg, g) == StepView::<T>::Close,
        state_expected_kind(failed(id, e).state) is None,
{
}

/// A sending that is not delivered ends the conversation in its error state.
pub proof fn lemma_undelivered_sending_fails<T>(
    c: ConvView,
    msg: Option<PossibleMessage<T>>,
    g: Map<ID, Seq<ID>>,
    outcome: SendOutcome,
)
    requires
        step_spec(c, msg, g) is Dispatch,
        outcome != SendOutcome::Delivered,
    ensures
        resolve_spec(step_spec(c, msg, g)->Dispatch_1, outcome) matches Some(n) && n.id == c.id
            && n.state is Failed,
{
}

/// An explorer's travel request starts the arrival handshake exactly when the
/// destination neighbors its current planet; otherwise the explorer is told it
/// cannot move.
pub proof fn lemma_travel_needs_neighbor<T>(
    c: ConvView,
    explorer_id: ID,
    current_planet_id: ID,
    dst_planet_id: ID,
    g: Map<ID, Seq<ID>>,
)
    requires
        c.state is WaitingTravelRequest,
    ensures
        ({
            let msg = Some(PossibleMessage::<T>::ExplorerToOrch(
                ExplorerToOrchestrator::TravelToPlanetRequest { explorer_id, current_planet_id, dst_planet_id },
            ));
            step_spec(c, msg, g) == if are_neighbors(g, current_planet_id, dst_planet_id) {
                StepView::<T>::Next(ConvView {
                    id: c.id,
                    state: StateView::SendIncomingRequest(SendIncomingRequest {
                        explorer_id,
                        dst_planet_id,
                        curr_planet_id: Some(current_planet_id),
                    }),
                })
            } else {
                StepView::<T>::Next(ConvView {
                    id: c.id,
                    state: StateView::SendMoveRequest(SendMoveRequest {
                        explorer_id,
                        dst_planet_id,
                        is_explorer_moving: false,
                    }),
                })
            }
        }),
{
}

/// The explorer locations change only when an explorer confirms its death or
/// confirms a move that was granted.
pub proof fn lemma_locations_change_only_on_confirmation<T>(
    c: ConvView,
    msg: Option<PossibleMessage<T>>,
    l: Map<ID, ID>,
)
    requires
        !(c.state is WaitingKillExplorerResult),
        !(c.state matches StateView::WaitMoveToPlanetResponse(x) && x.is_explorer_moving),
    ensures
        locations_after(c, msg, l) == l,
{
}

/// The conversation that follows a step when every sending is delivered.
pub open spec fn after_delivery<T>(st: StepView<T>) -> Option<ConvView> {
    match st {
        StepView::Close => None,
        StepView::Next(n) => Some(n),
        StepView::Dispatch(_, a) => a.on_delivered,
        StepView::ReleaseChannels(_, n) => n,
    }
}

/// The action a step asks for, if any.
pub open spec fn dispatched<T>(st: StepView<T>) -> Option<ActionView<T>> {
    match st {
        StepView::Dispatch(a, _) => Some(a),
        _ => None,
    }
}

/// A queue of kills that is not empty kills its last explorer and comes back
/// to itself without it: the explorer is ordered to die, its death releases
/// its channels and, when the planet must be told, the planet it stood on is
/// told that it left and confirms; then the queue holds the other explorers.
pub proof fn lemma_kill_queue_round<T>(id: ID, q: KillQueueView, g: Map<ID, Seq<ID>>)
    requires
        q.targets.len() > 0,
    ensures
        ({
            let explorer_id = q.targets.last().0;
            let planet_id = q.targets.last().1;
            let rest = KillQueueView { targets: q.targets.drop_last(), handle_outgoing: q.handle_outgoing };
            let c0 = conv(id, StateView::KillExplorersManager(q));
            let c1 = conv(id, StateView::SendingKillExplorer(
                SendingKillExplorer { explorer_id, curr_planet_id: planet_id, handle_outgoing: q.handle_outgoing },
                Some(rest),
            ));
            let c2 = conv(id, StateView::WaitingKillExplorerResult(
                WaitingKillExplorerResult { explorer_id, curr_planet_id: planet_id, handle_outgoing: q.handle_outgoing },
                Some(rest),
            ));
            let c3 = conv(id, StateView::SendingDeadExpAdv(SendingDeadExpAdv { planet_id, explorer_id }, Some(rest)));
            let c4 = conv(id, StateView::WaitingDeadExpAdvResult(
                WaitingDeadExpAdvResult { planet_id, explorer_id },
                Some(rest),
            ));
            let let_go = Some(PossibleMessage::<T>::PlanetToOrch(PlanetToOrchestrator::OutgoingExplorerResponse {
                planet_id,
                explorer_id,
                res: Ok(()),
            }));
            let back = conv(id, StateView::KillExplorersManager(rest));
            let confirmation = Some(PossibleMessage::<T>::ExplorerToOrch(
                ExplorerToOrchestrator::KillExplorerResult { explorer_id },
            ));
            &&& step_spec(c0, None::<PossibleMessage<T>>, g) == StepView::<T>::Next(c1)
            &&& dispatched(step_spec(c1, None::<PossibleMessage<T>>, g))
                == Some(ActionView::<T>::ToExplorer { explorer_id, command: ExplorerCommandView::KillExplorer })
            &&& after_delivery(step_spec(c1, None::<PossibleMessage<T>>, g)) == Some(c2)
            &&& step_spec(c2, confirmation, g) == StepView::<T>::ReleaseChannels(
                explorer_id,
                Some(if q.handle_outgoing { c3 } else { back }),
            )
            &&& q.handle_outgoing ==> {
                &&& dispatched(step_spec(c3, None::<PossibleMessage<T>>, g)) == Some(ActionView::<T>::ToPlanet {
                    planet_id,
                    request: OrchestratorToPlanet::OutgoingExplorerRequest { explorer_id },
                })
                &&& after_delivery(step_spec(c3, None::<PossibleMessage<T>>, g)) == Some(c4)
                &&& step_spec(c4, let_go, g) == StepView::<T>::Next(back)
            }
        }),
{
}

/// An explorer that asks to travel to a neighbor of its planet, when both
/// planets accept and every sending is delivered, is granted passage and,
/// once it confirms, is recorded on the destination.
pub proof fn lemma_granted_travel_records_destination<T>(
    id: ID,
    explorer_id: ID,
    current_planet_id: ID,
    dst_planet_id: ID,
    g: Map<ID, Seq<ID>>,
    l: Map<ID, ID>,
)
    requires
        are_neighbors(g, current_planet_id, dst_planet_id),
    ensures
        ({
            let c0 = conv(id, StateView::WaitingTravelRequest(WaitingTravelRequest { explorer_id, curr_planet_id: current_planet_id }));
            let request = Some(PossibleMessage::<T>::ExplorerToOrch(
                ExplorerToOrchestrator::TravelToPlanetRequest { explorer_id, current_planet_id, dst_planet_id },
            ));
            let c1 = conv(id, StateView::SendIncomingRequest(
                SendIncomingRequest { explorer_id, dst_planet_id, curr_planet_id: Some(current_planet_id) },
            ));
            let c2 = conv(id, StateView::WaitingIncomingResponse(
                WaitingIncomingResponse { explorer_id, dst_planet_id, curr_planet_id: Some(current_planet_id) },
            ));
            let accepted = Some(PossibleMessage::<T>::PlanetToOrch(PlanetToOrchestrator::IncomingExplorerResponse {
                planet_id: dst_planet_id,
                explorer_id,
                res: Ok(()),
            }));
            let c3 = conv(id, StateView::SendOutgoingRequest(
                SendOutgoingRequest { explorer_id, curr_planet_id: current_planet_id, dst_planet_id },
            ));
            let c4 = conv(id, StateView::WaitingOutgoingResponse(
                WaitingOutgoingResponse { explorer_id, curr_planet_id: current_planet_id, dst_planet_id },
            ));
            let released = Some(PossibleMessage::<T>::PlanetToOrch(PlanetToOrchestrator::OutgoingExplorerResponse {
                planet_id: current_planet_id,
                explorer_id,
                res: Ok(()),
            }));
            let c5 = conv(id, StateView::SendMoveRequest(
                SendMoveRequest { explorer_id, dst_planet_id, is_explorer_moving: true },
            ));
            let c6 = conv(id, StateView::WaitMoveToPlanetResponse(
                WaitMoveToPlanetResponse { explorer_id, dst_planet_id, is_explorer_moving: true },
            ));
            let moved = Some(PossibleMessage::<T>::ExplorerToOrch(
                ExplorerToOrchestrator::MovedToPlanetResult { explorer_id, planet_id: dst_planet_id },
            ));
            &&& step_spec(c0, request, g) == StepView::<T>::Next(c1)
            &&& dispatched(step_spec(c1, None::<PossibleMessage<T>>, g)) == Some(ActionView::<T>::ToPlanet {
                planet_id: dst_planet_id,
                request: OrchestratorToPlanet::IncomingExplorerRequest { explorer_id },
            })
            &&& after_delivery(step_spec(c1, None::<PossibleMessage<T>>, g)) == Some(c2)
            &&& step_spec(c2, accepted, g) == StepView::<T>::Next(c3)
            &&& dispatched(step_spec(c3, None::<PossibleMessage<T>>, g)) == Some(ActionView::<T>::ToPlanet {
                planet_id: current_planet_id,
                request: OrchestratorToPlanet::OutgoingExplorerRequest { explorer_id },
            })
            &&& after_delivery(step_spec(c3, None::<PossibleMessage<T>>, g)) == Some(c4)
            &&& step_spec(c4, released, g) == StepView::<T>::Next(c5)
            &&& dispatched(step_spec(c5, None::<PossibleMessage<T>>, g)) == Some(ActionView::<T>::ToExplorer {
                explorer_id,
                command: ExplorerCommandView::MoveToPlanet { planet_id: dst_planet_id, grants_passage: true },
            })
            &&& after_delivery(step_spec(c5, None::<PossibleMessage<T>>, g)) == Some(c6)
            &&& step_spec(c6, moved, g) == StepView::<T>::Close
            &&& locations_after(c6, moved, l) == l.insert(explorer_id, dst_planet_id)
            &&& locations_after(c0, request, l) == l
            &&& locations_after(c2, accepted, l) == l
            &&& locations_after(c4, released, l) == l
        }),
{
}

/// The kind of message that answers a command to an explorer; `None` for
/// the command that is itself an answer.
pub open spec fn explorer_answer(c: ExplorerCommandView) -> Option<ExplorerToOrchestratorKind> {
    match c {
        ExplorerCommandView::StartExplorerAI => Some(ExplorerToOrchestratorKind::StartExplorerAIResult),
        ExplorerCommandView::ResetExplorerAI => Some(ExplorerToOrchestratorKind::ResetExplorerAIResult),
        ExplorerCommandView::KillExplorer => Some(ExplorerToOrchestratorKind::KillExplorerResult),
        ExplorerCommandView::StopExplorerAI => Some(ExplorerToOrchestratorKind::StopExplorerAIResult),
        ExplorerCommandView::MoveToPlanet { .. } => Some(ExplorerToOrchestratorKind::MovedToPlanetResult),
        ExplorerCommandView::CurrentPlanetRequest => Some(ExplorerToOrchestratorKind::CurrentPlanetResult),
        ExplorerCommandView::SupportedResourceRequest => Some(ExplorerToOrchestratorKind::SupportedResourceResult),
        ExplorerCommandView::SupportedCombinationRequest => Some(ExplorerToOrchestratorKind::SupportedCombinationResult),
        ExplorerCommandView::GenerateResourceRequest { .. } => Some(ExplorerToOrchestratorKind::GenerateResourceResponse),
        ExplorerCommandView::CombineResourceRequest { .. } => Some(ExplorerToOrchestratorKind::CombineResourceResponse),
        ExplorerCommandView::BagContentRequest => Some(ExplorerToOrchestratorKind::BagContentResponse),
        ExplorerCommandView::NeighborsResponse { .. } => None,
    }
}

/// The kind of message that answers a request to a planet.
pub open spec fn planet_answer(r: OrchestratorToPlanet) -> PlanetToOrchestratorKind {
    match r {
        OrchestratorToPlanet::IncomingExplorerRequest { .. } => PlanetToOrchestratorKind::IncomingExplorerResponse,
        OrchestratorToPlanet::OutgoingExplorerRequest { .. } => PlanetToOrchestratorKind::OutgoingExplorerResponse,
    }
}

/// The kind of message that answers what an action sends, if anything does.
pub open spec fn answer_kind<T>(a: ActionView<T>) -> Option<PossibleExpectedKinds> {
    match a {
        ActionView::ToExplorer { command, .. } => match explorer_answer(command) {
            Some(k) => Some(PossibleExpectedKinds::ExplorerToOrchKind(k)),
            None => None,
        },
        ActionView::ToPlanet { request, .. } => Some(PossibleExpectedKinds::PlanetToOrchKind(planet_answer(request))),
        ActionView::ToUi(_) => None,
    }
}

/// The kind an optional conversation waits for; none when it has ended.
pub open spec fn awaited(c: Option<ConvView>) -> Option<PossibleExpectedKinds> {
    match c {
        Some(n) => state_expected_kind(n.state),
        None => None,
    }
}

/// Once what a conversation sends is delivered, the conversation waits exactly
/// for the answer to it, from its addressee; when nothing answers it, the
/// conversation ends.
pub proof fn lemma_delivered_sending_awaits_its_answer<T>(
    c: ConvView,
    msg: Option<PossibleMessage<T>>,
    g: Map<ID, Seq<ID>>,
)
    requires
        step_spec(c, msg, g) is Dispatch,
    ensures
        ({
            let a = step_spec(c, msg, g)->Dispatch_0;
            let next = step_spec(c, msg, g)->Dispatch_1.on_delivered;
            &&& awaited(next) == answer_kind(a)
            &&& answer_kind(a) is None ==> next is None
            &&& (a matches ActionView::ToExplorer { explorer_id, .. }
                ==> (next is Some ==> state_entities(next->0.state).1 == Some(explorer_id)))
            &&& (a matches ActionView::ToPlanet { planet_id, .. }
                ==> next is Some && state_entities(next->0.state).0 == Some(planet_id))
        }),
{
}

/// A manual move hands the planet the explorer stands on, unchanged, to the
/// arrival handshake: the destination is asked to take the explorer in and,
/// once it accepts, the planet the explorer stood on (if the move names one)
/// is the one told to let it go; a move that names no current planet grants
/// passage at once.
pub proof fn lemma_manual_move_releases_its_current_planet<T>(
    id: ID,
    explorer_id: ID,
    dst_planet_id: ID,
    curr_planet_id: Option<ID>,
    g: Map<ID, Seq<ID>>,
)
    ensures
        ({
            let c0 = conv(id, StateView::SendManualMoveRequest(
                SendManualMoveRequest { explorer_id, dst_planet_id, curr_planet_id },
            ));
            let c1 = conv(id, StateView::SendIncomingRequest(
                SendIncomingRequest { explorer_id, dst_planet_id, curr_planet_id },
            ));
            let c2 = conv(id, StateView::WaitingIncomingResponse(
                WaitingIncomingResponse { explorer_id, dst_planet_id, curr_planet_id },
            ));
            let accepted = Some(PossibleMessage::<T>::PlanetToOrch(PlanetToOrchestrator::IncomingExplorerResponse {
                planet_id: dst_planet_id,
                explorer_id,
                res: Ok(()),
            }));
            let after_accept = after_delivery(step_spec(c2, accepted, g));
            &&& step_spec(c0, None::<PossibleMessage<T>>, g) == StepView::<T>::Next(c1)
            &&& dispatched(step_spec(c1, None::<PossibleMessage<T>>, g)) == Some(ActionView::<T>::ToPlanet {
                planet_id: dst_planet_id,
                request: OrchestratorToPlanet::IncomingExplorerRequest { explorer_id },
            })
            &&& after_delivery(step_spec(c1, None::<PossibleMessage<T>>, g)) == Some(c2)
            &&& after_accept is Some
            &&& match curr_planet_id {
                Some(c) => dispatched(step_spec(after_accept->0, None::<PossibleMessage<T>>, g))
                    == Some(ActionView::<T>::ToPlanet {
                        planet_id: c,
                        request: OrchestratorToPlanet::OutgoingExplorerRequest { explorer_id },
                    }),
                None => dispatched(step_spec(after_accept->0, None::<PossibleMessage<T>>, g))
                    == Some(ActionView::<T>::ToExplorer {
                        explorer_id,
                        command: ExplorerCommandView::MoveToPlanet { planet_id: dst_planet_id, grants_passage: true },
                    }),
            }
        }),
{
}

/// An explorer that asks for the neighbors of a planet of the galaxy is sent
/// exactly the galaxy's neighbor list of that planet, whole and in order; a
/// planet the galaxy does not hold ends the conversation in its error state.
pub proof fn lemma_neighbors_answer_is_the_galaxy_list<T>(
    id: ID,
    explorer_id: ID,
    requester: ID,
    planet_id: ID,
    galaxy: Galaxy,
)
    ensures
        ({
            let g = galaxy@;
            let c0 = conv(id, StateView::WaitingExplorerNeighborsRequest(WaitingExplorerNeighborsRequest { explorer_id }));
            let request = Some(PossibleMessage::<T>::ExplorerToOrch(
                ExplorerToOrchestrator::NeighborsRequest { explorer_id: requester, current_planet_id: planet_id },
            ));
            let next = after_delivery(step_spec(c0, request, g));
            &&& next is Some
            &&& g.contains_key(planet_id) ==> {
                &&& dispatched(step_spec(next->0, None::<PossibleMessage<T>>, g)) == Some(ActionView::<T>::ToExplorer {
                    explorer_id,
                    command: ExplorerCommandView::NeighborsResponse { neighbors: g[planet_id] },
                })
                &&& after_delivery(step_spec(next->0, None::<PossibleMessage<T>>, g)) is None
            }
            &&& !g.contains_key(planet_id) ==> next == Some(failed(id, ErrorView::PlanetNotFound(planet_id)))
        }),
{
}

/// The order sent to an explorer to craft or combine names the resource the
/// conversation was opened for; the conversation then waits for the outcome of
/// that same resource and reports a failure against it.
pub proof fn lemma_resource_orders_name_their_resource<T>(
    id: ID,
    explorer_id: ID,
    to_craft: BasicResourceType,
    to_combine: ComplexResourceType,
    reporter: ID,
    err: String,
    g: Map<ID, Seq<ID>>,
)
    ensures
        ({
            let craft = conv(id, StateView::SendingCraftResourceRequest(SendingCraftResourceRequest { explorer_id, to_craft }));
            let combine = conv(id, StateView::SendingCombineResourceRequest(SendingCombineResourceRequest { explorer_id, to_combine }));
            let craft_wait = conv(id, StateView::WaitingCraftResourceResult(WaitingCraftResourceResult { explorer_id, to_craft }));
            let combine_wait = conv(id, StateView::WaitingCombineResourceResult(WaitingCombineResourceResult { explorer_id, to_combine }));
            let craft_failed = Some(PossibleMessage::<T>::ExplorerToOrch(
                ExplorerToOrchestrator::GenerateResourceResponse { explorer_id: reporter, generated: Err(err) },
            ));
            let combine_failed = Some(PossibleMessage::<T>::ExplorerToOrch(
                ExplorerToOrchestrator::CombineResourceResponse { explorer_id: reporter, generated: Err(err) },
            ));
            &&& dispatched(step_spec(craft, None::<PossibleMessage<T>>, g)) == Some(ActionView::<T>::ToExplorer {
                explorer_id,
                command: ExplorerCommandView::GenerateResourceRequest { to_generate: to_craft },
            })
            &&& dispatched(step_spec(combine, None::<PossibleMessage<T>>, g)) == Some(ActionView::<T>::ToExplorer {
                explorer_id,
                command: ExplorerCommandView::CombineResourceRequest { to_generate: to_combine },
            })
            &&& after_delivery(step_spec(craft, None::<PossibleMessage<T>>, g)) == Some(craft_wait)
            &&& after_delivery(step_spec(combine, None::<PossibleMessage<T>>, g)) == Some(combine_wait)
            &&& step_spec(craft_wait, craft_failed, g) == StepView::<T>::Next(failed(
                id,
                ErrorView::CraftingFailed { explorer_id: reporter, err: err@, resource: to_craft },
            ))
            &&& step_spec(combine_wait, combine_failed, g) == StepView::<T>::Next(failed(
                id,
                ErrorView::CombineFailed { explorer_id: reporter, err: err@, combination: to_combine },
            ))
        }),
{
}

/// What an explorer reports of itself (its supported resources, its
/// supported combinations, its bag) reaches the user interface unchanged,
/// under the reporting explorer's id, and the conversation then ends.
pub proof fn lemma_reports_reach_the_ui_unchanged<T>(
    id: ID,
    explorer_id: ID,
    reporter: ID,
    resources: Vec<BasicResourceType>,
    combinations: Vec<ComplexResourceType>,
    bag: T,
    g: Map<ID, Seq<ID>>,
)
    ensures
        ({
            let res_wait = conv(id, StateView::WaitingSupportedResourcesResult(WaitingSupportedResourcesResult { explorer_id }));
            let comb_wait = conv(id, StateView::WaitingSupportedCombinationResult(WaitingSupportedCombinationResult { explorer_id }));
            let bag_wait = conv(id, StateView::WaitingBagContentResponse(WaitingBagContentResponse { explorer_id }));
            let res_report = Some(PossibleMessage::<T>::ExplorerToOrch(
                ExplorerToOrchestrator::SupportedResourceResult { explorer_id: reporter, supported_resources: resources },
            ));
            let comb_report = Some(PossibleMessage::<T>::ExplorerToOrch(
                ExplorerToOrchestrator::SupportedCombinationResult { explorer_id: reporter, combination_list: combinations },
            ));
            let bag_report = Some(PossibleMessage::<T>::ExplorerToOrch(
                ExplorerToOrchestrator::BagContentResponse { explorer_id: reporter, bag_content: bag },
            ));
            &&& dispatched(step_spec(res_wait, res_report, g))
                == Some(ActionView::<T>::ToUi(UiUpdateView::SupportedResources(reporter, resources@)))
            &&& dispatched(step_spec(comb_wait, comb_report, g))
                == Some(ActionView::<T>::ToUi(UiUpdateView::SupportedCombinations(reporter, combinations@)))
            &&& dispatched(step_spec(bag_wait, bag_report, g))
                == Some(ActionView::<T>::ToUi(UiUpdateView::ExplorerSnapshot(reporter, bag)))
            &&& after_delivery(step_spec(res_wait, res_report, g)) is None
            &&& after_delivery(step_spec(comb_wait, comb_report, g)) is None
            &&& after_delivery(step_spec(bag_wait, bag_report, g)) is None
        }),
{
}

/// Each state that orders an explorer sends that explorer the order the
/// state stands for: starting, stopping or resetting its AI, reporting its
/// bag, its supported resources or combinations; and a move order names the
/// destination and grants passage exactly when the move was accepted.
pub proof fn lemma_orders_match_their_state<T>(
    id: ID,
    explorer_id: ID,
    dst_planet_id: ID,
    is_explorer_moving: bool,
    g: Map<ID, Seq<ID>>,
)
    ensures
        ({
            let order = |s: StateView| dispatched(step_spec(conv(id, s), None::<PossibleMessage<T>>, g));
            let to = |command: ExplorerCommandView| Some(ActionView::<T>::ToExplorer { explorer_id, command });
            &&& order(StateView::SendingExplorerStart(SendingExplorerStart { explorer_id }))
                == to(ExplorerCommandView::StartExplorerAI)
            &&& order(StateView::SendingExplorerStop(SendingExplorerStop { explorer_id }))
                == to(ExplorerCommandView::StopExplorerAI)
            &&& order(StateView::SendingExplorerReset(SendingExplorerReset { explorer_id }))
                == to(ExplorerCommandView::ResetExplorerAI)
            &&& order(StateView::SendingBagContentRequest(SendingBagContentRequest { explorer_id }))
                == to(ExplorerCommandView::BagContentRequest)
            &&& order(StateView::SendingSupportedResourcesRequest(SendingSupportedResourcesRequest { explorer_id }))
                == to(ExplorerCommandView::SupportedResourceRequest)
            &&& order(StateView::SendingSupportedCombinationRequest(SendingSupportedCombinationRequest { explorer_id }))
                == to(ExplorerCommandView::SupportedCombinationRequest)
            &&& order(StateView::SendMoveRequest(SendMoveRequest { explorer_id, dst_planet_id, is_explorer_moving }))
                == to(ExplorerCommandView::MoveToPlanet { planet_id: dst_planet_id, grants_passage: is_explorer_moving })
        }),
{
}

/// A destination that refuses the explorer leaves it where it is: the
/// explorer is told to move without passage, and its current planet is never
/// asked to let it go.
pub proof fn lemma_refused_arrival_denies_passage<T>(
    id: ID,
    explorer_id: ID,
    dst_planet_id: ID,
    curr_planet_id: Option<ID>,
    err: String,
    g: Map<ID, Seq<ID>>,
)
    ensures
        ({
            let waiting = conv(id, StateView::WaitingIncomingResponse(
                WaitingIncomingResponse { explorer_id, dst_planet_id, curr_planet_id },
            ));
            let refused = Some(PossibleMessage::<T>::PlanetToOrch(PlanetToOrchestrator::IncomingExplorerResponse {
                planet_id: dst_planet_id,
                explorer_id,
                res: Err(err),
            }));
            let next = after_delivery(step_spec(waiting, refused, g));
            &&& next is Some
            &&& dispatched(step_spec(next->0, None::<PossibleMessage<T>>, g)) == Some(ActionView::<T>::ToExplorer {
                explorer_id,
                command: ExplorerCommandView::MoveToPlanet { planet_id: dst_planet_id, grants_passage: false },
            })
        }),
{
}

} // verus!
