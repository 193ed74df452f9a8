//! The states of every explorer conversation, one struct per state, and the
//! sum of them that a conversation is in at any time.
use crate::errors::{ConvoError, ErrorView};
use crate::locations::ExplorerLocations;
use crate::messages::{BasicResourceType, ComplexResourceType, ID};
use vstd::prelude::*;

verus! {

// --- Bag content ---

/// Bag content, first state: ask the explorer for its bag.
#[derive(Debug, Clone, Copy, PartialEq, Eq, Structural)]
pub struct SendingBagContentRequest {
    pub explorer_id: ID,
}

impl SendingBagContentRequest {
    /// The state that asks explorer `explorer_id` for its bag.
    pub fn new(explorer_id: ID) -> (s: Self)
        ensures
            s.explorer_id == explorer_id,
    {
        SendingBagContentRequest { explorer_id }
    }
}

/// Bag content, second state: wait for the bag and forward it to the UI.
#[derive(Debug, Clone, Copy, PartialEq, Eq, Structural)]
pub struct WaitingBagContentResponse {
    pub explorer_id: ID,
}

// --- Kill explorer ---

/// Kill explorer, first state: order the explorer to die.
#[derive(Debug, Clone, Copy, PartialEq, Eq, Structural)]
pub struct SendingKillExplorer {
    pub explorer_id: ID,
    /// The planet the explorer stands on.
    pub curr_planet_id: ID,
    /// Whether that planet must then be told that the explorer left it.
    pub handle_outgoing: bool,
}

impl SendingKillExplorer {
    /// The state that orders explorer `explorer_id`, on planet
    /// `curr_planet_id`, to die.
    pub fn new(explorer_id: ID, curr_planet_id: ID, handle_outgoing: bool) -> (s: Self)
        ensures
            s == (SendingKillExplorer { explorer_id, curr_planet_id, handle_outgoing }),
    {
        SendingKillExplorer { explorer_id, curr_planet_id, handle_outgoing }
    }
}

/// Kill explorer, second state: wait for the explorer's confirmation.
#[derive(Debug, Clone, Copy, PartialEq, Eq, Structural)]
pub struct WaitingKillExplorerResult {
    pub explorer_id: ID,
    pub curr_planet_id: ID,
    pub handle_outgoing: bool,
}

/// Kill explorer, last state when the planet must be told: tell planet
/// `planet_id` that explorer `explorer_id` is gone.
#[derive(Debug, Clone, Copy, PartialEq, Eq, Structural)]
pub struct SendingDeadExpAdv {
    pub planet_id: ID,
    pub explorer_id: ID,
}

/// Kill explorer, last state when the planet is told: wait for the planet to
/// confirm that it let the explorer go.
#[derive(Debug, Clone, Copy, PartialEq, Eq, Structural)]
pub struct WaitingDeadExpAdvResult {
    pub planet_id: ID,
    pub explorer_id: ID,
}

/// A queue of explorers to kill one after the other: (explorer, planet)
/// pairs, taken from the back.
pub struct KillExplorersManager {
    pub explorers_to_kill: Vec<(ID, ID)>,
    /// Whether each kill tells the explorer's planet.
    pub handle_outgoing: bool,
}

/// The mathematical form of a [`KillExplorersManager`].
pub struct KillQueueView {
    pub targets: Seq<(ID, ID)>,
    pub handle_outgoing: bool,
}

impl View for KillExplorersManager {
    type V = KillQueueView;

    open spec fn view(&self) -> KillQueueView {
        KillQueueView { targets: self.explorers_to_kill@, handle_outgoing: self.handle_outgoing }
    }
}

impl KillExplorersManager {
    /// A queue that kills the explorers of `explorers_to_kill`, last first.
    pub fn new(handle_outgoing: bool, explorers_to_kill: Vec<(ID, ID)>) -> (m: Self)
        ensures
            m@ == (KillQueueView { targets: explorers_to_kill@, handle_outgoing }),
    {
        KillExplorersManager { explorers_to_kill, handle_outgoing }
    }
}

/// The view of an optional kill queue.
pub open spec fn queue_view(q: Option<KillExplorersManager>) -> Option<KillQueueView> {
    match q {
        Some(m) => Some(m@),
        None => None,
    }
}

// --- Lifecycle ---

/// Start explorer, first state: order the explorer's AI to start.
#[derive(Debug, Clone, Copy, PartialEq, Eq, Structural)]
pub struct SendingExplorerStart {
    pub explorer_id: ID,
}

impl SendingExplorerStart {
    /// The state that starts explorer `explorer_id`.
    pub fn new(explorer_id: ID) -> (s: Self)
        ensures
            s.explorer_id == explorer_id,
    {
        SendingExplorerStart { explorer_id }
    }
}

/// Start explorer, second state: wait for the confirmation.
#[derive(Debug, Clone, Copy, PartialEq, Eq, Structural)]
pub struct WaitingExplorerStartResult {
    pub explorer_id: ID,
}

/// Stop explorer, first state: order the explorer's AI to stop.
#[derive(Debug, Clone, Copy, PartialEq, Eq, Structural)]
pub struct SendingExplorerStop {
    pub explorer_id: ID,
}

impl SendingExplorerStop {
    /// The state that stops explorer `explorer_id`.
    pub fn new(explorer_id: ID) -> (s: Self)
        ensures
            s.explorer_id == explorer_id,
    {
        SendingExplorerStop { explorer_id }
    }
}

/// Stop explorer, second state: wait for the confirmation.
#[derive(Debug, Clone, Copy, PartialEq, Eq, Structural)]
pub struct WaitingExplorerStopResult {
    pub explorer_id: ID,
}

/// Reset explorer, first state: order the explorer's AI to reset.
#[derive(Debug, Clone, Copy, PartialEq, Eq, Structural)]
pub struct SendingExplorerReset {
    pub explorer_id: ID,
}

impl SendingExplorerReset {
    /// The state that resets explorer `explorer_id`.
    pub fn new(explorer_id: ID) -> (s: Self)
        ensures
            s.explorer_id == explorer_id,
    {
        SendingExplorerReset { explorer_id }
    }
}

/// Reset explorer, second state: wait for the confirmation.
#[derive(Debug, Clone, Copy, PartialEq, Eq, Structural)]
pub struct WaitingExplorerResetResult {
    pub explorer_id: ID,
}

// --- Neighbors discovery ---

/// Neighbors discovery, first state: wait for the explorer to ask for the
/// neighbors of its planet.
#[derive(Debug, Clone, Copy, PartialEq, Eq, Structural)]
pub struct WaitingExplorerNeighborsRequest {
    pub explorer_id: ID,
}

impl WaitingExplorerNeighborsRequest {
    /// The state that waits for a neighbors request of explorer `explorer_id`.
    pub fn new(explorer_id: ID) -> (s: Self)
        ensures
            s.explorer_id == explorer_id,
    {
        WaitingExplorerNeighborsRequest { explorer_id }
    }
}

/// Neighbors discovery, second state: send the neighbors to the explorer.
pub struct SendingNeighbors {
    pub explorer_id: ID,
    pub neighbors: Vec<ID>,
}

// --- Resources ---

/// Supported resources, first state: ask the explorer which basic resources
/// its planet can generate.
#[derive(Debug, Clone, Copy, PartialEq, Eq, Structural)]
pub struct SendingSupportedResourcesRequest {
    pub explorer_id: ID,
}

impl SendingSupportedResourcesRequest {
    /// The state that asks explorer `explorer_id` for its planet's resources.
    pub fn new(explorer_id: ID) -> (s: Self)
        ensures
            s.explorer_id == explorer_id,
    {
        SendingSupportedResourcesRequest { explorer_id }
    }
}

/// Supported resources, second state: wait for the list and forward it.
#[derive(Debug, Clone, Copy, PartialEq, Eq, Structural)]
pub struct WaitingSupportedResourcesResult {
    pub explorer_id: ID,
}

/// Supported combinations, first state: ask the explorer which complex
/// resources its planet can combine.
#[derive(Debug, Clone, Copy, PartialEq, Eq, Structural)]
pub struct SendingSupportedCombinationRequest {
    pub explorer_id: ID,
}

impl SendingSupportedCombinationRequest {
    /// The state that asks explorer `explorer_id` for its planet's combinations.
    pub fn new(explorer_id: ID) -> (s: Self)
        ensures
            s.explorer_id == explorer_id,
    {
        SendingSupportedCombinationRequest { explorer_id }
    }
}

/// Supported combinations, second state: wait for the list and forward it.
#[derive(Debug, Clone, Copy, PartialEq, Eq, Structural)]
pub struct WaitingSupportedCombinationResult {
    pub explorer_id: ID,
}

/// Craft resource, first state: ask the explorer to generate a basic resource.
#[derive(Debug, Clone, Copy, PartialEq, Eq, Structural)]
pub struct SendingCraftResourceRequest {
    pub explorer_id: ID,
    pub to_craft: BasicResourceType,
}

/// Craft resource, second state: wait for the outcome.
#[derive(Debug, Clone, Copy, PartialEq, Eq, Structural)]
pub struct WaitingCraftResourceResult {
    pub explorer_id: ID,
    pub to_craft: BasicResourceType,
}

/// Combine resource, first state: ask the explorer to combine a complex
/// resource.
#[derive(Debug, Clone, Copy, PartialEq, Eq, Structural)]
pub struct SendingCombineResourceRequest {
    pub explorer_id: ID,
    pub to_combine: ComplexResourceType,
}

/// Combine resource, second state: wait for the outcome.
#[derive(Debug, Clone, Copy, PartialEq, Eq, Structural)]
pub struct WaitingCombineResourceResult {
    pub explorer_id: ID,
    pub to_combine: ComplexResourceType,
}

// --- Movement ---

/// Move to planet, entry when the explorer asks: wait for its travel request.
#[derive(Debug, Clone, Copy, PartialEq, Eq, Structural)]
pub struct WaitingTravelRequest {
    pub explorer_id: ID,
    pub curr_planet_id: ID,
}

/// Move to planet, entry when the orchestrator decides the move.
#[derive(Debug, Clone, Copy, PartialEq, Eq, Structural)]
pub struct SendManualMoveRequest {
    pub explorer_id: ID,
    pub dst_planet_id: ID,
    /// The planet the explorer leaves, `None` if it stands on none.
    pub curr_planet_id: Option<ID>,
}

impl SendManualMoveRequest {
    /// The state that moves explorer `explorer_id` from `curr_planet_id` to
    /// `dst_planet_id`.
    pub fn new(explorer_id: ID, dst_planet_id: ID, curr_planet_id: Option<ID>) -> (s: Self)
        ensures
            s == (SendManualMoveRequest { explorer_id, dst_planet_id, curr_planet_id }),
    {
        SendManualMoveRequest { explorer_id, dst_planet_id, curr_planet_id }
    }
}

impl SendManualMoveRequest {
    /// The state that moves explorer `explorer_id` to `dst_planet_id` from
    /// the planet the registry records it on, if any.
    pub fn from_registry(explorer_id: ID, dst_planet_id: ID, locations: &ExplorerLocations) -> (s: Self)
        ensures
            s.explorer_id == explorer_id,
            s.dst_planet_id == dst_planet_id,
            s.curr_planet_id == (if locations@.contains_key(explorer_id) {
                Some(locations@[explorer_id])
            } else {
                None
            }),
    {
        SendManualMoveRequest { explorer_id, dst_planet_id, curr_planet_id: locations.location_of(explorer_id) }
    }
}

/// Move to planet: tell the destination planet that the explorer arrives.
#[derive(Debug, Clone, Copy, PartialEq, Eq, Structural)]
pub struct SendIncomingRequest {
    pub explorer_id: ID,
    pub dst_planet_id: ID,
    pub curr_planet_id: Option<ID>,
}

impl SendIncomingRequest {
    /// The state that announces explorer `explorer_id` to `dst_planet_id`.
    pub fn new(explorer_id: ID, dst_planet_id: ID, curr_planet_id: Option<ID>) -> (s: Self)
        ensures
            s == (SendIncomingRequest { explorer_id, dst_planet_id, curr_planet_id }),
    {
        SendIncomingRequest { explorer_id, dst_planet_id, curr_planet_id }
    }
}

/// Move to planet: wait for the destination planet's answer.
#[derive(Debug, Clone, Copy, PartialEq, Eq, Structural)]
pub struct WaitingIncomingResponse {
    pub explorer_id: ID,
    pub dst_planet_id: ID,
    pub curr_planet_id: Option<ID>,
}

/// Move to planet: tell the current planet to let the explorer go.
#[derive(Debug, Clone, Copy, PartialEq, Eq, Structural)]
pub struct SendOutgoingRequest {
    pub explorer_id: ID,
    pub curr_planet_id: ID,
    pub dst_planet_id: ID,
}

impl SendOutgoingRequest {
    /// The state that asks `curr_planet_id` to release explorer `explorer_id`,
    /// which goes to `dst_planet_id`.
    pub fn new(explorer_id: ID, curr_planet_id: ID, dst_planet_id: ID) -> (s: Self)
        ensures
            s == (SendOutgoingRequest { explorer_id, curr_planet_id, dst_planet_id }),
    {
        SendOutgoingRequest { explorer_id, curr_planet_id, dst_planet_id }
    }
}

/// Move to planet: wait for the current planet's answer.
#[derive(Debug, Clone, Copy, PartialEq, Eq, Structural)]
pub struct WaitingOutgoingResponse {
    pub explorer_id: ID,
    pub curr_planet_id: ID,
    pub dst_planet_id: ID,
}

/// Move to planet: tell the explorer whether it moves.
#[derive(Debug, Clone, Copy, PartialEq, Eq, Structural)]
pub struct SendMoveRequest {
    pub explorer_id: ID,
    pub dst_planet_id: ID,
    /// Whether the move was granted.
    pub is_explorer_moving: bool,
}

/// Move to planet, last state: wait for the explorer to confirm.
#[derive(Debug, Clone, Copy, PartialEq, Eq, Structural)]
pub struct WaitMoveToPlanetResponse {
    pub explorer_id: ID,
    pub dst_planet_id: ID,
    pub is_explorer_moving: bool,
}

// --- The sum of all states ---

/// The state a conversation is in. The kill states carry the queue of
/// further explorers to kill, when the kill was started by a queue.
pub enum ConvoState {
    SendingBagContentRequest(SendingBagContentRequest),
    WaitingBagContentResponse(WaitingBagContentResponse),
    SendingKillExplorer(SendingKillExplorer, Option<KillExplorersManager>),
    WaitingKillExplorerResult(WaitingKillExplorerResult, Option<KillExplorersManager>),
    SendingDeadExpAdv(SendingDeadExpAdv, Option<KillExplorersManager>),
    WaitingDeadExpAdvResult(WaitingDeadExpAdvResult, Option<KillExplorersManager>),
    KillExplorersManager(KillExplorersManager),
    SendingExplorerStart(SendingExplorerStart),
    WaitingExplorerStartResult(WaitingExplorerStartResult),
    SendingExplorerStop(SendingExplorerStop),
    WaitingExplorerStopResult(WaitingExplorerStopResult),
    SendingExplorerReset(SendingExplorerReset),
    WaitingExplorerResetResult(WaitingExplorerResetResult),
    WaitingExplorerNeighborsRequest(WaitingExplorerNeighborsRequest),
    SendingNeighbors(SendingNeighbors),
    SendingSupportedResourcesRequest(SendingSupportedResourcesRequest),
    WaitingSupportedResourcesResult(WaitingSupportedResourcesResult),
    SendingSupportedCombinationRequest(SendingSupportedCombinationRequest),
    WaitingSupportedCombinationResult(WaitingSupportedCombinationResult),
    SendingCraftResourceRequest(SendingCraftResourceRequest),
    WaitingCraftResourceResult(WaitingCraftResourceResult),
    SendingCombineResourceRequest(SendingCombineResourceRequest),
    WaitingCombineResourceResult(WaitingCombineResourceResult),
    WaitingTravelRequest(WaitingTravelRequest),
    SendManualMoveRequest(SendManualMoveRequest),
    SendIncomingRequest(SendIncomingRequest),
    WaitingIncomingResponse(WaitingIncomingResponse),
    SendOutgoingRequest(SendOutgoingRequest),
    WaitingOutgoingResponse(WaitingOutgoingResponse),
    SendMoveRequest(SendMoveRequest),
    WaitMoveToPlanetResponse(WaitMoveToPlanetResponse),
    /// The terminal error state.
    Failed(ConvoError),
}

/// The mathematical form of a [`ConvoState`].
pub enum StateView {
    SendingBagContentRequest(SendingBagContentRequest),
    WaitingBagContentResponse(WaitingBagContentResponse),
    SendingKillExplorer(SendingKillExplorer, Option<KillQueueView>),
    WaitingKillExplorerResult(WaitingKillExplorerResult, Option<KillQueueView>),
    SendingDeadExpAdv(SendingDeadExpAdv, Option<KillQueueView>),
    WaitingDeadExpAdvResult(WaitingDeadExpAdvResult, Option<KillQueueView>),
    KillExplorersManager(KillQueueView),
    SendingExplorerStart(SendingExplorerStart),
    WaitingExplorerStartResult(WaitingExplorerStartResult),
    SendingExplorerStop(SendingExplorerStop),
    WaitingExplorerStopResult(WaitingExplorerStopResult),
    SendingExplorerReset(SendingExplorerReset),
    WaitingExplorerResetResult(WaitingExplorerResetResult),
    WaitingExplorerNeighborsRequest(WaitingExplorerNeighborsRequest),
    SendingNeighbors { explorer_id: ID, neighbors: Seq<ID> },
    SendingSupportedResourcesRequest(SendingSupportedResourcesRequest),
    WaitingSupportedResourcesResult(WaitingSupportedResourcesResult),
    SendingSupportedCombinationRequest(SendingSupportedCombinationRequest),
    WaitingSupportedCombinationResult(WaitingSupportedCombinationResult),
    SendingCraftResourceRequest(SendingCraftResourceRequest),
    WaitingCraftResourceResult(WaitingCraftResourceResult),
    SendingCombineResourceRequest(SendingCombineResourceRequest),
    WaitingCombineResourceResult(WaitingCombineResourceResult),
    WaitingTravelRequest(WaitingTravelRequest),
    SendManualMoveRequest(SendManualMoveRequest),
    SendIncomingRequest(SendIncomingRequest),
    WaitingIncomingResponse(WaitingIncomingResponse),
    SendOutgoingRequest(SendOutgoingRequest),
    WaitingOutgoingResponse(WaitingOutgoingResponse),
    SendMoveRequest(SendMoveRequest),
    WaitMoveToPlanetResponse(WaitMoveToPlanetResponse),
    Failed(ErrorView),
}

impl View for ConvoState {
    type V = StateView;

    open spec fn view(&self) -> StateView {
        match self {
            ConvoState::SendingBagContentRequest(s) => StateView::SendingBagContentRequest(*s),
            ConvoState::WaitingBagContentResponse(s) => StateView::WaitingBagContentResponse(*s),
            ConvoState::SendingKillExplorer(s, q) => StateView::SendingKillExplorer(*s, queue_view(*q)),
            ConvoState::WaitingKillExplorerResult(s, q) => StateView::WaitingKillExplorerResult(*s, queue_view(*q)),
            ConvoState::SendingDeadExpAdv(s, q) => StateView::SendingDeadExpAdv(*s, queue_view(*q)),
            ConvoState::WaitingDeadExpAdvResult(s, q) => StateView::WaitingDeadExpAdvResult(*s, queue_view(*q)),
            ConvoState::KillExplorersManager(m) => StateView::KillExplorersManager(m@),
            ConvoState::SendingExplorerStart(s) => StateView::SendingExplorerStart(*s),
            ConvoState::WaitingExplorerStartResult(s) => StateView::WaitingExplorerStartResult(*s),
            ConvoState::SendingExplorerStop(s) => StateView::SendingExplorerStop(*s),
            ConvoState::WaitingExplorerStopResult(s) => StateView::WaitingExplorerStopResult(*s),
            ConvoState::SendingExplorerReset(s) => StateView::SendingExplorerReset(*s),
            ConvoState::WaitingExplorerResetResult(s) => StateView::WaitingExplorerResetResult(*s),
            ConvoState::WaitingExplorerNeighborsRequest(s) => StateView::WaitingExplorerNeighborsRequest(*s),
            ConvoState::SendingNeighbors(s) =>
                StateView::SendingNeighbors { explorer_id: s.explorer_id, neighbors: s.neighbors@ },
            ConvoState::SendingSupportedResourcesRequest(s) => StateView::SendingSupportedResourcesRequest(*s),
            ConvoState::WaitingSupportedResourcesResult(s) => StateView::WaitingSupportedResourcesResult(*s),
            ConvoState::SendingSupportedCombinationRequest(s) => StateView::SendingSupportedCombinationRequest(*s),
            ConvoState::WaitingSupportedCombinationResult(s) => StateView::WaitingSupportedCombinationResult(*s),
            ConvoState::SendingCraftResourceRequest(s) => StateView::SendingCraftResourceRequest(*s),
            ConvoState::WaitingCraftResourceResult(s) => StateView::WaitingCraftResourceResult(*s),
            ConvoState::SendingCombineResourceRequest(s) => StateView::SendingCombineResourceRequest(*s),
            ConvoState::WaitingCombineResourceResult(s) => StateView::WaitingCombineResourceResult(*s),
            ConvoState::WaitingTravelRequest(s) => StateView::WaitingTravelRequest(*s),
            ConvoState::SendManualMoveRequest(s) => StateView::SendManualMoveRequest(*s),
            ConvoState::SendIncomingRequest(s) => StateView::SendIncomingRequest(*s),
            ConvoState::WaitingIncomingResponse(s) => StateView::WaitingIncomingResponse(*s),
            ConvoState::SendOutgoingRequest(s) => StateView::SendOutgoingRequest(*s),
            ConvoState::WaitingOutgoingResponse(s) => StateView::WaitingOutgoingResponse(*s),
            ConvoState::SendMoveRequest(s) => StateView::SendMoveRequest(*s),
            ConvoState::WaitMoveToPlanetResponse(s) => StateView::WaitMoveToPlanetResponse(*s),
            ConvoState::Failed(e) => StateView::Failed(e@),
        }
    }
}

} // verus!
