//! The errors that end a conversation, and the text they are reported with.
use crate::messages::{BasicResourceType, ComplexResourceType, PossibleExpectedKinds, ID};
use crate::text::{
    basic_resource_name, complex_resource_name, decimal, optional_id_debug, optional_kind_debug,
    push_basic_resource_name, push_complex_resource_name, push_decimal, push_optional_id_debug,
    push_optional_kind_debug,
};
use vstd::prelude::*;

verus! {

/// Why a conversation reached its error state.
pub enum ConvoError {
    /// A message of another kind than the awaited one arrived.
    WrongMessage,
    /// No channel towards the planet is registered.
    PlanetSenderNotFound(ID),
    /// No channel towards the explorer is registered.
    ExplorerSenderNotFound(ID),
    /// The channel towards the explorer is closed.
    MessageToExplorerFailed(ID),
    /// The channel towards the planet is closed.
    MessageToPlanetFailed(ID),
    /// The channel towards the user interface is closed.
    MessageToUiFailed,
    /// The request to take an explorer in (or, during a move, to let it go)
    /// could not be delivered to this planet.
    IncomingMessageFailed(ID),
    /// The request to let an explorer go could not be delivered to this
    /// planet.
    OutgoingMessageFailed(ID),
    /// The destination planet refused to take the explorer in.
    DstPlanetFailed { planet_id: ID, explorer_id: ID },
    /// The planet an explorer leaves refused to let it go.
    CurrPlanetFailed { planet_id: ID, explorer_id: ID },
    /// The channel from an explorer to its new planet is missing.
    NewSenderToPlanetNotFound(ID),
    /// The galaxy holds no planet with this id.
    PlanetNotFound(ID),
    /// An explorer failed to generate a basic resource.
    CraftingFailed { explorer_id: ID, err: String, resource: BasicResourceType },
    /// An explorer failed to combine a complex resource.
    CombineFailed { explorer_id: ID, err: String, combination: ComplexResourceType },
}

/// The mathematical form of a [`ConvoError`].
pub enum ErrorView {
    WrongMessage,
    PlanetSenderNotFound(ID),
    ExplorerSenderNotFound(ID),
    MessageToExplorerFailed(ID),
    MessageToPlanetFailed(ID),
    MessageToUiFailed,
    IncomingMessageFailed(ID),
    OutgoingMessageFailed(ID),
    DstPlanetFailed { planet_id: ID, explorer_id: ID },
    CurrPlanetFailed { planet_id: ID, explorer_id: ID },
    NewSenderToPlanetNotFound(ID),
    PlanetNotFound(ID),
    CraftingFailed { explorer_id: ID, err: Seq<char>, resource: BasicResourceType },
    CombineFailed { explorer_id: ID, err: Seq<char>, combination: ComplexResourceType },
}

impl View for ConvoError {
    type V = ErrorView;

    open spec fn view(&self) -> ErrorView {
        match self {
            ConvoError::WrongMessage => ErrorView::WrongMessage,
            ConvoError::PlanetSenderNotFound(id) => ErrorView::PlanetSenderNotFound(*id),
            ConvoError::ExplorerSenderNotFound(id) => ErrorView::ExplorerSenderNotFound(*id),
            ConvoError::MessageToExplorerFailed(id) => ErrorView::MessageToExplorerFailed(*id),
            ConvoError::MessageToPlanetFailed(id) => ErrorView::MessageToPlanetFailed(*id),
            ConvoError::MessageToUiFailed => ErrorView::MessageToUiFailed,
            ConvoError::IncomingMessageFailed(id) => ErrorView::IncomingMessageFailed(*id),
            ConvoError::OutgoingMessageFailed(id) => ErrorView::OutgoingMessageFailed(*id),
            ConvoError::DstPlanetFailed { planet_id, explorer_id } =>
                ErrorView::DstPlanetFailed { planet_id: *planet_id, explorer_id: *explorer_id },
            ConvoError::CurrPlanetFailed { planet_id, explorer_id } =>
                ErrorView::CurrPlanetFailed { planet_id: *planet_id, explorer_id: *explorer_id },
            ConvoError::NewSenderToPlanetNotFound(id) => ErrorView::NewSenderToPlanetNotFound(*id),
            ConvoError::PlanetNotFound(id) => ErrorView::PlanetNotFound(*id),
            ConvoError::CraftingFailed { explorer_id, err, resource } =>
                ErrorView::CraftingFailed { explorer_id: *explorer_id, err: err@, resource: *resource },
            ConvoError::CombineFailed { explorer_id, err, combination } =>
                ErrorView::CombineFailed { explorer_id: *explorer_id, err: err@, combination: *combination },
        }
    }
}

/// The decimal notation of an id.
pub open spec fn id_text(id: ID) -> Seq<char> {
    decimal(id as nat)
}

/// The human-readable report of an error.
pub open spec fn error_text(e: ErrorView) -> Seq<char> {
    match e {
        ErrorView::WrongMessage => "Wrong Message Received"@,
        ErrorView::PlanetSenderNotFound(id) => "sender to planet "@ + id_text(id) + " not found"@,
        ErrorView::ExplorerSenderNotFound(id) => "sender to explorer "@ + id_text(id) + " not found"@,
        ErrorView::MessageToExplorerFailed(id) => "failed to send message to explorer "@ + id_text(id),
        ErrorView::MessageToPlanetFailed(id) => "failed to send message to planet "@ + id_text(id),
        ErrorView::MessageToUiFailed => "failed to send message to ui"@,
        ErrorView::IncomingMessageFailed(id) =>
            "Failed to send Incoming message to destination planet "@ + id_text(id),
        ErrorView::OutgoingMessageFailed(id) =>
            "Failed to send Outgoing message to current planet "@ + id_text(id),
        ErrorView::DstPlanetFailed { planet_id, explorer_id } =>
            "Destination planet "@ + id_text(planet_id) + " failed to acquire incoming explorer "@
                + id_text(explorer_id),
        ErrorView::CurrPlanetFailed { planet_id, explorer_id } =>
            "Current planet "@ + id_text(planet_id) + " failed to let go of outgoing explorer "@
                + id_text(explorer_id),
        ErrorView::NewSenderToPlanetNotFound(id) =>
            "sender to dest planet "@ + id_text(id)
                + " not found, planets already changed explorer channels but explorer did not"@,
        ErrorView::PlanetNotFound(id) =>
            "Planet "@ + id_text(id) + " not found in current galaxy, can't provide neighbors"@,
        ErrorView::CraftingFailed { explorer_id, err, resource } =>
            "Explorer "@ + id_text(explorer_id) + ", failed to craft "@ + basic_resource_name(resource)
                + ": "@ + err,
        ErrorView::CombineFailed { explorer_id, err, combination } =>
            "Explorer "@ + id_text(explorer_id) + ", failed to craft "@ + complex_resource_name(combination)
                + ": "@ + err,
    }
}

impl ConvoError {
    /// The human-readable report of this error.
    pub fn stringify(&self) -> (s: String)
        ensures
            s@ == error_text(self@),
    {
        let mut s = String::new();
        match self {
            ConvoError::WrongMessage => {
                s.append("Wrong Message Received");
            },
            ConvoError::PlanetSenderNotFound(id) => {
                s.append("sender to planet ");
                push_decimal(&mut s, *id);
                s.append(" not found");
            },
            ConvoError::ExplorerSenderNotFound(id) => {
                s.append("sender to explorer ");
                push_decimal(&mut s, *id);
                s.append(" not found");
            },
            ConvoError::MessageToExplorerFailed(id) => {
                s.append("failed to send message to explorer ");
                push_decimal(&mut s, *id);
            },
            ConvoError::MessageToPlanetFailed(id) => {
                s.append("failed to send message to planet ");
                push_decimal(&mut s, *id);
            },
            ConvoError::MessageToUiFailed => {
                s.append("failed to send message to ui");
            },
            ConvoError::IncomingMessageFailed(id) => {
                s.append("Failed to send Incoming message to destination planet ");
                push_decimal(&mut s, *id);
            },
            ConvoError::OutgoingMessageFailed(id) => {
                s.append("Failed to send Outgoing message to current planet ");
                push_decimal(&mut s, *id);
            },
            ConvoError::DstPlanetFailed { planet_id, explorer_id } => {
                s.append("Destination planet ");
                push_decimal(&mut s, *planet_id);
                s.append(" failed to acquire incoming explorer ");
                push_decimal(&mut s, *explorer_id);
            },
            ConvoError::CurrPlanetFailed { planet_id, explorer_id } => {
                s.append("Current planet ");
                push_decimal(&mut s, *planet_id);
                s.append(" failed to let go of outgoing explorer ");
                push_decimal(&mut s, *explorer_id);
            },
            ConvoError::NewSenderToPlanetNotFound(id) => {
                s.append("sender to dest planet ");
                push_decimal(&mut s, *id);
                s.append(" not found, planets already changed explorer channels but explorer did not");
            },
            ConvoError::PlanetNotFound(id) => {
                s.append("Planet ");
                push_decimal(&mut s, *id);
                s.append(" not found in current galaxy, can't provide neighbors");
            },
            ConvoError::CraftingFailed { explorer_id, err, resource } => {
                s.append("Explorer ");
                push_decimal(&mut s, *explorer_id);
                s.append(", failed to craft ");
                push_basic_resource_name(&mut s, *resource);
                s.append(": ");
                s.append(err.as_str());
            },
            ConvoError::CombineFailed { explorer_id, err, combination } => {
                s.append("Explorer ");
                push_decimal(&mut s, *explorer_id);
                s.append(", failed to craft ");
                push_complex_resource_name(&mut s, *combination);
                s.append(": ");
                s.append(err.as_str());
            },
        }
        s
    }
}

/// A conversation ran out of time waiting for a message.
#[derive(Debug, Clone, Copy)]
pub struct TimeoutErrorType {
    pub conversation_id: ID,
    pub entity_ids: (Option<ID>, Option<ID>),
    pub expected_kind: Option<PossibleExpectedKinds>,
}

/// The human-readable report of a timeout.
pub open spec fn timeout_text(t: TimeoutErrorType) -> Seq<char> {
    "Conversation "@ + id_text(t.conversation_id) + " timed out waiting for "@
        + optional_kind_debug(t.expected_kind) + " (entities: ("@ + optional_id_debug(t.entity_ids.0)
        + ", "@ + optional_id_debug(t.entity_ids.1) + "))"@
}

impl TimeoutErrorType {
    /// The timeout of conversation `conversation_id`, concerning `entity_ids`,
    /// while it waited for `expected_kind`.
    pub fn new(
        conversation_id: ID,
        entity_ids: (Option<ID>, Option<ID>),
        expected_kind: Option<PossibleExpectedKinds>,
    ) -> (t: Self)
        ensures
            t == (TimeoutErrorType { conversation_id, entity_ids, expected_kind }),
    {
        TimeoutErrorType { conversation_id, entity_ids, expected_kind }
    }

    /// The human-readable report of this timeout.
    pub fn stringify(&self) -> (s: String)
        ensures
            s@ == timeout_text(*self),
    {
        let mut s = String::new();
        s.append("Conversation ");
        push_decimal(&mut s, self.conversation_id);
        s.append(" timed out waiting for ");
        push_optional_kind_debug(&mut s, self.expected_kind);
        s.append(" (entities: (");
        push_optional_id_debug(&mut s, self.entity_ids.0);
        s.append(", ");
        push_optional_id_debug(&mut s, self.entity_ids.1);
        s.append("))");
        s
    }
}

} // verus!
