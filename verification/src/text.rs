//! Rendering of numbers and resource names inside diagnostic messages.
use crate::messages::{
    BasicResourceType, ComplexResourceType, ExplorerToOrchestratorKind, PlanetToOrchestratorKind,
    PossibleExpectedKinds,
};
use vstd::prelude::*;

verus! {

/// The decimal digit character for a value below ten.
pub open spec fn digit_char(d: nat) -> char {
    if d == 0 { '0' }
    else if d == 1 { '1' }
    else if d == 2 { '2' }
    else if d == 3 { '3' }
    else if d == 4 { '4' }
    else if d == 5 { '5' }
    else if d == 6 { '6' }
    else if d == 7 { '7' }
    else if d == 8 { '8' }
    else { '9' }
}

/// The decimal notation of a natural number, most significant digit first,
/// without leading zeros.
pub open spec fn decimal(n: nat) -> Seq<char>
    decreases n,
{
    if n < 10 {
        seq![digit_char(n)]
    } else {
        decimal(n / 10).push(digit_char(n % 10))
    }
}

/// The name of a basic resource, as its variant is spelled.
pub open spec fn basic_resource_name(r: BasicResourceType) -> Seq<char> {
    match r {
        BasicResourceType::Oxygen => "Oxygen"@,
        BasicResourceType::Hydrogen => "Hydrogen"@,
        BasicResourceType::Carbon => "Carbon"@,
        BasicResourceType::Silicon => "Silicon"@,
    }
}

/// The name of a complex resource, as its variant is spelled.
pub open spec fn complex_resource_name(r: ComplexResourceType) -> Seq<char> {
    match r {
        ComplexResourceType::Diamond => "Diamond"@,
        ComplexResourceType::Water => "Water"@,
        ComplexResourceType::Life => "Life"@,
        ComplexResourceType::Robot => "Robot"@,
        ComplexResourceType::Dolphin => "Dolphin"@,
        ComplexResourceType::AIPartner => "AIPartner"@,
    }
}

/// The name of an explorer message kind, as its variant is spelled.
pub open spec fn explorer_kind_name(k: ExplorerToOrchestratorKind) -> Seq<char> {
    match k {
        ExplorerToOrchestratorKind::StartExplorerAIResult => "StartExplorerAIResult"@,
        ExplorerToOrchestratorKind::KillExplorerResult => "KillExplorerResult"@,
        ExplorerToOrchestratorKind::ResetExplorerAIResult => "ResetExplorerAIResult"@,
        ExplorerToOrchestratorKind::StopExplorerAIResult => "StopExplorerAIResult"@,
        ExplorerToOrchestratorKind::MovedToPlanetResult => "MovedToPlanetResult"@,
        ExplorerToOrchestratorKind::CurrentPlanetResult => "CurrentPlanetResult"@,
        ExplorerToOrchestratorKind::SupportedResourceResult => "SupportedResourceResult"@,
        ExplorerToOrchestratorKind::SupportedCombinationResult => "SupportedCombinationResult"@,
        ExplorerToOrchestratorKind::GenerateResourceResponse => "GenerateResourceResponse"@,
        ExplorerToOrchestratorKind::CombineResourceResponse => "CombineResourceResponse"@,
        ExplorerToOrchestratorKind::BagContentResponse => "BagContentResponse"@,
        ExplorerToOrchestratorKind::NeighborsRequest => "NeighborsRequest"@,
        ExplorerToOrchestratorKind::TravelToPlanetRequest => "TravelToPlanetRequest"@,
    }
}

/// The name of a planet message kind, as its variant is spelled.
pub open spec fn planet_kind_name(k: PlanetToOrchestratorKind) -> Seq<char> {
    match k {
        PlanetToOrchestratorKind::SunrayAck => "SunrayAck"@,
        PlanetToOrchestratorKind::AsteroidAck => "AsteroidAck"@,
        PlanetToOrchestratorKind::StartPlanetAIResult => "StartPlanetAIResult"@,
        PlanetToOrchestratorKind::StopPlanetAIResult => "StopPlanetAIResult"@,
        PlanetToOrchestratorKind::KillPlanetResult => "KillPlanetResult"@,
        PlanetToOrchestratorKind::InternalStateResponse => "InternalStateResponse"@,
        PlanetToOrchestratorKind::IncomingExplorerResponse => "IncomingExplorerResponse"@,
        PlanetToOrchestratorKind::OutgoingExplorerResponse => "OutgoingExplorerResponse"@,
        PlanetToOrchestratorKind::Stopped => "Stopped"@,
    }
}

/// The debug notation of an awaited message kind.
pub open spec fn expected_kind_debug(k: PossibleExpectedKinds) -> Seq<char> {
    match k {
        PossibleExpectedKinds::PlanetToOrchKind(p) => "PlanetToOrchKind("@ + planet_kind_name(p) + ")"@,
        PossibleExpectedKinds::ExplorerToOrchKind(e) => "ExplorerToOrchKind("@ + explorer_kind_name(e) + ")"@,
    }
}

/// The debug notation of an optional awaited message kind.
pub open spec fn optional_kind_debug(k: Option<PossibleExpectedKinds>) -> Seq<char> {
    match k {
        Some(k) => "Some("@ + expected_kind_debug(k) + ")"@,
        None => "None"@,
    }
}

/// The debug notation of an optional id.
pub open spec fn optional_id_debug(i: Option<u32>) -> Seq<char> {
    match i {
        Some(i) => "Some("@ + decimal(i as nat) + ")"@,
        None => "None"@,
    }
}

fn digit_str(d: u32) -> (s: &'static str)
    requires
        d < 10,
    ensures
        s@ == seq![digit_char(d as nat)],
{
    proof {
        reveal_strlit("0");
        reveal_strlit("1");
        reveal_strlit("2");
        reveal_strlit("3");
        reveal_strlit("4");
        reveal_strlit("5");
        reveal_strlit("6");
        reveal_strlit("7");
        reveal_strlit("8");
        reveal_strlit("9");
    }
    if d == 0 { "0" }
    else if d == 1 { "1" }
    else if d == 2 { "2" }
    else if d == 3 { "3" }
    else if d == 4 { "4" }
    else if d == 5 { "5" }
    else if d == 6 { "6" }
    else if d == 7 { "7" }
    else if d == 8 { "8" }
    else { "9" }
}

/// Appends the decimal notation of `n` to `out`.
pub fn push_decimal(out: &mut String, n: u32)
    ensures
        final(out)@ == old(out)@ + decimal(n as nat),
    decreases n,
{
    if n >= 10 {
        push_decimal(out, n / 10);
    }
    out.append(digit_str(n % 10));
    proof {
        if n >= 10 {
            assert(decimal(n as nat) == decimal((n / 10) as nat).push(digit_char((n % 10) as nat)));
        }
    }
}

/// Appends the name of a basic resource to `out`.
pub fn push_basic_resource_name(out: &mut String, r: BasicResourceType)
    ensures
        final(out)@ == old(out)@ + basic_resource_name(r),
{
    let name = match r {
        BasicResourceType::Oxygen => "Oxygen",
        BasicResourceType::Hydrogen => "Hydrogen",
        BasicResourceType::Carbon => "Carbon",
        BasicResourceType::Silicon => "Silicon",
    };
    out.append(name);
}

/// Appends the name of a complex resource to `out`.
pub fn push_complex_resource_name(out: &mut String, r: ComplexResourceType)
    ensures
        final(out)@ == old(out)@ + complex_resource_name(r),
{
    let name = match r {
        ComplexResourceType::Diamond => "Diamond",
        ComplexResourceType::Water => "Water",
        ComplexResourceType::Life => "Life",
        ComplexResourceType::Robot => "Robot",
        ComplexResourceType::Dolphin => "Dolphin",
        ComplexResourceType::AIPartner => "AIPartner",
    };
    out.append(name);
}

/// Appends the debug notation of an awaited message kind to `out`.
pub fn push_expected_kind_debug(out: &mut String, k: PossibleExpectedKinds)
    ensures
        final(out)@ == old(out)@ + expected_kind_debug(k),
{
    match k {
        PossibleExpectedKinds::PlanetToOrchKind(p) => {
            out.append("PlanetToOrchKind(");
            let name = match p {
                PlanetToOrchestratorKind::SunrayAck => "SunrayAck",
                PlanetToOrchestratorKind::AsteroidAck => "AsteroidAck",
                PlanetToOrchestratorKind::StartPlanetAIResult => "StartPlanetAIResult",
                PlanetToOrchestratorKind::StopPlanetAIResult => "StopPlanetAIResult",
                PlanetToOrchestratorKind::KillPlanetResult => "KillPlanetResult",
                PlanetToOrchestratorKind::InternalStateResponse => "InternalStateResponse",
                PlanetToOrchestratorKind::IncomingExplorerResponse => "IncomingExplorerResponse",
                PlanetToOrchestratorKind::OutgoingExplorerResponse => "OutgoingExplorerResponse",
                PlanetToOrchestratorKind::Stopped => "Stopped",
            };
            out.append(name);
            out.append(")");
        },
        PossibleExpectedKinds::ExplorerToOrchKind(e) => {
            out.append("ExplorerToOrchKind(");
            let name = match e {
                ExplorerToOrchestratorKind::StartExplorerAIResult => "StartExplorerAIResult",
                ExplorerToOrchestratorKind::KillExplorerResult => "KillExplorerResult",
                ExplorerToOrchestratorKind::ResetExplorerAIResult => "ResetExplorerAIResult",
                ExplorerToOrchestratorKind::StopExplorerAIResult => "StopExplorerAIResult",
                ExplorerToOrchestratorKind::MovedToPlanetResult => "MovedToPlanetResult",
                ExplorerToOrchestratorKind::CurrentPlanetResult => "CurrentPlanetResult",
                ExplorerToOrchestratorKind::SupportedResourceResult => "SupportedResourceResult",
                ExplorerToOrchestratorKind::SupportedCombinationResult => "SupportedCombinationResult",
                ExplorerToOrchestratorKind::GenerateResourceResponse => "GenerateResourceResponse",
                ExplorerToOrchestratorKind::CombineResourceResponse => "CombineResourceResponse",
                ExplorerToOrchestratorKind::BagContentResponse => "BagContentResponse",
                ExplorerToOrchestratorKind::NeighborsRequest => "NeighborsRequest",
                ExplorerToOrchestratorKind::TravelToPlanetRequest => "TravelToPlanetRequest",
            };
            out.append(name);
            out.append(")");
        },
    }
}

/// Appends the debug notation of an optional awaited message kind to `out`.
pub fn push_optional_kind_debug(out: &mut String, k: Option<PossibleExpectedKinds>)
    ensures
        final(out)@ == old(out)@ + optional_kind_debug(k),
{
    match k {
        Some(k) => {
            out.append("Some(");
            push_expected_kind_debug(out, k);
            out.append(")");
        },
        None => {
            out.append("None");
        },
    }
}

/// Appends the debug notation of an optional id to `out`.
pub fn push_optional_id_debug(out: &mut String, i: Option<u32>)
    ensures
        final(out)@ == old(out)@ + optional_id_debug(i),
{
    match i {
        Some(i) => {
            out.append("Some(");
            push_decimal(out, i);
            out.append(")");
        },
        None => {
            out.append("None");
        },
    }
}

} // verus!
