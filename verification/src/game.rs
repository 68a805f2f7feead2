//! Campaign vocabulary the client's decisions speak: worlds, factions,
//! fields, commands and their rejections.

use vstd::prelude::*;

verus! {

/// A campaign world, by its index.
#[derive(Clone, Copy, Debug, PartialEq, Eq, PartialOrd, Ord, Hash, Structural)]
pub struct WorldId(pub u8);

/// A simulation tick.
#[derive(Clone, Copy, Debug, PartialEq, Eq, PartialOrd, Ord, Hash, Structural)]
pub struct Tick(pub u64);

#[derive(Clone, Copy, Debug, PartialEq, Eq, Structural)]
pub enum Faction {
    Union,
    Helix,
    Choir,
}

#[derive(Clone, Copy, Debug, PartialEq, Eq, Structural)]
pub enum FieldKind {
    Atmosphere,
    Hydrosphere,
    Topology,
}

#[derive(Clone, Copy, Debug, PartialEq, Eq, Structural)]
pub enum FieldAdjustment {
    Decrease,
    Increase,
}

#[derive(Clone, Copy, Debug, PartialEq, Eq, Structural)]
pub enum HazardKind {
    IonStorm,
    GravityTide,
}

/// A command the player issues to the simulation.
#[derive(Clone, Copy, Debug, PartialEq, Eq, Structural)]
pub enum GameCommand {
    Launch { source: WorldId, destination: WorldId },
    TuneField { world: WorldId, field: FieldKind, adjustment: FieldAdjustment },
}

/// Why the simulation refused a command.
#[derive(Clone, Copy, Debug, PartialEq, Eq, Structural)]
pub enum CommandRejection {
    WrongTick,
    DuplicateSequence,
    CampaignFinished,
    InvalidWorld,
    SameSourceAndTarget,
    SourceNotOwnedByIssuer,
    InsufficientEnergy,
    FieldAtLimit,
}

/// The command-tray text of `rejection`.
pub open spec fn rejection_text(rejection: CommandRejection) -> Seq<char> {
    match rejection {
        CommandRejection::WrongTick => "REJECTED - WRONG TICK"@,
        CommandRejection::DuplicateSequence => "REJECTED - DUPLICATE COMMAND"@,
        CommandRejection::CampaignFinished => "REJECTED - CAMPAIGN FINISHED"@,
        CommandRejection::InvalidWorld => "REJECTED - INVALID WORLD"@,
        CommandRejection::SameSourceAndTarget => "REJECTED - CHOOSE ANOTHER TARGET"@,
        CommandRejection::SourceNotOwnedByIssuer => "REJECTED - SOURCE IS NOT UNION"@,
        CommandRejection::InsufficientEnergy => "REJECTED - INSUFFICIENT ENERGY"@,
        CommandRejection::FieldAtLimit => "REJECTED - FIELD AT LIMIT"@,
    }
}

pub fn command_rejection_label(rejection: CommandRejection) -> (label: &'static str)
    ensures
        label@ == rejection_text(rejection),
{
    match rejection {
        CommandRejection::WrongTick => "REJECTED - WRONG TICK",
        CommandRejection::DuplicateSequence => "REJECTED - DUPLICATE COMMAND",
        CommandRejection::CampaignFinished => "REJECTED - CAMPAIGN FINISHED",
        CommandRejection::InvalidWorld => "REJECTED - INVALID WORLD",
        CommandRejection::SameSourceAndTarget => "REJECTED - CHOOSE ANOTHER TARGET",
        CommandRejection::SourceNotOwnedByIssuer => "REJECTED - SOURCE IS NOT UNION",
        CommandRejection::InsufficientEnergy => "REJECTED - INSUFFICIENT ENERGY",
        CommandRejection::FieldAtLimit => "REJECTED - FIELD AT LIMIT",
    }
}

/// The tag a faction's route instances are sorted and drawn by.
pub fn faction_tag(faction: Faction) -> (tag: u8)
    ensures
        tag == (match faction {
            Faction::Union => 0u8,
            Faction::Helix => 1u8,
            Faction::Choir => 2u8,
        }),
{
    match faction {
        Faction::Union => 0,
        Faction::Helix => 1,
        Faction::Choir => 2,
    }
}

/// The shader parameter of a world's hazard.
pub fn hazard_parameter(hazard: Option<HazardKind>) -> (parameter: u32)
    ensures
        parameter == (match hazard {
            None => 0u32,
            Some(HazardKind::IonStorm) => 1u32,
            Some(HazardKind::GravityTide) => 2u32,
        }),
{
    match hazard {
        None => 0,
        Some(HazardKind::IonStorm) => 1,
        Some(HazardKind::GravityTide) => 2,
    }
}

/// The key routes are ordered by: source, destination and faction tag.
pub fn route_key(source: WorldId, destination: WorldId, faction: Faction) -> (key: (u8, u8, u8))
    ensures
        key.0 == source.0,
        key.1 == destination.0,
        key.2 == (match faction {
            Faction::Union => 0u8,
            Faction::Helix => 1u8,
            Faction::Choir => 2u8,
        }),
{
    (source.0, destination.0, faction_tag(faction))
}

} // verus!
