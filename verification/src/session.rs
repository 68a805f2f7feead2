//! Platform-neutral application and session transitions: modes, game speed
//! and the commands player actions become.

use vstd::prelude::*;

use crate::editor::EditorError;
use crate::game::{FieldAdjustment, FieldKind, GameCommand, WorldId};
use crate::input::Action;

verus! {

/// Steps the fixed clock may run in one frame.
pub const MAX_STEPS_PER_FRAME: usize = 15;

#[derive(Clone, Copy, Debug, PartialEq, Eq, Structural)]
pub enum AppMode {
    Playing,
    EditingScenario,
    Settings,
}

#[derive(Clone, Copy, Debug, PartialEq, Eq, PartialOrd, Ord, Structural)]
pub enum GameSpeed {
    Paused,
    Normal,
    Fast,
    VeryFast,
}

pub open spec fn speed_multiplier(speed: GameSpeed) -> u8 {
    match speed {
        GameSpeed::Paused => 0,
        GameSpeed::Normal => 1,
        GameSpeed::Fast => 2,
        GameSpeed::VeryFast => 4,
    }
}

pub open spec fn faster_speed(speed: GameSpeed) -> GameSpeed {
    match speed {
        GameSpeed::Paused => GameSpeed::Normal,
        GameSpeed::Normal => GameSpeed::Fast,
        GameSpeed::Fast => GameSpeed::VeryFast,
        GameSpeed::VeryFast => GameSpeed::VeryFast,
    }
}

pub open spec fn slower_speed(speed: GameSpeed) -> GameSpeed {
    match speed {
        GameSpeed::Paused => GameSpeed::Paused,
        GameSpeed::Normal => GameSpeed::Paused,
        GameSpeed::Fast => GameSpeed::Normal,
        GameSpeed::VeryFast => GameSpeed::Fast,
    }
}

impl Default for GameSpeed {
    fn default() -> (speed: Self)
        ensures
            speed == GameSpeed::Normal,
    {
        GameSpeed::Normal
    }
}

impl GameSpeed {
    /// Simulation steps per wall-clock step.
    pub fn multiplier(self) -> (multiplier: u8)
        ensures
            multiplier == speed_multiplier(self),
    {
        match self {
            GameSpeed::Paused => 0,
            GameSpeed::Normal => 1,
            GameSpeed::Fast => 2,
            GameSpeed::VeryFast => 4,
        }
    }

    pub fn faster(self) -> (speed: Self)
        ensures
            speed == faster_speed(self),
    {
        match self {
            GameSpeed::Paused => GameSpeed::Normal,
            GameSpeed::Normal => GameSpeed::Fast,
            GameSpeed::Fast | GameSpeed::VeryFast => GameSpeed::VeryFast,
        }
    }

    pub fn slower(self) -> (speed: Self)
        ensures
            speed == slower_speed(self),
    {
        match self {
            GameSpeed::Paused | GameSpeed::Normal => GameSpeed::Paused,
            GameSpeed::Fast => GameSpeed::Normal,
            GameSpeed::VeryFast => GameSpeed::Fast,
        }
    }
}

/// Speeding up never slows the game and slowing down never speeds it up;
/// both stop at the ends of the range.
pub proof fn lemma_speed_steps_are_monotonic(speed: GameSpeed)
    ensures
        speed_multiplier(faster_speed(speed)) >= speed_multiplier(speed),
        speed_multiplier(slower_speed(speed)) <= speed_multiplier(speed),
        faster_speed(GameSpeed::VeryFast) == GameSpeed::VeryFast,
        slower_speed(GameSpeed::Paused) == GameSpeed::Paused,
{
}

/// Below the top speed, slowing down undoes speeding up; above pause,
/// speeding up undoes slowing down.
pub proof fn lemma_speed_steps_undo_each_other(speed: GameSpeed)
    ensures
        speed != GameSpeed::VeryFast ==> slower_speed(faster_speed(speed)) == speed,
        speed != GameSpeed::Paused ==> faster_speed(slower_speed(speed)) == speed,
{
}

/// Why an application transition was refused.
#[derive(Clone, Copy, Debug, PartialEq, Eq, Structural)]
pub enum AppTransitionError {
    Editor(EditorError),
}

#[derive(Clone, Copy, Debug, PartialEq, Eq, Structural)]
pub enum PointerIntent {
    Select,
    Launch,
}

/// The command a keyboard action issues: a launch from the selected world to
/// the hovered one, or a field adjustment of the selected world; nothing
/// when a needed world is missing or the action is not a command.
pub open spec fn action_command(
    action: Action,
    selected_world: Option<WorldId>,
    hovered_world: Option<WorldId>,
    selected_field: FieldKind,
) -> Option<GameCommand> {
    match action {
        Action::Launch => match (selected_world, hovered_world) {
            (Some(source), Some(destination)) => Some(GameCommand::Launch { source, destination }),
            _ => None,
        },
        Action::Decrease => match selected_world {
            Some(world) => Some(
                GameCommand::TuneField {
                    world,
                    field: selected_field,
                    adjustment: FieldAdjustment::Decrease,
                },
            ),
            None => None,
        },
        Action::Increase => match selected_world {
            Some(world) => Some(
                GameCommand::TuneField {
                    world,
                    field: selected_field,
                    adjustment: FieldAdjustment::Increase,
                },
            ),
            None => None,
        },
        _ => None,
    }
}

pub fn game_command_for_action(
    action: Action,
    selected_world: Option<WorldId>,
    hovered_world: Option<WorldId>,
    selected_field: FieldKind,
) -> (command: Option<GameCommand>)
    ensures
        command == action_command(action, selected_world, hovered_world, selected_field),
{
    match action {
        Action::Launch => {
            let source = match selected_world {
                Some(world) => world,
                None => return None,
            };
            let destination = match hovered_world {
                Some(world) => world,
                None => return None,
            };
            Some(GameCommand::Launch { source, destination })
        },
        Action::Decrease | Action::Increase => {
            let world = match selected_world {
                Some(world) => world,
                None => return None,
            };
            Some(
                GameCommand::TuneField {
                    world,
                    field: selected_field,
                    adjustment: if action == Action::Decrease {
                        FieldAdjustment::Decrease
                    } else {
                        FieldAdjustment::Increase
                    },
                },
            )
        },
        _ => None,
    }
}

/// The command a pointer release issues once the world under it is known:
/// selecting issues nothing, and a launch needs a selected source.
pub fn pointer_command(
    target: Option<WorldId>,
    selected_world: Option<WorldId>,
    intent: PointerIntent,
) -> (command: Option<GameCommand>)
    ensures
        command == (match (target, intent, selected_world) {
            (Some(destination), PointerIntent::Launch, Some(source)) => Some(
                GameCommand::Launch { source, destination },
            ),
            _ => None,
        }),
{
    let destination = match target {
        Some(world) => world,
        None => return None,
    };
    match intent {
        PointerIntent::Select => None,
        PointerIntent::Launch => match selected_world {
            Some(source) => Some(GameCommand::Launch { source, destination }),
            None => None,
        },
    }
}

} // verus!
