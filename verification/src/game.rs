//! The closed enumeration of discrete game states, the mapping from the raw
//! codes found in game memory, and the phases of the external timer service.

use crate::tracker::{spec_changed, spec_changed_from_to, spec_changed_to, TrackedQuantity};
use vstd::prelude::*;

verus! {

/// The discrete game/UI state. Raw codes outside the known set map to
/// `Unrecognized`, which matches no rule and is never fatal.
#[derive(Clone, Copy, Debug, PartialEq, Eq, Structural)]
pub enum GameState {
    Playing,
    LevelSelection,
    CharacterSelection,
    CharacterSelectionWithCharacterSelected,
    EnteringLevel,
    TitleScreen,
    EnteringChapterSelection,
    MainMenu,
    LevelSelectionWithBossUnlocking,
    Unrecognized,
}

/// The raw in-memory code of each recognized discrete state. Every known
/// build variant uses this same code table.
pub open spec fn spec_state_of_raw(raw: u32) -> GameState {
    if raw == 0 {
        GameState::Playing
    } else if raw == 1 {
        GameState::LevelSelection
    } else if raw == 4 {
        GameState::CharacterSelection
    } else if raw == 5 {
        GameState::CharacterSelectionWithCharacterSelected
    } else if raw == 7 {
        GameState::EnteringLevel
    } else if raw == 11 {
        GameState::TitleScreen
    } else if raw == 13 {
        GameState::EnteringChapterSelection
    } else if raw == 15 {
        GameState::MainMenu
    } else if raw == 22 {
        GameState::LevelSelectionWithBossUnlocking
    } else {
        GameState::Unrecognized
    }
}

impl GameState {
    /// Converts a raw state code straight after the memory read, so the
    /// decision rules never see raw codes.
    pub fn from_raw(raw: u32) -> (r: GameState)
        ensures
            r == spec_state_of_raw(raw),
    {
        match raw {
            0 => GameState::Playing,
            1 => GameState::LevelSelection,
            4 => GameState::CharacterSelection,
            5 => GameState::CharacterSelectionWithCharacterSelected,
            7 => GameState::EnteringLevel,
            11 => GameState::TitleScreen,
            13 => GameState::EnteringChapterSelection,
            15 => GameState::MainMenu,
            22 => GameState::LevelSelectionWithBossUnlocking,
            _ => GameState::Unrecognized,
        }
    }
}

impl TrackedQuantity<GameState> {
    pub fn changed(&self) -> (r: bool)
        ensures
            r == spec_changed(*self),
    {
        self.previous != self.current
    }

    pub fn changed_to(&self, target: GameState) -> (r: bool)
        ensures
            r == spec_changed_to(*self, target),
    {
        self.current == target && self.previous != target
    }

    pub fn changed_from_to(&self, a: GameState, b: GameState) -> (r: bool)
        ensures
            r == spec_changed_from_to(*self, a, b),
    {
        self.previous == a && self.current == b
    }
}

/// The phase the external timer service reports. The engine only ever reads
/// it; phases it does not know count as `Unrecognized`.
#[derive(Clone, Copy, Debug, PartialEq, Eq, Structural)]
pub enum TimerPhase {
    NotRunning,
    Running,
    Paused,
    Ended,
    Unrecognized,
}

} // verus!
