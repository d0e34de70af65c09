//! Plain definitions shared across the game: scenes, languages,
//! facing directions, menu sub-states and the screen dimensions.

use vstd::prelude::*;

verus! {

pub const SCREEN_WIDTH: i32 = 800;

pub const SCREEN_HEIGHT: i32 = 600;

#[derive(PartialEq, Eq, Structural, Clone, Copy, Debug)]
pub enum Scene {
    Boot,
    Menu,
    TransitionToDesktop,
    Desktop,
    CombatTransition,
    Combat,
    KernelPanic,
    AyasofyaInside,
}

#[derive(PartialEq, Eq, Structural, Clone, Copy, Debug)]
pub enum Language {
    English,
}

#[derive(PartialEq, Eq, Structural, Clone, Copy, Debug)]
pub enum Direction {
    Front,
    Left,
    Right,
}

/// Which page of the main menu is showing.
#[derive(PartialEq, Eq, Structural, Clone, Copy, Debug)]
pub enum MenuSubState {
    Main,
    SaveSelect,
    CreateSave,
    Settings,
    Credits,
}

} // verus!
