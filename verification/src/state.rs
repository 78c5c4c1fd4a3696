//! The game's top-level state machine: playing, or paused in the menu.

use vstd::prelude::*;

verus! {

/// The two screens the game can show: the pause menu, or the game itself.
/// A fresh game starts in `Game`.
#[derive(Clone, Copy, PartialEq, Eq, Structural, Debug)]
pub enum GameState {
    PauseMenu,
    Game,
}

impl Default for GameState {
    /// A fresh game starts unpaused.
    fn default() -> (s: GameState)
        ensures
            s == GameState::Game,
    {
        GameState::Game
    }
}

/// The state the escape key switches to: pausing flips to the menu,
/// and the menu flips back to the game.
pub open spec fn toggled(s: GameState) -> GameState {
    match s {
        GameState::PauseMenu => GameState::Game,
        GameState::Game => GameState::PauseMenu,
    }
}

/// Flip between the game and the pause menu.
pub fn toggle(s: GameState) -> (r: GameState)
    ensures
        r == toggled(s),
{
    match s {
        GameState::PauseMenu => GameState::Game,
        GameState::Game => GameState::PauseMenu,
    }
}

/// Decide the next state from one frame's input: the escape key, freshly
/// pressed, flips between the game and the pause menu; otherwise the state
/// is left alone.
pub fn next_state(escape_just_pressed: bool, current: GameState) -> (r: Option<GameState>)
    ensures
        escape_just_pressed ==> r == Some(toggled(current)),
        !escape_just_pressed ==> r is None,
{
    if escape_just_pressed {
        Some(toggle(current))
    } else {
        None
    }
}

/// Pausing twice is a no-op: the escape key always returns the game to
/// the state it was in before.
pub proof fn lemma_toggled_involutive(s: GameState)
    ensures
        toggled(toggled(s)) == s,
{
}

/// The escape key never leaves the state where it was: each press
/// switches screens.
pub proof fn lemma_toggled_changes(s: GameState)
    ensures
        toggled(s) != s,
{
}

} // verus!
