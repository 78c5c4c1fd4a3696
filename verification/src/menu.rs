//! The pause menu: what its quit button does, when the menu is on screen,
//! and the layout the menu is built from.

use vstd::prelude::*;

use crate::state::GameState;

verus! {

/// How the pointer relates to the quit button, as the UI reports it
/// whenever that relation changes.
#[derive(Clone, Copy, PartialEq, Eq, Structural, Debug)]
pub enum ButtonInteraction {
    /// The button has been clicked.
    Pressed,
    /// The pointer rests on the button without clicking.
    Hovered,
    /// The pointer is elsewhere.
    Idle,
}

/// What the menu does with the quit button on one report: leave the game,
/// or show the button at a given width in pixels.
#[derive(Clone, Copy, PartialEq, Eq, Structural, Debug)]
pub enum ButtonAction {
    /// Close the whole application.
    Quit,
    /// Render the button this many pixels wide.
    SetWidthPx(u64),
}

/// The quit button's resting width, in pixels.
pub const BUTTON_WIDTH_PX: u64 = 150;

/// The quit button's width while the pointer rests on it, in pixels:
/// hovering widens the button.
pub const BUTTON_HOVERED_WIDTH_PX: u64 = 170;

/// What the quit button does for each pointer report: a click quits,
/// hovering widens the button, and otherwise it returns to its
/// resting width.
pub open spec fn button_response_spec(i: ButtonInteraction) -> ButtonAction {
    match i {
        ButtonInteraction::Pressed => ButtonAction::Quit,
        ButtonInteraction::Hovered => ButtonAction::SetWidthPx(BUTTON_HOVERED_WIDTH_PX),
        ButtonInteraction::Idle => ButtonAction::SetWidthPx(BUTTON_WIDTH_PX),
    }
}

/// Decide what the quit button does on one pointer report.
pub fn button_response(i: ButtonInteraction) -> (a: ButtonAction)
    ensures
        a == button_response_spec(i),
{
    match i {
        ButtonInteraction::Pressed => ButtonAction::Quit,
        ButtonInteraction::Hovered => ButtonAction::SetWidthPx(BUTTON_HOVERED_WIDTH_PX),
        ButtonInteraction::Idle => ButtonAction::SetWidthPx(BUTTON_WIDTH_PX),
    }
}

/// The game quits exactly when the quit button is clicked: no other
/// pointer report ends the application, and every other report keeps
/// the button at one of its two widths.
pub proof fn lemma_quit_only_on_press(i: ButtonInteraction)
    ensures
        button_response_spec(i) == ButtonAction::Quit <==> i == ButtonInteraction::Pressed,
        i != ButtonInteraction::Pressed ==> (button_response_spec(i)
            == ButtonAction::SetWidthPx(BUTTON_WIDTH_PX) || button_response_spec(i)
            == ButtonAction::SetWidthPx(BUTTON_HOVERED_WIDTH_PX)),
{
}

/// What the engine is told to do with the menu's widgets when the game
/// state changes.
#[derive(Clone, Copy, PartialEq, Eq, Structural, Debug)]
pub enum MenuCommand {
    /// Build the menu's widgets.
    Spawn,
    /// Remove the menu's widgets.
    Despawn,
    /// Leave the screen as it is.
    Keep,
}

/// The pause menu belongs on screen exactly while the game is paused.
pub open spec fn menu_visible_in(s: GameState) -> bool {
    s is PauseMenu
}

/// What `menu_command` answers: spawn on entering the pause menu,
/// despawn on leaving it, and otherwise leave the screen alone.
pub open spec fn menu_command_spec(prev: GameState, next: GameState) -> MenuCommand {
    if prev is Game && next is PauseMenu {
        MenuCommand::Spawn
    } else if prev is PauseMenu && next is Game {
        MenuCommand::Despawn
    } else {
        MenuCommand::Keep
    }
}

/// Decide what to do with the menu's widgets when the game moves from
/// one state to another: build them on entering the pause menu, remove
/// them on leaving it, and otherwise leave the screen alone.
pub fn menu_command(prev: GameState, next: GameState) -> (c: MenuCommand)
    ensures
        c == menu_command_spec(prev, next),
        c is Spawn <==> (prev is Game && next is PauseMenu),
        c is Despawn <==> (prev is PauseMenu && next is Game),
{
    match (prev, next) {
        (GameState::Game, GameState::PauseMenu) => MenuCommand::Spawn,
        (GameState::PauseMenu, GameState::Game) => MenuCommand::Despawn,
        _ => MenuCommand::Keep,
    }
}

/// Whether the menu is on screen after a command is carried out, given
/// whether it was on screen before.
pub open spec fn apply_menu_command(visible: bool, c: MenuCommand) -> bool {
    match c {
        MenuCommand::Spawn => true,
        MenuCommand::Despawn => false,
        MenuCommand::Keep => visible,
    }
}

/// The menu stays in step with the game state: if it is on screen exactly
/// when the game is paused, then after any state change and its command
/// it is again on screen exactly when the game is paused.
pub proof fn lemma_menu_tracks_state(prev: GameState, next: GameState, visible: bool)
    requires
        visible == menu_visible_in(prev),
    ensures
        apply_menu_command(visible, menu_command_spec(prev, next)) == menu_visible_in(next),
{
}

} // verus!
