//! The application state machine and the logical per-frame input.
//!
//! Exactly one state is active at a time. The host feeds the
//! simulation a snapshot of the logical input each step; `start` and
//! `menu` are edges (freshly pressed this frame), the movement flags
//! and `fire` are levels.

use vstd::prelude::*;

verus! {

/// The two global application states.
#[derive(Clone, Copy, Debug, PartialEq, Eq, Structural)]
pub enum AppState {
    MainMenu,
    Game,
}

/// A snapshot of the logical input for one simulation step.
#[derive(Clone, Copy, Debug, PartialEq, Eq, Structural)]
pub struct GameInput {
    pub left: bool,
    pub right: bool,
    pub up: bool,
    pub down: bool,
    /// Fire a bullet, subject to the cooldown timer.
    pub fire: bool,
    /// Start a round (effective only in the main menu).
    pub start: bool,
    /// Leave the round and return to the main menu.
    pub menu: bool,
}

impl GameInput {
    /// An input snapshot with nothing pressed.
    pub fn none() -> (r: GameInput)
        ensures
            r == (GameInput {
                left: false,
                right: false,
                up: false,
                down: false,
                fire: false,
                start: false,
                menu: false,
            }),
    {
        GameInput {
            left: false,
            right: false,
            up: false,
            down: false,
            fire: false,
            start: false,
            menu: false,
        }
    }
}

/// Decide whether a "start" edge moves the application into the game
/// state: it does exactly when the game is not already running.
pub fn start_game(pressed_start: bool, state: AppState) -> (next: Option<AppState>)
    ensures
        next == if pressed_start && state != AppState::Game {
            Some(AppState::Game)
        } else {
            None::<AppState>
        },
{
    if pressed_start && state != AppState::Game {
        Some(AppState::Game)
    } else {
        None
    }
}

/// Decide whether a "menu" edge moves the application back to the main
/// menu: it does exactly when the menu is not already showing.
pub fn go_to_main_menu(pressed_menu: bool, state: AppState) -> (next: Option<AppState>)
    ensures
        next == if pressed_menu && state != AppState::MainMenu {
            Some(AppState::MainMenu)
        } else {
            None::<AppState>
        },
{
    if pressed_menu && state != AppState::MainMenu {
        Some(AppState::MainMenu)
    } else {
        None
    }
}

} // verus!
