use vstd::prelude::*;
use crate::enemy::EnemyNumberState;

verus! {

/// Top-level screens of the game.
#[derive(Clone, Copy, Debug, PartialEq, Eq, Structural)]
pub enum Screen {
    Splash,
    Loading,
    Menu,
    GamePlay,
    GameOver,
}

/// State of play within the game screen.
#[derive(Clone, Copy, Debug, PartialEq, Eq, Structural)]
pub enum GameState {
    /// Normal play.
    Playing,
    Pause,
    /// The stage tally is shown.
    GameSettlement,
}

/// What a key press on the title menu does.
#[derive(Clone, Copy, Debug, PartialEq, Eq, Structural)]
pub enum MenuChoice {
    /// Nothing was pressed.
    Nothing,
    /// The cursor moves to the two-player line.
    TwoPlayers,
    /// The cursor moves to the one-player line.
    OnePlayer,
    /// The game starts.
    Start,
}

/// Whether play runs normally (neither paused nor in the tally).
pub fn game_is_active(state: GameState) -> (r: bool)
    ensures
        r == (state == GameState::Playing),
{
    match state {
        GameState::Playing => true,
        _ => false,
    }
}

/// Whether the tally begins now: play is running and the stage is won.
pub fn stage_complete(state: GameState, enemies: &EnemyNumberState) -> (r: bool)
    ensures
        r == (state == GameState::Playing && enemies.spec_stage_cleared()),
{
    game_is_active(state) && enemies.stage_cleared()
}

/// The title menu reads the keys pressed this frame: down before up before
/// start.
pub fn menu_choice(down: bool, up: bool, start: bool) -> (r: MenuChoice)
    ensures
        r == (if down {
            MenuChoice::TwoPlayers
        } else if up {
            MenuChoice::OnePlayer
        } else if start {
            MenuChoice::Start
        } else {
            MenuChoice::Nothing
        }),
{
    if down {
        MenuChoice::TwoPlayers
    } else if up {
        MenuChoice::OnePlayer
    } else if start {
        MenuChoice::Start
    } else {
        MenuChoice::Nothing
    }
}

/// Player count a menu choice selects, if it selects one.
pub fn players_chosen(choice: MenuChoice) -> (r: Option<u8>)
    ensures
        choice == MenuChoice::TwoPlayers ==> r == Some(2u8),
        choice == MenuChoice::OnePlayer ==> r == Some(1u8),
        choice != MenuChoice::TwoPlayers && choice != MenuChoice::OnePlayer ==> r is None,
{
    match choice {
        MenuChoice::TwoPlayers => Some(2),
        MenuChoice::OnePlayer => Some(1),
        _ => None,
    }
}

/// Screen to go to once loading is checked: the menu when every asset is
/// in, else stay.
pub fn after_loading(all_done: bool) -> (r: Option<Screen>)
    ensures
        r == (if all_done { Some(Screen::Menu) } else { None }),
{
    if all_done {
        Some(Screen::Menu)
    } else {
        None
    }
}

} // verus!
