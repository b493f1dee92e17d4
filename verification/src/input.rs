//! From one key press to its effect: what the start menu does with a key, and
//! what one turn of the main loop does with the game.

use vstd::prelude::*;
use crate::game::{Game, GameState, GameStateView, StartMenu, StartMenuState, StartMenuView};

verus! {

/// A key of the keyboard, as far as the start menu tells keys apart.
#[derive(Clone, Copy, Debug, PartialEq, Eq)]
pub enum Key {
    Tab,
    /// A character key, with the character that it types.
    Char(char),
    Backspace,
    Enter,
    Esc,
    /// Any key that the menu has no use for.
    Other,
}

/// What handling a key asks of the main loop.
#[derive(Clone, Copy, Debug, PartialEq, Eq, Structural)]
pub enum Action {
    NextState,
    Quit,
    Nothing,
}

/// The menu after `event` was handled. Tab moves to the next phase, and so
/// does Enter while the name is entered; a character key and Backspace edit
/// the active text; every other key, and no key at all, leave the menu as it
/// is.
pub open spec fn menu_after_input(menu: StartMenuView, event: Option<Key>) -> StartMenuView {
    match event {
        Some(Key::Tab) => menu.advance(),
        Some(Key::Char(c)) => menu.key_stroke(c),
        Some(Key::Backspace) => menu.backspace(),
        Some(Key::Enter) => if menu.state == StartMenuState::EnterName {
            menu.advance()
        } else {
            menu
        },
        _ => menu,
    }
}

/// What the main loop is asked to do after `event`: to quit on Escape, and
/// nothing otherwise.
pub open spec fn action_for_input(event: Option<Key>) -> Action {
    match event {
        Some(Key::Esc) => Action::Quit,
        _ => Action::Nothing,
    }
}

/// Handles what the keyboard gave within one wait: a key, or `None` where no
/// key was pressed. The menu is changed as the key asks, and the result says
/// whether the program is to quit.
pub fn handle_start_state_input(start_menu: &mut StartMenu, event: Option<Key>) -> (action: Action)
    ensures
        final(start_menu)@ == menu_after_input(old(start_menu)@, event),
        action == action_for_input(event),
{
    if let Some(key) = event {
        match key {
            Key::Tab => {
                start_menu.transition_next_state();
                return Action::Nothing;
            },
            Key::Char(c) => start_menu.record_key_stroke(c),
            Key::Backspace => start_menu.record_backspace(),
            Key::Enter => {
                if *start_menu.get_state() == StartMenuState::EnterName {
                    start_menu.transition_next_state();
                }
                return Action::Nothing;
            },
            Key::Esc => {
                return Action::Quit;
            },
            Key::Other => {
                return Action::Nothing;
            },
        }
    }
    Action::Nothing
}

/// Escape asks to quit and leaves the menu as it is, whatever its phase; and
/// nothing but Escape asks to quit.
pub proof fn escape_only_quits(menu: StartMenuView, event: Option<Key>)
    ensures
        menu_after_input(menu, Some(Key::Esc)) == menu,
        action_for_input(event) == Action::Quit <==> event == Some(Key::Esc),
        action_for_input(event) != Action::Quit ==> action_for_input(event) == Action::Nothing,
{
}

/// The game after one turn of the main loop in which the keyboard gave
/// `event`. Only the start menu listens to the keyboard.
pub open spec fn game_after_input(game: GameStateView, event: Option<Key>) -> GameStateView {
    match game {
        GameStateView::Start(menu) => GameStateView::Start(menu_after_input(menu, event)),
        GameStateView::Playing => GameStateView::Playing,
    }
}

/// Whether the main loop ends after a turn in which the keyboard gave
/// `event`: it does when the start menu is asked to quit.
pub open spec fn ends_run(game: GameStateView, event: Option<Key>) -> bool {
    game is Start && action_for_input(event) == Action::Quit
}

/// One turn of the main loop, between drawing a frame and drawing the next:
/// hands `event` to the start menu if the game is in it, and returns whether
/// the loop goes on.
pub fn run_step(game: &mut Game, event: Option<Key>) -> (go_on: bool)
    ensures
        final(game)@ == game_after_input(old(game)@, event),
        go_on == !ends_run(old(game)@, event),
{
    match game.get_state() {
        GameState::Start(start_menu) => {
            match handle_start_state_input(start_menu, event) {
                Action::Quit => false,
                _ => true,
            }
        },
        GameState::Playing(_) => true,
    }
}

} // verus!
