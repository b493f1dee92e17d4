use battleship::game::{Game, GameState, StartMenu, StartMenuState};

fn type_text(menu: &mut StartMenu, text: &str) {
    for c in text.chars() {
        menu.record_key_stroke(c);
    }
}

#[test]
fn new_menu_starts_at_name_with_empty_texts() {
    let menu = StartMenu::new();
    assert_eq!(*menu.get_state(), StartMenuState::EnterName);
    assert_eq!(menu.get_name(), "");
    assert_eq!(menu.get_server_ip(), "");
}

#[test]
fn new_game_starts_in_a_new_menu() {
    let mut game = Game::new();
    match game.get_state() {
        GameState::Start(menu) => {
            assert_eq!(*menu.get_state(), StartMenuState::EnterName);
            assert_eq!(menu.get_name(), "");
            assert_eq!(menu.get_server_ip(), "");
        }
        GameState::Playing(_) => panic!("a new game is in the start menu"),
    }
}

#[test]
fn changes_through_get_state_stay_in_the_game() {
    let mut game = Game::new();
    if let GameState::Start(menu) = game.get_state() {
        menu.record_key_stroke('A');
        menu.transition_next_state();
    }
    match game.get_state() {
        GameState::Start(menu) => {
            assert_eq!(menu.get_name(), "A");
            assert_eq!(*menu.get_state(), StartMenuState::StartServer);
        }
        GameState::Playing(_) => panic!("the game is still in the start menu"),
    }
}

#[test]
fn get_state_can_replace_the_state() {
    let mut game = Game::new();
    *game.get_state() = GameState::Playing(battleship::game::Playing {});
    assert!(matches!(game.get_state(), GameState::Playing(_)));
}

#[test]
fn transition_walks_name_host_join() {
    let mut menu = StartMenu::new();
    menu.transition_next_state();
    assert_eq!(*menu.get_state(), StartMenuState::StartServer);
    menu.transition_next_state();
    assert_eq!(*menu.get_state(), StartMenuState::EnterServer);
    menu.transition_next_state();
    assert_eq!(*menu.get_state(), StartMenuState::EnterName);
}

#[test]
fn transition_has_period_three() {
    let cycle = [
        StartMenuState::EnterName,
        StartMenuState::StartServer,
        StartMenuState::EnterServer,
    ];
    let mut menu = StartMenu::new();
    for n in 0..20usize {
        assert_eq!(*menu.get_state(), cycle[n % 3]);
        menu.transition_next_state();
    }
}

#[test]
fn transition_keeps_both_texts() {
    let mut menu = StartMenu::new();
    type_text(&mut menu, "Ann");
    menu.transition_next_state();
    menu.transition_next_state();
    type_text(&mut menu, "host");
    for _ in 0..3 {
        menu.transition_next_state();
        assert_eq!(menu.get_name(), "Ann");
        assert_eq!(menu.get_server_ip(), "host");
    }
}

#[test]
fn key_stroke_appends_to_name_only() {
    let mut menu = StartMenu::new();
    menu.record_key_stroke('B');
    assert_eq!(menu.get_name(), "B");
    menu.record_key_stroke('o');
    assert_eq!(menu.get_name(), "Bo");
    assert_eq!(menu.get_server_ip(), "");
    assert_eq!(*menu.get_state(), StartMenuState::EnterName);
}

#[test]
fn key_stroke_appends_to_address_only() {
    let mut menu = StartMenu::new();
    type_text(&mut menu, "Bob");
    menu.transition_next_state();
    menu.transition_next_state();
    menu.record_key_stroke('1');
    menu.record_key_stroke('.');
    assert_eq!(menu.get_server_ip(), "1.");
    assert_eq!(menu.get_name(), "Bob");
    assert_eq!(*menu.get_state(), StartMenuState::EnterServer);
}

#[test]
fn key_stroke_takes_any_character() {
    let mut menu = StartMenu::new();
    type_text(&mut menu, "é ß\u{1F6A2}");
    assert_eq!(menu.get_name(), "é ß\u{1F6A2}");
    menu.record_backspace();
    assert_eq!(menu.get_name(), "é ß");
}

#[test]
fn backspace_removes_the_last_character() {
    let mut menu = StartMenu::new();
    type_text(&mut menu, "Bob");
    menu.record_backspace();
    assert_eq!(menu.get_name(), "Bo");
    menu.transition_next_state();
    menu.transition_next_state();
    type_text(&mut menu, "10.0");
    menu.record_backspace();
    assert_eq!(menu.get_server_ip(), "10.");
    assert_eq!(menu.get_name(), "Bo");
}

#[test]
fn backspace_undoes_a_key_stroke_in_every_phase() {
    for advances in 0..3 {
        for start in ["", "x", "abc"] {
            let mut menu = StartMenu::new();
            type_text(&mut menu, start);
            menu.transition_next_state();
            menu.transition_next_state();
            type_text(&mut menu, start);
            menu.transition_next_state();
            for _ in 0..advances {
                menu.transition_next_state();
            }
            let state = *menu.get_state();
            menu.record_key_stroke('q');
            menu.record_backspace();
            assert_eq!(menu.get_name(), start);
            assert_eq!(menu.get_server_ip(), start);
            assert_eq!(*menu.get_state(), state);
        }
    }
}

#[test]
fn backspace_on_empty_text_changes_nothing() {
    let mut menu = StartMenu::new();
    for _ in 0..3 {
        let state = *menu.get_state();
        menu.record_backspace();
        menu.record_backspace();
        assert_eq!(menu.get_name(), "");
        assert_eq!(menu.get_server_ip(), "");
        assert_eq!(*menu.get_state(), state);
        menu.transition_next_state();
    }
}

#[test]
fn backspace_on_empty_address_keeps_the_name() {
    let mut menu = StartMenu::new();
    type_text(&mut menu, "Bob");
    menu.transition_next_state();
    menu.transition_next_state();
    menu.record_backspace();
    assert_eq!(menu.get_name(), "Bob");
    assert_eq!(menu.get_server_ip(), "");
}

#[test]
fn host_phase_ignores_editing() {
    let mut menu = StartMenu::new();
    type_text(&mut menu, "Bob");
    menu.transition_next_state();
    menu.transition_next_state();
    type_text(&mut menu, "10.0.0.1");
    menu.transition_next_state();
    menu.transition_next_state();
    assert_eq!(*menu.get_state(), StartMenuState::StartServer);
    menu.record_key_stroke('z');
    menu.record_backspace();
    menu.record_backspace();
    menu.record_key_stroke('y');
    assert_eq!(menu.get_name(), "Bob");
    assert_eq!(menu.get_server_ip(), "10.0.0.1");
    assert_eq!(*menu.get_state(), StartMenuState::StartServer);
}
