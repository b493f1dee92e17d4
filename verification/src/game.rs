use vstd::prelude::*;

verus! {

/// The phase of the start menu, which decides what the keyboard edits.
#[derive(Clone, Copy, Debug, PartialEq, Eq, Structural)]
pub enum StartMenuState {
    /// The player's name is being typed.
    EnterName,
    /// The address of the server to join is being typed.
    EnterServer,
    /// The choice to host a game is highlighted; no text is edited.
    StartServer,
}

impl StartMenuState {
    /// The phase that follows `self`. The menu walks the fixed cycle
    /// `EnterName -> StartServer -> EnterServer -> EnterName`.
    pub open spec fn successor(self) -> StartMenuState {
        match self {
            StartMenuState::EnterName => StartMenuState::StartServer,
            StartMenuState::StartServer => StartMenuState::EnterServer,
            StartMenuState::EnterServer => StartMenuState::EnterName,
        }
    }

    /// The phase at place `n` of the endless cycle that begins with
    /// `EnterName`, `StartServer`, `EnterServer`.
    pub open spec fn cycle(n: nat) -> StartMenuState {
        if n % 3 == 0 {
            StartMenuState::EnterName
        } else if n % 3 == 1 {
            StartMenuState::StartServer
        } else {
            StartMenuState::EnterServer
        }
    }
}

/// What a start menu is worth to its callers: its phase and the two texts.
pub struct StartMenuView {
    pub state: StartMenuState,
    pub name: Seq<char>,
    pub server_ip: Seq<char>,
}

impl StartMenuView {
    /// The menu as the program starts with it.
    pub open spec fn initial() -> StartMenuView {
        StartMenuView {
            state: StartMenuState::EnterName,
            name: Seq::empty(),
            server_ip: Seq::empty(),
        }
    }

    /// The menu moved on to the next phase, both texts kept.
    pub open spec fn advance(self) -> StartMenuView {
        StartMenuView { state: self.state.successor(), ..self }
    }

    /// The menu moved on `n` times.
    pub open spec fn advance_by(self, n: nat) -> StartMenuView
        decreases n,
    {
        if n == 0 {
            self
        } else {
            self.advance_by((n - 1) as nat).advance()
        }
    }

    /// The text that the keyboard edits in this phase: the name while it is
    /// entered, the address while it is entered, none while hosting is offered.
    pub open spec fn active_text(self) -> Option<Seq<char>> {
        match self.state {
            StartMenuState::EnterName => Some(self.name),
            StartMenuState::EnterServer => Some(self.server_ip),
            StartMenuState::StartServer => None,
        }
    }

    /// The menu with `text` in place of the text that this phase edits; the
    /// menu itself where the phase edits none.
    pub open spec fn with_active_text(self, text: Seq<char>) -> StartMenuView {
        match self.state {
            StartMenuState::EnterName => StartMenuView { name: text, ..self },
            StartMenuState::EnterServer => StartMenuView { server_ip: text, ..self },
            StartMenuState::StartServer => self,
        }
    }

    /// The menu after `key` was typed: `key` stands at the end of the active
    /// text, and nothing else has changed.
    pub open spec fn key_stroke(self, key: char) -> StartMenuView {
        match self.active_text() {
            Some(text) => self.with_active_text(text.push(key)),
            None => self,
        }
    }

    /// The menu after a backspace: the active text has lost its last
    /// character if it had one, and nothing else has changed.
    pub open spec fn backspace(self) -> StartMenuView {
        match self.active_text() {
            Some(text) if text.len() > 0 => self.with_active_text(text.drop_last()),
            _ => self,
        }
    }
}

/// Moving on `n` times from `EnterName` leads to the phase at place `n` of
/// the cycle `EnterName`, `StartServer`, `EnterServer`, and changes neither
/// text.
pub proof fn advance_follows_cycle(menu: StartMenuView, n: nat)
    requires
        menu.state == StartMenuState::EnterName,
    ensures
        menu.advance_by(n) == (StartMenuView { state: StartMenuState::cycle(n), ..menu }),
    decreases n,
{
    if n > 0 {
        advance_follows_cycle(menu, (n - 1) as nat);
    }
}

/// A backspace takes back the key stroke before it: in every phase, and
/// whatever the texts hold, the menu is again what it was.
pub proof fn backspace_undoes_key_stroke(menu: StartMenuView, key: char)
    ensures
        menu.key_stroke(key).backspace() == menu,
{
    if let Some(text) = menu.active_text() {
        assert(text.push(key).drop_last() =~= text);
    }
}

/// A backspace on a menu whose active text is empty changes nothing. A phase
/// without an active text counts as one whose text is empty.
pub proof fn backspace_keeps_empty_text(menu: StartMenuView)
    requires
        menu.active_text() matches Some(text) ==> text.len() == 0,
    ensures
        menu.backspace() == menu,
{
}

/// While hosting is offered, neither a key stroke nor a backspace changes
/// the menu.
pub proof fn start_server_ignores_editing(menu: StartMenuView, key: char)
    requires
        menu.state == StartMenuState::StartServer,
    ensures
        menu.key_stroke(key) == menu,
        menu.backspace() == menu,
{
}

/// The start menu: a phase, the player's name and the server's address.
pub struct StartMenu {
    state: StartMenuState,
    name: String,
    server_ip: String,
}

impl View for StartMenu {
    type V = StartMenuView;

    closed spec fn view(&self) -> StartMenuView {
        StartMenuView { state: self.state, name: self.name@, server_ip: self.server_ip@ }
    }
}

impl StartMenu {
    /// A menu in the phase `EnterName` with both texts empty.
    pub fn new() -> (menu: StartMenu)
        ensures
            menu@ == StartMenuView::initial(),
    {
        StartMenu { state: StartMenuState::EnterName, name: String::new(), server_ip: String::new() }
    }

    /// The current phase.
    pub fn get_state(&self) -> (state: &StartMenuState)
        ensures
            *state == self@.state,
    {
        &self.state
    }

    /// Moves to the next phase of the cycle and leaves both texts alone.
    pub fn transition_next_state(&mut self)
        ensures
            final(self)@ == old(self)@.advance(),
    {
        match self.state {
            StartMenuState::EnterName => self.state = StartMenuState::StartServer,
            StartMenuState::StartServer => self.state = StartMenuState::EnterServer,
            StartMenuState::EnterServer => self.state = StartMenuState::EnterName,
        };
    }

    /// Adds `key` at the end of the text that the current phase edits.
    pub fn record_key_stroke(&mut self, key: char)
        ensures
            final(self)@ == old(self)@.key_stroke(key),
    {
        match self.state {
            StartMenuState::EnterName => self.name.push(key),
            StartMenuState::EnterServer => self.server_ip.push(key),
            StartMenuState::StartServer => {},
        }
    }

    /// Takes the last character off the text that the current phase edits.
    /// With nothing to take away, the menu stays as it is.
    pub fn record_backspace(&mut self)
        ensures
            final(self)@ == old(self)@.backspace(),
    {
        match self.state {
            StartMenuState::EnterName => self.name.pop(),
            StartMenuState::EnterServer => self.server_ip.pop(),
            StartMenuState::StartServer => None,
        };
    }

    /// The player's name as typed so far.
    pub fn get_name(&self) -> (name: &str)
        ensures
            name@ == self@.name,
    {
        self.name.as_str()
    }

    /// The server's address as typed so far.
    pub fn get_server_ip(&self) -> (server_ip: &str)
        ensures
            server_ip@ == self@.server_ip,
    {
        self.server_ip.as_str()
    }
}

/// A game in progress. Nothing of it is kept yet.
pub struct Playing {}

/// The state of the whole program: before a game, in the start menu, or in
/// a game.
pub enum GameState {
    Start(StartMenu),
    Playing(Playing),
}

/// What a game state is worth to its callers.
pub enum GameStateView {
    Start(StartMenuView),
    Playing,
}

impl View for GameState {
    type V = GameStateView;

    open spec fn view(&self) -> GameStateView {
        match self {
            GameState::Start(menu) => GameStateView::Start(menu@),
            GameState::Playing(_) => GameStateView::Playing,
        }
    }
}

/// The program's state, owned by whoever runs the main loop.
pub struct Game {
    state: GameState,
}

impl View for Game {
    type V = GameStateView;

    closed spec fn view(&self) -> GameStateView {
        self.state@
    }
}

impl Game {
    /// A program that has just started: in the start menu, which is new.
    pub fn new() -> (game: Game)
        ensures
            game@ == GameStateView::Start(StartMenuView::initial()),
    {
        Game { state: GameState::Start(StartMenu::new()) }
    }

    /// The current state, to read and to change: what the caller leaves in
    /// it is the state of the game from then on.
    pub fn get_state(&mut self) -> (state: &mut GameState)
        ensures
            (*state)@ == old(self)@,
            final(self)@ == (*final(state))@,
    {
        &mut self.state
    }
}

} // verus!
