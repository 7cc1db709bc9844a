//! The decisions behind the menu screen: which pitch background is
//! shown and what each button click does.  Drawing the menu and
//! watching the pointer stay with the host; it reports a click and
//! carries out the action this module decides.
use vstd::prelude::*;

verus! {

/// Whether the program is on the menu screen or playing.
#[derive(Clone, Copy, PartialEq, Eq, Structural, Debug)]
pub enum GameState {
    InMenu,
    InGame,
}

/// The pitch picture the match is played on.
#[derive(Clone, Copy, PartialEq, Eq, Structural, Debug)]
pub enum Background {
    Pitch1,
    Pitch2,
    Pitch3,
}

/// The three menu buttons.
#[derive(Clone, Copy, PartialEq, Eq, Structural, Debug)]
pub enum MenuItem {
    Start,
    ChangePitch,
    Quit,
}

/// What a menu click asks the host to do.
#[derive(Clone, Copy, PartialEq, Eq, Structural, Debug)]
pub struct MenuAction {
    pub state: GameState,
    pub background: Background,
    pub quit: bool,
}

/// The pitch after the change-pitch button: the three pictures cycle.
pub open spec fn next_background(bg: Background) -> Background {
    match bg {
        Background::Pitch1 => Background::Pitch2,
        Background::Pitch2 => Background::Pitch3,
        Background::Pitch3 => Background::Pitch1,
    }
}

/// Decides one clicked menu button: Start enters the game, ChangePitch
/// cycles the background, Quit asks the host to exit.  Start is only
/// clickable on the menu screen, where the buttons exist.
pub fn menu_click(item: MenuItem, state: GameState, background: Background) -> (action: MenuAction)
    requires
        item == MenuItem::Start ==> state == GameState::InMenu,
    ensures
        item == MenuItem::Start ==> action == (MenuAction {
            state: GameState::InGame,
            background,
            quit: false,
        }),
        item == MenuItem::ChangePitch ==> action == (MenuAction {
            state,
            background: next_background(background),
            quit: false,
        }),
        item == MenuItem::Quit ==> action == (MenuAction { state, background, quit: true }),
{
    match item {
        MenuItem::Start => MenuAction { state: GameState::InGame, background, quit: false },
        MenuItem::ChangePitch => MenuAction {
            state,
            background: match background {
                Background::Pitch1 => Background::Pitch2,
                Background::Pitch2 => Background::Pitch3,
                Background::Pitch3 => Background::Pitch1,
            },
            quit: false,
        },
        MenuItem::Quit => MenuAction { state, background, quit: true },
    }
}

} // verus!
