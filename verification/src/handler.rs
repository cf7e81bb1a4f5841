//! What each key press does to the dashboard.

use vstd::prelude::*;

use crate::app::{scrolled_down, scrolled_up, App};
use crate::view::toggled;

verus! {

/// The keys the dashboard tells apart.
#[derive(PartialEq, Eq, Clone, Copy, Debug, Structural)]
pub enum KeyCode {
    /// A printable character.
    Char(char),
    Esc,
    Tab,
    Up,
    Down,
    /// Any other key.
    Other,
}

/// A key press: the key and whether Control was held.
#[derive(PartialEq, Eq, Clone, Copy, Debug, Structural)]
pub struct KeyInput {
    pub code: KeyCode,
    pub ctrl: bool,
}

/// What a key press asks for.
#[derive(PartialEq, Eq, Clone, Copy, Debug, Structural)]
pub enum KeyAction {
    Quit,
    ToggleView,
    ScrollUp,
    ScrollDown,
    Ignore,
}

/// `q`, `Esc` or `Ctrl-C` quit; `Tab`, `v` or space switch the view; `k` or
/// up scrolls up; `j` or down scrolls down; every other key is ignored.
pub open spec fn key_action(key: KeyInput) -> KeyAction {
    match key.code {
        KeyCode::Char(c) => {
            if c == 'q' {
                KeyAction::Quit
            } else if c == 'c' && key.ctrl {
                KeyAction::Quit
            } else if c == 'v' || c == ' ' {
                KeyAction::ToggleView
            } else if c == 'k' {
                KeyAction::ScrollUp
            } else if c == 'j' {
                KeyAction::ScrollDown
            } else {
                KeyAction::Ignore
            }
        },
        KeyCode::Esc => KeyAction::Quit,
        KeyCode::Tab => KeyAction::ToggleView,
        KeyCode::Up => KeyAction::ScrollUp,
        KeyCode::Down => KeyAction::ScrollDown,
        KeyCode::Other => KeyAction::Ignore,
    }
}

/// The key bindings: `q` and `Esc` quit whatever modifier is held, `c` quits
/// only with Control; `Tab`, `v` and space switch the view; `k` and up scroll
/// up; `j` and down scroll down; every other key does nothing.
pub proof fn law_key_bindings(c: char, ctrl: bool)
    ensures
        key_action(KeyInput { code: KeyCode::Char('q'), ctrl }) == KeyAction::Quit,
        key_action(KeyInput { code: KeyCode::Esc, ctrl }) == KeyAction::Quit,
        key_action(KeyInput { code: KeyCode::Char('c'), ctrl: true }) == KeyAction::Quit,
        key_action(KeyInput { code: KeyCode::Char('c'), ctrl: false }) == KeyAction::Ignore,
        key_action(KeyInput { code: KeyCode::Tab, ctrl }) == KeyAction::ToggleView,
        key_action(KeyInput { code: KeyCode::Char('v'), ctrl }) == KeyAction::ToggleView,
        key_action(KeyInput { code: KeyCode::Char(' '), ctrl }) == KeyAction::ToggleView,
        key_action(KeyInput { code: KeyCode::Up, ctrl }) == KeyAction::ScrollUp,
        key_action(KeyInput { code: KeyCode::Char('k'), ctrl }) == KeyAction::ScrollUp,
        key_action(KeyInput { code: KeyCode::Down, ctrl }) == KeyAction::ScrollDown,
        key_action(KeyInput { code: KeyCode::Char('j'), ctrl }) == KeyAction::ScrollDown,
        key_action(KeyInput { code: KeyCode::Other, ctrl }) == KeyAction::Ignore,
        c != 'q' && c != 'c' && c != 'v' && c != ' ' && c != 'k' && c != 'j' ==> key_action(
            KeyInput { code: KeyCode::Char(c), ctrl },
        ) == KeyAction::Ignore,
{
}

/// Applies a key press to the dashboard showing `len` GPUs.
pub fn handle_key_event(key: KeyInput, app: &mut App, len: usize)
    ensures
        final(app).should_quit == (old(app).should_quit || key_action(key) == KeyAction::Quit),
        final(app).view_mode == (if key_action(key) == KeyAction::ToggleView {
            toggled(old(app).view_mode)
        } else {
            old(app).view_mode
        }),
        final(app).vertical_scroll == (if key_action(key) == KeyAction::ScrollUp {
            scrolled_up(old(app).vertical_scroll as nat)
        } else if key_action(key) == KeyAction::ScrollDown {
            scrolled_down(old(app).vertical_scroll as nat, len as nat)
        } else {
            old(app).vertical_scroll as nat
        }),
        final(app).version@ == old(app).version@,
        final(app).interval_ms == old(app).interval_ms,
        final(app).history_points == old(app).history_points,
        final(app).scroll_content_length == old(app).scroll_content_length,
{
    match key.code {
        KeyCode::Char('q') | KeyCode::Esc => app.quit(),
        KeyCode::Char('c') if key.ctrl => app.quit(),
        KeyCode::Tab | KeyCode::Char('v') | KeyCode::Char(' ') => app.toggle_view_mode(),
        KeyCode::Up | KeyCode::Char('k') => app.on_up(),
        KeyCode::Down | KeyCode::Char('j') => app.on_down(len),
        _ => {},
    }
}

} // verus!
