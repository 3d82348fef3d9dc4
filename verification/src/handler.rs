//! Keys, and what each of them does to the dashboard.

use crate::app::{App, AppModel, PEERS_TAB};
use crate::list::position_view;
use crate::modal::is_address;
use vstd::prelude::*;

verus! {

/// The key that was pressed.
#[derive(Clone, Copy, Debug, PartialEq, Eq, Structural)]
pub enum KeyCode {
    Backspace,
    Enter,
    Left,
    Right,
    Up,
    Down,
    Esc,
    /// A key that types this character.
    Char(char),
    /// Any other key.
    Other,
}

/// The modifier keys held while the key was pressed.
#[derive(Clone, Copy, Debug, PartialEq, Eq, Structural)]
pub enum KeyModifiers {
    /// No modifier.
    Plain,
    /// Shift and nothing else.
    Shift,
    /// Control and nothing else.
    Control,
    /// Any other modifier or combination.
    Other,
}

/// One press of a key.
#[derive(Clone, Copy, Debug, PartialEq, Eq, Structural)]
pub struct KeyEvent {
    pub code: KeyCode,
    pub modifiers: KeyModifiers,
}

/// What a key does while the pop-up is shown, given whether the text of the
/// pop-up is valid. The modifiers play no part.
pub open spec fn modal_key(app: AppModel, code: KeyCode, valid: bool) -> AppModel {
    match code {
        KeyCode::Enter => app.connect(valid),
        KeyCode::Esc => app.close_popup(),
        KeyCode::Char(ch) => AppModel { modal: app.modal.input(ch), ..app },
        KeyCode::Backspace => AppModel { modal: app.modal.backspace(), ..app },
        _ => app,
    }
}

/// What a key does while the pop-up is hidden.
pub open spec fn plain_key(app: AppModel, key: KeyEvent) -> AppModel {
    match (key.modifiers, key.code) {
        (KeyModifiers::Plain, KeyCode::Esc) => app.quit(),
        (KeyModifiers::Plain, KeyCode::Left) => app.on_left(),
        (KeyModifiers::Plain, KeyCode::Up) => app.on_up(),
        (KeyModifiers::Plain, KeyCode::Right) => app.on_right(),
        (KeyModifiers::Plain, KeyCode::Down) => app.on_down(),
        (KeyModifiers::Shift, KeyCode::Up) => app.change_mode_view(),
        (KeyModifiers::Shift, KeyCode::Left) => app.previous_block_view(),
        (KeyModifiers::Shift, KeyCode::Right) => app.next_block_view(),
        (KeyModifiers::Plain, KeyCode::Char(ch)) => if ch == 'q' {
            app.quit()
        } else if ch == 'd' {
            app.press_d()
        } else if ch == 'e' {
            app.press_e()
        } else if (ch == 'c' || ch == 'C') && app.tabs.index == PEERS_TAB {
            app.open_popup()
        } else {
            app
        },
        (KeyModifiers::Control, KeyCode::Char(ch)) => if ch == 'c' || ch == 'C' {
            app.quit()
        } else {
            app
        },
        _ => app,
    }
}

/// The dashboard after `key`, given whether the text of the pop-up is valid.
pub open spec fn key_outcome(app: AppModel, key: KeyEvent, valid: bool) -> AppModel {
    if app.modal.is_open {
        modal_key(app, key.code, valid)
    } else {
        plain_key(app, key)
    }
}

/// The run of the control tool that `key` asks for, if it asks for one,
/// given whether the text of the pop-up is valid.
pub open spec fn key_started(app: AppModel, key: KeyEvent, valid: bool) -> Option<nat> {
    if app.modal.is_open {
        if key.code == KeyCode::Enter {
            app.connect_started(valid)
        } else {
            None
        }
    } else if key.modifiers == KeyModifiers::Plain && key.code == KeyCode::Char('d') {
        app.started_if(app.prune_args())
    } else if key.modifiers == KeyModifiers::Plain && key.code == KeyCode::Char('e') {
        app.started_if(app.execute_args())
    } else {
        None
    }
}

/// While the pop-up is shown it takes every key: whatever is pressed, only
/// the pop-up and the runs of the control tool can change.
pub proof fn law_popup_takes_every_key(app: AppModel, key: KeyEvent, valid: bool)
    requires
        app.modal.is_open,
    ensures
        key_outcome(app, key, valid) == (AppModel {
            modal: key_outcome(app, key, valid).modal,
            commands: key_outcome(app, key, valid).commands,
            ..app
        }),
        key.code != KeyCode::Enter ==> key_outcome(app, key, valid).commands == app.commands,
{
}

/// No key but enter in the pop-up, and the execute and delete keys outside
/// it, asks for a run of the control tool; a key that asks for none leaves
/// the runs as they are.
pub proof fn law_keys_that_start_runs(app: AppModel, key: KeyEvent, valid: bool)
    ensures
        key_started(app, key, valid) is None ==> key_outcome(app, key, valid).commands
            == app.commands,
        key_started(app, key, valid) matches Some(task) ==> {
            &&& task == app.commands.len()
            &&& key_outcome(app, key, valid).commands.len() == app.commands.len() + 1
            &&& key_outcome(app, key, valid).commands.drop_last() == app.commands
            &&& key_outcome(app, key, valid).commands[task as int].status is Pending
        },
        key_outcome(app, key, valid).logs == app.logs,
{
}

/// Applies `key_event` to the dashboard, with the verdict on the text of
/// the pop-up given by the caller. Returns the place of the run of the
/// control tool that the key asked for, if it asked for one.
pub fn handle_key_events_checked(key_event: KeyEvent, app: &mut App<'_>, valid: bool) -> (started:
    Option<usize>)
    ensures
        final(app)@ == key_outcome(old(app)@, key_event, valid),
        position_view(started) == key_started(old(app)@, key_event, valid),
{
    if app.modal.is_open() {
        match key_event.code {
            KeyCode::Enter => app.connect_checked(valid),
            KeyCode::Esc => {
                app.close_popup();
                None
            },
            KeyCode::Char(ch) => {
                app.modal.input(ch);
                None
            },
            KeyCode::Backspace => {
                app.modal.backspace();
                None
            },
            _ => None,
        }
    } else {
        match (key_event.modifiers, key_event.code) {
            (KeyModifiers::Plain, KeyCode::Esc) => {
                app.quit();
                None
            },
            (KeyModifiers::Plain, KeyCode::Left) => {
                app.on_left();
                None
            },
            (KeyModifiers::Plain, KeyCode::Up) => {
                app.on_up();
                None
            },
            (KeyModifiers::Plain, KeyCode::Right) => {
                app.on_right();
                None
            },
            (KeyModifiers::Plain, KeyCode::Down) => {
                app.on_down();
                None
            },
            (KeyModifiers::Shift, KeyCode::Up) => {
                app.change_mode_view();
                None
            },
            (KeyModifiers::Shift, KeyCode::Left) => {
                app.previous_block_view();
                None
            },
            (KeyModifiers::Shift, KeyCode::Right) => {
                app.next_block_view();
                None
            },
            (KeyModifiers::Plain, KeyCode::Char(ch)) => {
                if ch == 'q' {
                    app.quit();
                    None
                } else if ch == 'd' {
                    app.press_d()
                } else if ch == 'e' {
                    app.press_e()
                } else if (ch == 'c' || ch == 'C') && app.tabs.index() == PEERS_TAB {
                    app.open_popup();
                    None
                } else {
                    None
                }
            },
            (KeyModifiers::Control, KeyCode::Char(ch)) => {
                if ch == 'c' || ch == 'C' {
                    app.quit();
                }
                None
            },
            _ => None,
        }
    }
}

/// Applies `key_event` to the dashboard. While the pop-up is shown every
/// key goes to it; otherwise keys move through tabs, lists and side panels,
/// stop the dashboard, open the pop-up or ask for a run of the control
/// tool, whose place among the runs is returned.
pub fn handle_key_events(key_event: KeyEvent, app: &mut App<'_>) -> (started: Option<usize>)
    ensures
        final(app)@ == key_outcome(old(app)@, key_event, is_address(old(app)@.modal.buffer)),
        position_view(started) == key_started(
            old(app)@,
            key_event,
            is_address(old(app)@.modal.buffer),
        ),
{
    let valid: bool = app.modal.is_open() && key_event.code == KeyCode::Enter
        && app.modal.is_valid();
    handle_key_events_checked(key_event, app, valid)
}

} // verus!
