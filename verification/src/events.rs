//! What a key means, by the mode that the interface is in.

use vstd::prelude::*;

use crate::app::{Action, Mode};

verus! {

/// The keys that have a meaning here. `Other` stands for every other key.
#[derive(Debug, Clone, Copy, PartialEq, Eq, Structural)]
pub enum KeyCode {
    Backspace,
    Enter,
    Left,
    Right,
    Up,
    Down,
    Home,
    End,
    PageUp,
    PageDown,
    Delete,
    Esc,
    Char(char),
    Other,
}

/// A key that was pressed, and whether the control key was held with it.
#[derive(Debug, Clone, Copy, PartialEq, Eq, Structural)]
pub struct KeyEvent {
    pub code: KeyCode,
    pub control: bool,
}

/// What a key means while a text is typed.
pub open spec fn input_binding(key: KeyEvent) -> Option<Action> {
    match key.code {
        KeyCode::Enter => Some(Action::SubmitInput),
        KeyCode::Esc => Some(Action::CancelInput),
        KeyCode::Backspace => Some(Action::InputBackspace),
        KeyCode::Delete => Some(Action::InputDelete),
        KeyCode::Left => Some(Action::InputLeft),
        KeyCode::Right => Some(Action::InputRight),
        KeyCode::Home => Some(Action::InputHome),
        KeyCode::End => Some(Action::InputEnd),
        KeyCode::Char(c) => if key.control && c == 'a' {
            Some(Action::InputHome)
        } else if key.control && c == 'e' {
            Some(Action::InputEnd)
        } else if key.control && c == 'c' {
            Some(Action::CancelInput)
        } else {
            Some(Action::InputChar(c))
        },
        _ => None,
    }
}

/// What a key means while a log is shown.
pub open spec fn log_binding(key: KeyEvent) -> Option<Action> {
    match key.code {
        KeyCode::Enter | KeyCode::Esc => Some(Action::CloseLogs),
        KeyCode::Down => Some(Action::ScrollLogDown),
        KeyCode::Up => Some(Action::ScrollLogUp),
        KeyCode::PageDown => Some(Action::ScrollLogPageDown),
        KeyCode::PageUp => Some(Action::ScrollLogPageUp),
        KeyCode::Char(c) => if c == 'q' {
            Some(Action::CloseLogs)
        } else if c == 'j' {
            Some(Action::ScrollLogDown)
        } else if c == 'k' {
            Some(Action::ScrollLogUp)
        } else if c == 'd' && key.control {
            Some(Action::ScrollLogPageDown)
        } else if c == 'u' && key.control {
            Some(Action::ScrollLogPageUp)
        } else if c == 'g' {
            Some(Action::ScrollLogUp)
        } else if c == 'G' {
            Some(Action::ScrollLogDown)
        } else if c == 'f' {
            Some(Action::FollowLogs)
        } else {
            None
        },
        _ => None,
    }
}

/// What a key means while a removal awaits confirmation: `y` and Enter
/// confirm, every other key gives up.
pub open spec fn confirm_binding(key: KeyEvent) -> Option<Action> {
    if key.code == KeyCode::Enter || key.code == KeyCode::Char('y') || key.code == KeyCode::Char(
        'Y',
    ) {
        Some(Action::ConfirmAction)
    } else {
        Some(Action::CancelConfirm)
    }
}

/// What a character means in the main view.
pub open spec fn normal_char_binding(c: char) -> Option<Action> {
    if c == 'j' {
        Some(Action::NavigateDown)
    } else if c == 'k' {
        Some(Action::NavigateUp)
    } else if c == 'g' {
        Some(Action::NavigateTop)
    } else if c == 'G' {
        Some(Action::NavigateBottom)
    } else if c == 'K' {
        Some(Action::KillTask)
    } else if c == 'p' {
        Some(Action::TogglePause)
    } else if c == ' ' {
        Some(Action::ToggleTaskPause)
    } else if c == 'r' {
        Some(Action::Refresh)
    } else if c == 'R' {
        Some(Action::RestartTask)
    } else if c == 'c' {
        Some(Action::CleanFinished)
    } else if c == 'a' {
        Some(Action::StartAddTask)
    } else if c == 'e' {
        Some(Action::StartEditTask)
    } else if c == 'd' || c == 'x' {
        Some(Action::RemoveTask)
    } else if c == 's' {
        Some(Action::StashTask)
    } else if c == 'S' {
        Some(Action::EnqueueTask)
    } else if c == '<' {
        Some(Action::SwitchUp)
    } else if c == '>' {
        Some(Action::SwitchDown)
    } else if c == '+' || c == '=' {
        Some(Action::IncreaseParallel)
    } else if c == '-' || c == '_' {
        Some(Action::DecreaseParallel)
    } else if c == 'h' {
        Some(Action::CollapseGroup)
    } else if c == 'l' {
        Some(Action::ExpandGroup)
    } else if c == 'f' {
        Some(Action::FollowLogs)
    } else if c == 'q' {
        Some(Action::Quit)
    } else {
        None
    }
}

/// What a key means in the main view. Control with `c` quits, before all else.
pub open spec fn normal_binding(key: KeyEvent) -> Option<Action> {
    match key.code {
        KeyCode::Char(c) => if c == 'c' && key.control {
            Some(Action::Quit)
        } else {
            normal_char_binding(c)
        },
        KeyCode::Down => Some(Action::NavigateDown),
        KeyCode::Up => Some(Action::NavigateUp),
        KeyCode::Left => Some(Action::CollapseGroup),
        KeyCode::Enter | KeyCode::Right => Some(Action::ExpandGroup),
        _ => None,
    }
}

/// What a key means in a mode.
pub open spec fn binding(mode: Mode, key: KeyEvent) -> Option<Action> {
    match mode {
        Mode::TextInput => input_binding(key),
        Mode::LogViewer => log_binding(key),
        Mode::ConfirmDelete => confirm_binding(key),
        Mode::Normal => normal_binding(key),
    }
}

/// The intent of a key while a text is typed.
pub fn handle_input_mode_key_event(key: KeyEvent) -> (action: Option<Action>)
    ensures
        action == input_binding(key),
{
    match key.code {
        KeyCode::Enter => Some(Action::SubmitInput),
        KeyCode::Esc => Some(Action::CancelInput),
        KeyCode::Backspace => Some(Action::InputBackspace),
        KeyCode::Delete => Some(Action::InputDelete),
        KeyCode::Left => Some(Action::InputLeft),
        KeyCode::Right => Some(Action::InputRight),
        KeyCode::Home => Some(Action::InputHome),
        KeyCode::End => Some(Action::InputEnd),
        KeyCode::Char(c) => {
            if key.control && c == 'a' {
                Some(Action::InputHome)
            } else if key.control && c == 'e' {
                Some(Action::InputEnd)
            } else if key.control && c == 'c' {
                Some(Action::CancelInput)
            } else {
                Some(Action::InputChar(c))
            }
        },
        _ => None,
    }
}

/// The intent of a key while a log is shown.
pub fn handle_log_modal_key_event(key: KeyEvent) -> (action: Option<Action>)
    ensures
        action == log_binding(key),
{
    match key.code {
        KeyCode::Enter | KeyCode::Esc => Some(Action::CloseLogs),
        KeyCode::Down => Some(Action::ScrollLogDown),
        KeyCode::Up => Some(Action::ScrollLogUp),
        KeyCode::PageDown => Some(Action::ScrollLogPageDown),
        KeyCode::PageUp => Some(Action::ScrollLogPageUp),
        KeyCode::Char(c) => {
            if c == 'q' {
                Some(Action::CloseLogs)
            } else if c == 'j' {
                Some(Action::ScrollLogDown)
            } else if c == 'k' {
                Some(Action::ScrollLogUp)
            } else if c == 'd' && key.control {
                Some(Action::ScrollLogPageDown)
            } else if c == 'u' && key.control {
                Some(Action::ScrollLogPageUp)
            } else if c == 'g' {
                Some(Action::ScrollLogUp)
            } else if c == 'G' {
                Some(Action::ScrollLogDown)
            } else if c == 'f' {
                Some(Action::FollowLogs)
            } else {
                None
            }
        },
        _ => None,
    }
}

/// The intent of a key while a removal awaits confirmation.
pub fn handle_confirm_mode_key_event(key: KeyEvent) -> (action: Option<Action>)
    ensures
        action == confirm_binding(key),
{
    match key.code {
        KeyCode::Enter => Some(Action::ConfirmAction),
        KeyCode::Char(c) => {
            if c == 'y' || c == 'Y' {
                Some(Action::ConfirmAction)
            } else {
                Some(Action::CancelConfirm)
            }
        },
        _ => Some(Action::CancelConfirm),
    }
}

/// The intent of a character in the main view.
fn normal_char(c: char) -> (action: Option<Action>)
    ensures
        action == normal_char_binding(c),
{
    if c == 'j' {
        Some(Action::NavigateDown)
    } else if c == 'k' {
        Some(Action::NavigateUp)
    } else if c == 'g' {
        Some(Action::NavigateTop)
    } else if c == 'G' {
        Some(Action::NavigateBottom)
    } else if c == 'K' {
        Some(Action::KillTask)
    } else if c == 'p' {
        Some(Action::TogglePause)
    } else if c == ' ' {
        Some(Action::ToggleTaskPause)
    } else if c == 'r' {
        Some(Action::Refresh)
    } else if c == 'R' {
        Some(Action::RestartTask)
    } else if c == 'c' {
        Some(Action::CleanFinished)
    } else if c == 'a' {
        Some(Action::StartAddTask)
    } else if c == 'e' {
        Some(Action::StartEditTask)
    } else if c == 'd' || c == 'x' {
        Some(Action::RemoveTask)
    } else if c == 's' {
        Some(Action::StashTask)
    } else if c == 'S' {
        Some(Action::EnqueueTask)
    } else if c == '<' {
        Some(Action::SwitchUp)
    } else if c == '>' {
        Some(Action::SwitchDown)
    } else if c == '+' || c == '=' {
        Some(Action::IncreaseParallel)
    } else if c == '-' || c == '_' {
        Some(Action::DecreaseParallel)
    } else if c == 'h' {
        Some(Action::CollapseGroup)
    } else if c == 'l' {
        Some(Action::ExpandGroup)
    } else if c == 'f' {
        Some(Action::FollowLogs)
    } else if c == 'q' {
        Some(Action::Quit)
    } else {
        None
    }
}

/// The intent of a key in the main view.
pub fn handle_key_event(key: KeyEvent) -> (action: Option<Action>)
    ensures
        action == normal_binding(key),
{
    match key.code {
        KeyCode::Char(c) => {
            if c == 'c' && key.control {
                Some(Action::Quit)
            } else {
                normal_char(c)
            }
        },
        KeyCode::Down => Some(Action::NavigateDown),
        KeyCode::Up => Some(Action::NavigateUp),
        KeyCode::Left => Some(Action::CollapseGroup),
        KeyCode::Enter | KeyCode::Right => Some(Action::ExpandGroup),
        _ => None,
    }
}

/// The intent of a key in the mode `mode`.
pub fn interpret_key(mode: Mode, key: KeyEvent) -> (action: Option<Action>)
    ensures
        action == binding(mode, key),
{
    match mode {
        Mode::TextInput => handle_input_mode_key_event(key),
        Mode::LogViewer => handle_log_modal_key_event(key),
        Mode::ConfirmDelete => handle_confirm_mode_key_event(key),
        Mode::Normal => handle_key_event(key),
    }
}

} // verus!
