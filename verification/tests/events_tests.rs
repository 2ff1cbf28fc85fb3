use lazypueue::app::{Action, App, Mode};
use lazypueue::events::{
    handle_confirm_mode_key_event, handle_input_mode_key_event, handle_key_event,
    handle_log_modal_key_event, interpret_key, KeyCode, KeyEvent,
};

fn key(code: KeyCode) -> KeyEvent {
    KeyEvent { code, control: false }
}

fn ch(c: char) -> KeyEvent {
    key(KeyCode::Char(c))
}

fn ctrl(c: char) -> KeyEvent {
    KeyEvent { code: KeyCode::Char(c), control: true }
}

#[test]
fn main_view_bindings() {
    let table = [
        (ch('j'), Action::NavigateDown),
        (key(KeyCode::Down), Action::NavigateDown),
        (ch('k'), Action::NavigateUp),
        (key(KeyCode::Up), Action::NavigateUp),
        (ch('g'), Action::NavigateTop),
        (ch('G'), Action::NavigateBottom),
        (ch('K'), Action::KillTask),
        (ch('p'), Action::TogglePause),
        (ch(' '), Action::ToggleTaskPause),
        (ch('r'), Action::Refresh),
        (ch('R'), Action::RestartTask),
        (ch('c'), Action::CleanFinished),
        (ch('a'), Action::StartAddTask),
        (ch('e'), Action::StartEditTask),
        (ch('d'), Action::RemoveTask),
        (ch('x'), Action::RemoveTask),
        (ch('s'), Action::StashTask),
        (ch('S'), Action::EnqueueTask),
        (ch('<'), Action::SwitchUp),
        (ch('>'), Action::SwitchDown),
        (ch('+'), Action::IncreaseParallel),
        (ch('='), Action::IncreaseParallel),
        (ch('-'), Action::DecreaseParallel),
        (ch('_'), Action::DecreaseParallel),
        (ch('h'), Action::CollapseGroup),
        (key(KeyCode::Left), Action::CollapseGroup),
        (key(KeyCode::Enter), Action::ExpandGroup),
        (ch('l'), Action::ExpandGroup),
        (key(KeyCode::Right), Action::ExpandGroup),
        (ch('f'), Action::FollowLogs),
        (ch('q'), Action::Quit),
        (ctrl('c'), Action::Quit),
    ];
    for (event, action) in table {
        assert_eq!(handle_key_event(event), Some(action), "{:?}", event);
    }
    assert_eq!(handle_key_event(ch('z')), None);
    assert_eq!(handle_key_event(key(KeyCode::Esc)), None);
    assert_eq!(handle_key_event(key(KeyCode::Other)), None);
}

#[test]
fn text_input_bindings() {
    let table = [
        (key(KeyCode::Enter), Action::SubmitInput),
        (key(KeyCode::Esc), Action::CancelInput),
        (key(KeyCode::Backspace), Action::InputBackspace),
        (key(KeyCode::Delete), Action::InputDelete),
        (key(KeyCode::Left), Action::InputLeft),
        (key(KeyCode::Right), Action::InputRight),
        (key(KeyCode::Home), Action::InputHome),
        (key(KeyCode::End), Action::InputEnd),
        (ctrl('a'), Action::InputHome),
        (ctrl('e'), Action::InputEnd),
        (ctrl('c'), Action::CancelInput),
        (ch('a'), Action::InputChar('a')),
        (ch('q'), Action::InputChar('q')),
        (ctrl('x'), Action::InputChar('x')),
    ];
    for (event, action) in table {
        assert_eq!(handle_input_mode_key_event(event), Some(action), "{:?}", event);
    }
    assert_eq!(handle_input_mode_key_event(key(KeyCode::Up)), None);
    assert_eq!(handle_input_mode_key_event(key(KeyCode::Other)), None);
}

#[test]
fn log_viewer_bindings() {
    let table = [
        (key(KeyCode::Enter), Action::CloseLogs),
        (key(KeyCode::Esc), Action::CloseLogs),
        (ch('q'), Action::CloseLogs),
        (ch('j'), Action::ScrollLogDown),
        (key(KeyCode::Down), Action::ScrollLogDown),
        (ch('k'), Action::ScrollLogUp),
        (key(KeyCode::Up), Action::ScrollLogUp),
        (ctrl('d'), Action::ScrollLogPageDown),
        (ctrl('u'), Action::ScrollLogPageUp),
        (key(KeyCode::PageDown), Action::ScrollLogPageDown),
        (key(KeyCode::PageUp), Action::ScrollLogPageUp),
        (ch('g'), Action::ScrollLogUp),
        (ch('G'), Action::ScrollLogDown),
        (ch('f'), Action::FollowLogs),
    ];
    for (event, action) in table {
        assert_eq!(handle_log_modal_key_event(event), Some(action), "{:?}", event);
    }
    assert_eq!(handle_log_modal_key_event(ch('d')), None);
    assert_eq!(handle_log_modal_key_event(ch('u')), None);
    assert_eq!(handle_log_modal_key_event(key(KeyCode::Left)), None);
}

#[test]
fn confirmation_bindings() {
    for event in [ch('y'), ch('Y'), key(KeyCode::Enter)] {
        assert_eq!(handle_confirm_mode_key_event(event), Some(Action::ConfirmAction));
    }
    for event in [ch('n'), ch('N'), key(KeyCode::Esc), ch('z'), key(KeyCode::Up)] {
        assert_eq!(handle_confirm_mode_key_event(event), Some(Action::CancelConfirm));
    }
}

#[test]
fn the_mode_picks_the_bindings() {
    assert_eq!(interpret_key(Mode::Normal, ch('q')), Some(Action::Quit));
    assert_eq!(interpret_key(Mode::TextInput, ch('q')), Some(Action::InputChar('q')));
    assert_eq!(interpret_key(Mode::LogViewer, ch('q')), Some(Action::CloseLogs));
    assert_eq!(interpret_key(Mode::ConfirmDelete, ch('q')), Some(Action::CancelConfirm));

    let mut app = App::new();
    assert_eq!(app.mode(), Mode::Normal);
    app.confirm_delete = Some(3);
    assert_eq!(app.mode(), Mode::ConfirmDelete);
    app.show_log_modal = true;
    assert_eq!(app.mode(), Mode::LogViewer);
    app.handle_action(Action::StartAddTask);
    assert_eq!(app.mode(), Mode::TextInput);
}
