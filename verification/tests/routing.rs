use input_mux::event::{InputEvent, KeyCode, KeyEvent, Modifiers, MouseEvent, MouseKind};
use input_mux::router::{classify, Route};

fn key(code: KeyCode, modifiers: Modifiers) -> InputEvent {
    InputEvent::Key(KeyEvent { code, modifiers })
}

fn mouse(kind: MouseKind) -> InputEvent {
    InputEvent::Mouse(MouseEvent { kind, column: 3, row: 7 })
}

#[test]
fn classify_plain_key_is_keypress() {
    let e = key(KeyCode::Char('a'), Modifiers::none());
    assert_eq!(classify(&e), Route::Keypress);
}

#[test]
fn classify_nonchar_key_is_keypress() {
    let e = key(KeyCode::NonChar, Modifiers::none());
    assert_eq!(classify(&e), Route::Keypress);
}

#[test]
fn classify_ctrl_c_is_hard_exit() {
    let e = key(KeyCode::Char('c'), Modifiers::control_only());
    assert_eq!(classify(&e), Route::HardExit);
}

#[test]
fn classify_ctrl_shift_c_is_hard_exit() {
    let e = key(
        KeyCode::Char('c'),
        Modifiers { shift: true, control: true, alt: false },
    );
    assert_eq!(classify(&e), Route::HardExit);
}

#[test]
fn classify_plain_c_is_keypress() {
    let e = key(KeyCode::Char('c'), Modifiers::none());
    assert_eq!(classify(&e), Route::Keypress);
}

#[test]
fn classify_ctrl_other_char_is_keypress() {
    let e = key(KeyCode::Char('a'), Modifiers::control_only());
    assert_eq!(classify(&e), Route::Keypress);
}

#[test]
fn classify_mouse_down_is_click() {
    assert_eq!(classify(&mouse(MouseKind::Down)), Route::Click);
}

#[test]
fn classify_mouse_up_is_discard() {
    assert_eq!(classify(&mouse(MouseKind::Up)), Route::Discard);
}

#[test]
fn classify_mouse_move_is_discard() {
    assert_eq!(classify(&mouse(MouseKind::Moved)), Route::Discard);
}

#[test]
fn classify_mouse_scroll_is_discard() {
    assert_eq!(classify(&mouse(MouseKind::Scroll)), Route::Discard);
}

#[test]
fn classify_other_event_is_discard() {
    assert_eq!(classify(&InputEvent::Other), Route::Discard);
}
