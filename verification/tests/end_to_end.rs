use input_mux::event::{InputEvent, KeyCode, KeyEvent, Modifiers, MouseEvent, MouseKind};
use input_mux::label::Label;
use input_mux::pipeline::process_events;

fn plain_key(ch: char) -> InputEvent {
    InputEvent::Key(KeyEvent { code: KeyCode::Char(ch), modifiers: Modifiers::none() })
}

fn ctrl_c() -> InputEvent {
    InputEvent::Key(KeyEvent { code: KeyCode::Char('c'), modifiers: Modifiers::control_only() })
}

fn mouse(kind: MouseKind) -> InputEvent {
    InputEvent::Mouse(MouseEvent { kind, column: 1, row: 2 })
}

#[test]
fn scenario_two_keys_then_click() {
    let events = vec![plain_key('a'), plain_key('b'), mouse(MouseKind::Down)];
    let (lines, exited) = process_events(&events);
    assert_eq!(lines, vec![Label::KeyPressed, Label::KeyPressed, Label::Clicked]);
    assert!(lines.len() >= 3);
    let texts: Vec<&str> = lines.iter().map(|l| l.text()).collect();
    assert_eq!(texts, vec!["key pressed", "key pressed", "clicked"]);
    assert!(!exited);
}

#[test]
fn no_events_no_lines() {
    let events: Vec<InputEvent> = Vec::new();
    let (lines, exited) = process_events(&events);
    assert!(lines.is_empty());
    assert!(!exited);
}

#[test]
fn discarded_events_print_nothing() {
    let events = vec![
        mouse(MouseKind::Moved),
        mouse(MouseKind::Up),
        mouse(MouseKind::Scroll),
        InputEvent::Other,
    ];
    let (lines, exited) = process_events(&events);
    assert!(lines.is_empty());
    assert!(!exited);
}

#[test]
fn hard_exit_stops_the_run() {
    let events = vec![plain_key('a'), ctrl_c(), plain_key('b'), mouse(MouseKind::Down)];
    let (lines, exited) = process_events(&events);
    assert_eq!(lines, vec![Label::KeyPressed]);
    assert!(exited);
}

#[test]
fn hard_exit_first_prints_nothing() {
    let events = vec![ctrl_c()];
    let (lines, exited) = process_events(&events);
    assert!(lines.is_empty());
    assert!(exited);
}

#[test]
fn interleaved_categories_keep_relative_order() {
    let events = vec![
        mouse(MouseKind::Down),
        plain_key('x'),
        mouse(MouseKind::Moved),
        mouse(MouseKind::Down),
    ];
    let (lines, exited) = process_events(&events);
    assert_eq!(lines, vec![Label::Clicked, Label::KeyPressed, Label::Clicked]);
    assert!(!exited);
}
