use border_marquee::engine::ControlSignal;
use border_marquee::input::{Command, InputController};
use crossterm::event::KeyCode;

#[test]
fn character_code_is_typed() {
    let mut controller = InputController::new();
    let commands = controller.handle_code(KeyCode::Char('a'), 80);
    assert_eq!(controller.buffer(), &vec!['a']);
    assert_eq!(
        commands,
        vec![
            Command::Send(ControlSignal::Pause),
            Command::Redraw { strip: 78, line: "a".to_string() },
        ]
    );
}

#[test]
fn backspace_code_deletes() {
    let mut controller = InputController::new();
    controller.handle_code(KeyCode::Char('a'), 80);
    controller.handle_code(KeyCode::Char('b'), 80);
    controller.handle_code(KeyCode::Backspace, 80);
    assert_eq!(controller.buffer(), &vec!['a']);
}

#[test]
fn enter_code_sends_what_was_typed() {
    let mut controller = InputController::new();
    controller.handle_code(KeyCode::Char('h'), 80);
    controller.handle_code(KeyCode::Char('i'), 80);
    let commands = controller.handle_code(KeyCode::Enter, 80);
    assert_eq!(
        commands,
        vec![
            Command::Send(ControlSignal::Pause),
            Command::Send(ControlSignal::NewMessage("hi".to_string())),
            Command::Send(ControlSignal::Resume),
        ]
    );
    assert!(controller.buffer().is_empty());
}

#[test]
fn escape_code_finishes() {
    let mut controller = InputController::new();
    let commands = controller.handle_code(KeyCode::Esc, 80);
    assert_eq!(
        commands,
        vec![
            Command::Send(ControlSignal::Pause),
            Command::Notice,
            Command::Send(ControlSignal::Stop),
            Command::Finish,
        ]
    );
}

#[test]
fn other_codes_are_typed_by_name() {
    let mut controller = InputController::new();
    controller.handle_code(KeyCode::Left, 80);
    assert_eq!(controller.buffer(), &vec!['L', 'e', 'f', 't']);
    let commands = controller.handle_code(KeyCode::F(1), 80);
    assert_eq!(commands[1], Command::Redraw { strip: 78, line: "LeftF(1)".to_string() });
    controller.handle_code(KeyCode::Tab, 80);
    assert_eq!(controller.buffer().len(), 11);
}

#[test]
fn other_code_that_does_not_fit_is_dropped() {
    let mut controller = InputController::new();
    controller.handle_code(KeyCode::PageDown, 10);
    assert!(controller.buffer().is_empty());
    controller.handle_code(KeyCode::PageUp, 10);
    assert_eq!(controller.buffer().len(), 6);
    controller.handle_code(KeyCode::Up, 10);
    assert_eq!(controller.buffer().len(), 6);
    controller.handle_code(KeyCode::Char('x'), 10);
    assert_eq!(controller.buffer().len(), 7);
}
