use task_tui::{parse_key, Command, Key, Mode};

#[test]
fn normal_mode_keys() {
    let n = Mode::Normal;
    assert_eq!(parse_key(n, Key::Char('k')), Command::MoveUp);
    assert_eq!(parse_key(n, Key::Up), Command::MoveUp);
    assert_eq!(parse_key(n, Key::Char('j')), Command::MoveDown);
    assert_eq!(parse_key(n, Key::Down), Command::MoveDown);
    assert_eq!(parse_key(n, Key::Char('a')), Command::Add);
    assert_eq!(parse_key(n, Key::Char('x')), Command::DeleteTask);
    assert_eq!(parse_key(n, Key::Delete), Command::DeleteTask);
    assert_eq!(parse_key(n, Key::Char('q')), Command::Quit);
    assert_eq!(parse_key(n, Key::Esc), Command::Quit);
    assert_eq!(parse_key(n, Key::Char('m')), Command::SwitchState);
    assert_eq!(parse_key(n, Key::Char('z')), Command::Invalid);
    assert_eq!(parse_key(n, Key::Backspace), Command::Invalid);
    assert_eq!(parse_key(n, Key::Other), Command::Invalid);
}

#[test]
fn adding_mode_keys() {
    let a = Mode::Adding;
    assert_eq!(parse_key(a, Key::Char('\n')), Command::EnterCommand);
    assert_eq!(parse_key(a, Key::Char('k')), Command::InsertChar('k'));
    assert_eq!(parse_key(a, Key::Char('q')), Command::InsertChar('q'));
    assert_eq!(parse_key(a, Key::Backspace), Command::DeleteChar);
    assert_eq!(parse_key(a, Key::Esc), Command::EnterNormalMode);
    assert_eq!(parse_key(a, Key::Up), Command::Invalid);
    assert_eq!(parse_key(a, Key::Char('\t')), Command::Invalid);
    assert_eq!(parse_key(a, Key::Char('\u{7f}')), Command::Invalid);
    assert_eq!(parse_key(a, Key::Char('\u{1b}')), Command::Invalid);
    assert_eq!(parse_key(a, Key::Char('é')), Command::InsertChar('é'));
    assert_eq!(parse_key(a, Key::Char(' ')), Command::InsertChar(' '));
}

#[test]
fn mode_names() {
    assert_eq!(Mode::Normal.name(), "Normal");
    assert_eq!(Mode::Adding.name(), "Adding");
}
