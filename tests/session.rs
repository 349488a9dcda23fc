use task_tui::{Action, Command, Key, Mode, Session, State, Task};

const NOW: &str = "2024-05-06 07:08:09.123456789 +02:00";

fn task(name: &str) -> Task {
    Task::new(String::from(name), "2024-01-01 09:00:00 +00:00")
}

fn session_of(names: &[&str]) -> Session {
    let tasks: Vec<Task> = names.iter().map(|n| task(n)).collect();
    Session::new(tasks, 80, 24)
}

#[test]
fn enter_in_adding_mode_creates_task() {
    let mut s = session_of(&[]);
    s.apply(Command::Add, NOW);
    assert_eq!(s.mode, Mode::Adding);
    for c in "Buy milk".chars() {
        s.apply(Command::InsertChar(c), NOW);
    }
    assert_eq!(s.command_line, "Buy milk");
    let r = s.apply(Command::EnterCommand, NOW);
    assert_eq!(r, Action::Continue);
    assert_eq!(s.tasks.len(), 1);
    assert_eq!(s.tasks[0].name, "Buy milk");
    assert_eq!(s.tasks[0].state, State::Todo);
    assert_eq!(s.tasks[0].completed_at, "");
    assert_eq!(s.tasks[0].created_at, "2024-05-06 07:08");
    assert_eq!(s.mode, Mode::Normal);
    assert_eq!(s.command_line, "");
}

#[test]
fn enter_in_normal_mode_adds_nothing() {
    let mut s = session_of(&["a"]);
    s.apply(Command::EnterCommand, NOW);
    assert_eq!(s.tasks.len(), 1);
}

#[test]
fn escape_discards_buffer() {
    let mut s = session_of(&[]);
    s.apply(Command::Add, NOW);
    s.apply(Command::InsertChar('x'), NOW);
    s.apply(Command::EnterNormalMode, NOW);
    assert_eq!(s.mode, Mode::Normal);
    assert_eq!(s.command_line, "");
    assert!(s.tasks.is_empty());
}

#[test]
fn backspace_removes_last_character() {
    let mut s = session_of(&[]);
    s.apply(Command::Add, NOW);
    s.apply(Command::InsertChar('a'), NOW);
    s.apply(Command::InsertChar('b'), NOW);
    s.apply(Command::DeleteChar, NOW);
    assert_eq!(s.command_line, "a");
    s.apply(Command::DeleteChar, NOW);
    s.apply(Command::DeleteChar, NOW);
    assert_eq!(s.command_line, "");
    assert_eq!(s.mode, Mode::Adding);
}

#[test]
fn deleting_sole_task_empties_store() {
    let mut s = session_of(&["only"]);
    s.apply(Command::DeleteTask, NOW);
    assert!(s.tasks.is_empty());
    assert_eq!(s.viewport.cur_row, 0);
    s.apply(Command::DeleteTask, NOW);
    assert!(s.tasks.is_empty());
    assert_eq!(s.viewport.cur_row, 0);
}

#[test]
fn delete_moves_cursor_up() {
    let mut s = session_of(&["a", "b", "c"]);
    s.apply(Command::MoveDown, NOW);
    s.apply(Command::MoveDown, NOW);
    assert_eq!(s.viewport.cur_row, 2);
    s.apply(Command::DeleteTask, NOW);
    assert_eq!(s.tasks.len(), 2);
    assert_eq!(s.viewport.cur_row, 1);
    assert_eq!(s.tasks[1].name, "b");
    s.apply(Command::MoveUp, NOW);
    s.apply(Command::DeleteTask, NOW);
    assert_eq!(s.viewport.cur_row, 0);
    assert_eq!(s.tasks.len(), 1);
    assert_eq!(s.tasks[0].name, "b");
}

#[test]
fn delete_at_window_top_slides_window_up() {
    let names: Vec<String> = (0..40).map(|i| format!("t{i}")).collect();
    let refs: Vec<&str> = names.iter().map(|n| n.as_str()).collect();
    let mut s = session_of(&refs);
    for _ in 0..20 {
        s.apply(Command::MoveDown, NOW);
    }
    s.viewport.start = s.viewport.cur_row;
    s.viewport.end = s.viewport.start + 18;
    s.apply(Command::DeleteTask, NOW);
    assert_eq!(s.viewport.cur_row, 19);
    assert_eq!(s.viewport.start, 19);
    assert_eq!(s.viewport.end, 37);
}

#[test]
fn switch_state_three_times_returns_to_todo() {
    let mut s = session_of(&["a"]);
    s.apply(Command::SwitchState, NOW);
    assert_eq!(s.tasks[0].state, State::Doing);
    s.apply(Command::SwitchState, NOW);
    assert_eq!(s.tasks[0].state, State::Done);
    assert_eq!(s.tasks[0].completed_at, "2024-05-06 07:08");
    s.apply(Command::SwitchState, NOW);
    assert_eq!(s.tasks[0].state, State::Todo);
    assert_eq!(s.tasks[0].completed_at, "");
}

#[test]
fn switch_state_on_empty_store_is_noop() {
    let mut s = session_of(&[]);
    assert_eq!(s.apply(Command::SwitchState, NOW), Action::Continue);
    assert!(s.tasks.is_empty());
}

#[test]
fn quit_asks_for_save() {
    let mut s = session_of(&["a"]);
    assert_eq!(s.apply(Command::Quit, NOW), Action::Save);
    assert_eq!(s.tasks.len(), 1);
    assert_eq!(s.apply(Command::Invalid, NOW), Action::Continue);
}

#[test]
fn save_failure_is_shown_and_session_goes_on() {
    let mut s = session_of(&["a"]);
    s.save_failed();
    assert_eq!(s.command_line, "Error saving the data try again");
    assert_eq!(s.mode, Mode::Normal);
    assert_eq!(s.tasks.len(), 1);
}

#[test]
fn move_down_repeatedly_stops_at_last_row() {
    let mut s = session_of(&["a", "b", "c"]);
    for _ in 0..10 {
        s.apply(Command::MoveDown, NOW);
    }
    assert_eq!(s.viewport.cur_row, 2);
}

#[test]
fn handle_key_stamps_with_local_time() {
    let mut s = session_of(&[]);
    s.handle_key(Key::Char('a'));
    assert_eq!(s.mode, Mode::Adding);
    s.handle_key(Key::Char('q'));
    s.handle_key(Key::Char('\n'));
    assert_eq!(s.mode, Mode::Normal);
    assert_eq!(s.tasks.len(), 1);
    assert_eq!(s.tasks[0].name, "q");
    let stamp: Vec<char> = s.tasks[0].created_at.chars().collect();
    assert_eq!(stamp.len(), 16);
    assert_eq!(stamp[4], '-');
    assert_eq!(stamp[10], ' ');
    assert_eq!(stamp[13], ':');
    assert!(stamp[0].is_ascii_digit());
    s.handle_key(Key::Char('m'));
    s.handle_key(Key::Char('m'));
    assert_eq!(s.tasks[0].state, State::Done);
    assert_eq!(s.tasks[0].completed_at.chars().count(), 16);
    assert_eq!(s.handle_key(Key::Char('q')), Action::Save);
}

#[test]
fn resize_recomputes_window() {
    let mut s = session_of(&["a", "b"]);
    s.update_terminal_size(120, 40);
    assert_eq!((s.viewport.start, s.viewport.end), (0, 34));
    assert_eq!((s.viewport.terminal_w, s.viewport.terminal_h), (120, 40));
}
