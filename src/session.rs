//! The session: the task list, the viewport, the mode and the input buffer,
//! and the one place where commands change them.

use vstd::prelude::*;
use crate::input::{key_command, parse_key, Command, Key, Mode};
use crate::task::{fresh_task, switched, Task, TaskV};
use crate::viewport::{moved_down, moved_up, resized, Viewport, MAX_TASKS};

verus! {

/// What the caller does after a command: go on, or save the list and end the
/// session if the save succeeds.
#[derive(Debug, Clone, Copy, PartialEq, Eq, Structural)]
pub enum Action {
    Continue,
    Save,
}

/// The status-line message left when a save fails.
pub open spec fn save_error_message() -> Seq<char> {
    "Error saving the data try again"@
}

pub struct Session {
    pub tasks: Vec<Task>,
    pub viewport: Viewport,
    pub mode: Mode,
    pub command_line: String,
}

pub struct SessionV {
    pub tasks: Seq<TaskV>,
    pub viewport: Viewport,
    pub mode: Mode,
    pub command_line: Seq<char>,
}

pub open spec fn task_views(v: Seq<Task>) -> Seq<TaskV> {
    v.map_values(|t: Task| t@)
}

impl View for Session {
    type V = SessionV;

    open spec fn view(&self) -> SessionV {
        SessionV {
            tasks: task_views(self.tasks@),
            viewport: self.viewport,
            mode: self.mode,
            command_line: self.command_line@,
        }
    }
}

impl SessionV {
    pub open spec fn wf(&self) -> bool {
        self.viewport.valid(self.tasks.len() as int)
    }
}

/// The viewport after the task under the cursor is removed: the cursor goes up
/// one row unless it is on the first, and the window follows it up if needed.
pub open spec fn after_delete(v: Viewport) -> Viewport {
    let cur = if v.cur_row > 0 { (v.cur_row - 1) as usize } else { 0usize };
    if cur < v.start {
        Viewport { start: cur, end: (cur + (v.end - v.start)) as usize, cur_row: cur, ..v }
    } else {
        Viewport { cur_row: cur, ..v }
    }
}

/// The session `s` after `cmd`, where `now` is the time read for it. A commit
/// in Adding mode appends the new task while the list is shorter than
/// `MAX_TASKS`, a length that no list of tasks reaches.
pub open spec fn applied(s: SessionV, cmd: Command, now: Seq<char>) -> SessionV {
    match cmd {
        Command::MoveUp => SessionV { viewport: moved_up(s.viewport), ..s },
        Command::MoveDown => SessionV { viewport: moved_down(s.viewport, s.tasks.len() as int), ..s },
        Command::Add => SessionV { mode: Mode::Adding, command_line: Seq::empty(), ..s },
        Command::EnterNormalMode => SessionV { mode: Mode::Normal, command_line: Seq::empty(), ..s },
        Command::InsertChar(c) => SessionV { command_line: s.command_line.push(c), ..s },
        Command::DeleteChar => if s.command_line.len() > 0 {
            SessionV { command_line: s.command_line.drop_last(), ..s }
        } else {
            s
        },
        Command::EnterCommand => SessionV {
            tasks: if s.mode == Mode::Adding && s.tasks.len() < MAX_TASKS {
                s.tasks.push(fresh_task(s.command_line, now))
            } else {
                s.tasks
            },
            mode: Mode::Normal,
            command_line: Seq::empty(),
            ..s
        },
        Command::DeleteTask => if s.tasks.len() > 0 {
            SessionV {
                tasks: s.tasks.remove(s.viewport.cur_row as int),
                viewport: after_delete(s.viewport),
                ..s
            }
        } else {
            s
        },
        Command::SwitchState => if s.viewport.cur_row < s.tasks.len() {
            SessionV {
                tasks: s.tasks.update(
                    s.viewport.cur_row as int,
                    switched(s.tasks[s.viewport.cur_row as int], now),
                ),
                ..s
            }
        } else {
            s
        },
        Command::Quit | Command::Invalid => s,
    }
}

pub open spec fn action_of(cmd: Command) -> Action {
    if cmd == Command::Quit {
        Action::Save
    } else {
        Action::Continue
    }
}

/// Relies on chrono's `Local::now` and its `Display` impl: the local date and
/// time at the moment of the call, as text.
#[verifier::external_body]
fn local_now() -> String {
    chrono::Local::now().to_string()
}

impl Session {
    pub open spec fn wf(&self) -> bool {
        self@.wf()
    }

    /// A session over `tasks` on a `w` by `h` terminal: Normal mode, empty
    /// buffer, cursor on the first row.
    pub fn new(tasks: Vec<Task>, w: u16, h: u16) -> (r: Session)
        requires
            tasks@.len() <= MAX_TASKS,
        ensures
            r@.tasks == task_views(tasks@),
            r.viewport == Viewport::new_spec(w, h),
            r.mode == Mode::Normal,
            r.command_line@ == Seq::<char>::empty(),
            r.wf(),
    {
        Session { tasks, viewport: Viewport::new(w, h), mode: Mode::Normal, command_line: String::new() }
    }

    /// Applies `cmd`, with `now` as the time of any timestamp it takes. A commit
    /// in Adding mode always appends the new task in practice: the list would
    /// have to hold `MAX_TASKS` tasks, which no `Vec` of tasks can.
    pub fn apply(&mut self, cmd: Command, now: &str) -> (r: Action)
        requires
            old(self).wf(),
        ensures
            final(self)@ == applied(old(self)@, cmd, now@),
            final(self).wf(),
            r == action_of(cmd),
    {
        let ghost s0 = self@;
        match cmd {
            Command::MoveUp => self.viewport.move_up(),
            Command::MoveDown => self.viewport.move_down(self.tasks.len()),
            Command::Add => {
                self.command_line.clear();
                self.mode = Mode::Adding;
            },
            Command::EnterNormalMode => {
                self.command_line.clear();
                self.mode = Mode::Normal;
            },
            Command::InsertChar(c) => self.command_line.push(c),
            Command::DeleteChar => {
                let _ = self.command_line.pop();
            },
            Command::EnterCommand => {
                if self.mode == Mode::Adding && self.tasks.len() < MAX_TASKS {
                    let t = Task::new(self.command_line.clone(), now);
                    self.tasks.push(t);
                    assert(task_views(self.tasks@) =~= s0.tasks.push(fresh_task(s0.command_line, now@)));
                }
                self.command_line.clear();
                self.mode = Mode::Normal;
            },
            Command::DeleteTask => {
                if self.tasks.len() > 0 {
                    let _ = self.tasks.remove(self.viewport.cur_row);
                    assert(task_views(self.tasks@) =~= s0.tasks.remove(s0.viewport.cur_row as int));
                    if self.viewport.cur_row > 0 {
                        self.viewport.cur_row -= 1;
                    }
                    if self.viewport.cur_row < self.viewport.start {
                        let width = self.viewport.end - self.viewport.start;
                        self.viewport.start = self.viewport.cur_row;
                        self.viewport.end = self.viewport.cur_row + width;
                    }
                }
            },
            Command::SwitchState => {
                let i = self.viewport.cur_row;
                if i < self.tasks.len() {
                    self.tasks[i].switch_state(now);
                    assert(task_views(self.tasks@) =~= s0.tasks.update(i as int, switched(s0.tasks[i as int], now@)));
                }
            },
            Command::Quit | Command::Invalid => {},
        }
        assert(self@ == applied(s0, cmd, now@));
        if cmd == Command::Quit {
            Action::Save
        } else {
            Action::Continue
        }
    }

    /// Handles one key press: maps it to a command in the current mode and
    /// applies it, with the local time now for any timestamp it takes.
    pub fn handle_key(&mut self, key: Key) -> (r: Action)
        requires
            old(self).wf(),
        ensures
            exists|now: Seq<char>| final(self)@ == applied(old(self)@, key_command(old(self).mode, key), now),
            final(self).wf(),
            r == action_of(key_command(old(self).mode, key)),
    {
        let cmd = parse_key(self.mode, key);
        let now = local_now();
        self.apply(cmd, now.as_str())
    }

    /// Takes a new terminal size; the viewport follows it (see `Viewport::resize`).
    pub fn update_terminal_size(&mut self, w: u16, h: u16)
        requires
            old(self).wf(),
        ensures
            final(self).tasks@ == old(self).tasks@,
            final(self).mode == old(self).mode,
            final(self).command_line@ == old(self).command_line@,
            final(self).viewport == resized(old(self).viewport, w, h),
            final(self).wf(),
    {
        self.viewport.resize(w, h);
    }

    /// Leaves the save-failure message in the status line; the mode and the
    /// list stay as they are.
    pub fn save_failed(&mut self)
        requires
            old(self).wf(),
        ensures
            final(self)@ == (SessionV { command_line: save_error_message(), ..old(self)@ }),
            final(self).wf(),
    {
        self.command_line = String::from_str("Error saving the data try again");
    }
}

/// Deleting the only task of a one-task list leaves an empty list with the
/// cursor on row zero.
pub proof fn lemma_delete_sole_task(s: SessionV, now: Seq<char>)
    requires
        s.wf(),
        s.tasks.len() == 1,
    ensures
        applied(s, Command::DeleteTask, now).tasks.len() == 0,
        applied(s, Command::DeleteTask, now).viewport.cur_row == 0,
        applied(s, Command::DeleteTask, now).wf(),
{
}

} // verus!
