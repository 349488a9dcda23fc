//! The visible window `[start, end)` over the task list and the selected row.

use vstd::prelude::*;

verus! {

/// Rows taken by the frame's border.
pub const BORDER: u16 = 1;
/// Rows taken by the column headings and their separator.
pub const HEADING: u16 = 3;
/// Rows taken by the status line.
pub const CMDLINE: u16 = 1;
/// Rows near the window's edge within which moving the cursor slides the window.
pub const SCROLL_PADDING: usize = 5;
/// Rows of the terminal that never show tasks.
pub const RESERVED_ROWS: u16 = BORDER * 2 + CMDLINE + HEADING;
/// A bound on the length of a task list, used to rule out overflow in the
/// window arithmetic. It equals `isize::MAX`, and a `Vec` never holds more than
/// `isize::MAX` bytes, so no list of tasks (each larger than one byte) reaches it.
pub const MAX_TASKS: usize = usize::MAX / 2;

/// How many rows the window spans on a terminal `h` rows high; at least one.
pub open spec fn window_height(h: u16) -> int {
    if h > RESERVED_ROWS {
        h - RESERVED_ROWS
    } else {
        1
    }
}

#[derive(Debug, Clone, Copy, PartialEq, Eq, Structural)]
pub struct Viewport {
    pub start: usize,
    pub end: usize,
    pub cur_row: usize,
    pub terminal_w: u16,
    pub terminal_h: u16,
}

/// The viewport after one `MoveUp`.
pub open spec fn moved_up(v: Viewport) -> Viewport {
    if v.cur_row <= v.start + SCROLL_PADDING && v.start > 0 {
        Viewport { start: (v.start - 1) as usize, end: (v.end - 1) as usize, cur_row: (v.cur_row - 1) as usize, ..v }
    } else if v.cur_row > 0 {
        Viewport { cur_row: (v.cur_row - 1) as usize, ..v }
    } else {
        v
    }
}

/// The viewport after one `MoveDown` over a list of `len` tasks.
pub open spec fn moved_down(v: Viewport, len: int) -> Viewport {
    if v.cur_row + 1 + SCROLL_PADDING >= v.end && v.cur_row + 1 < len {
        Viewport { start: (v.start + 1) as usize, end: (v.end + 1) as usize, cur_row: (v.cur_row + 1) as usize, ..v }
    } else if v.cur_row + 1 < len {
        Viewport { cur_row: (v.cur_row + 1) as usize, ..v }
    } else {
        v
    }
}

/// The viewport on a `w` by `h` terminal: the window takes the height that the
/// new size gives and keeps its start where the cursor stays inside, else it
/// slides up just enough to end right below the cursor.
pub open spec fn resized(v: Viewport, w: u16, h: u16) -> Viewport {
    if v.cur_row < v.start + window_height(h) {
        Viewport { end: (v.start + window_height(h)) as usize, terminal_w: w, terminal_h: h, ..v }
    } else {
        Viewport {
            start: (v.cur_row + 1 - window_height(h)) as usize,
            end: (v.cur_row + 1) as usize,
            terminal_w: w,
            terminal_h: h,
            ..v
        }
    }
}

/// One move: down when `down` holds, else up.
pub open spec fn moved(v: Viewport, len: int, down: bool) -> Viewport {
    if down {
        moved_down(v, len)
    } else {
        moved_up(v)
    }
}

/// The viewport after the moves of `moves`, in order.
pub open spec fn run_moves(v: Viewport, len: int, moves: Seq<bool>) -> Viewport
    decreases moves.len(),
{
    if moves.len() == 0 {
        v
    } else {
        moved(run_moves(v, len, moves.drop_last()), len, moves.last())
    }
}

impl Viewport {
    /// The window spans exactly its height and holds the cursor.
    pub open spec fn wf(&self) -> bool {
        &&& self.end == self.start + window_height(self.terminal_h)
        &&& self.start <= self.cur_row < self.end
    }

    /// Well formed over a list of `len` tasks: the cursor is on a task, or on
    /// row zero when there is none.
    pub open spec fn valid(&self, len: int) -> bool {
        &&& self.wf()
        &&& len <= MAX_TASKS
        &&& if len == 0 {
            self.cur_row == 0
        } else {
            self.cur_row < len
        }
    }

    pub open spec fn new_spec(w: u16, h: u16) -> Viewport {
        Viewport { start: 0, end: window_height(h) as usize, cur_row: 0, terminal_w: w, terminal_h: h }
    }

    /// The window at the top of the list on a `w` by `h` terminal.
    pub fn new(w: u16, h: u16) -> (r: Viewport)
        ensures
            r == Viewport::new_spec(w, h),
            r.wf(),
    {
        let height: usize = if h > RESERVED_ROWS { (h - RESERVED_ROWS) as usize } else { 1 };
        Viewport { start: 0, end: height, cur_row: 0, terminal_w: w, terminal_h: h }
    }

    /// Moves the cursor one row up, sliding the window when the cursor is
    /// within the padding of its top edge and rows remain above.
    pub fn move_up(&mut self)
        requires
            old(self).wf(),
        ensures
            *final(self) == moved_up(*old(self)),
            final(self).wf(),
    {
        if self.cur_row - self.start <= SCROLL_PADDING && self.start > 0 {
            self.start -= 1;
            self.end -= 1;
            self.cur_row -= 1;
        } else if self.cur_row > 0 {
            self.cur_row -= 1;
        }
    }

    /// Moves the cursor one row down over a list of `len` tasks, sliding the
    /// window when the cursor is within the padding of its bottom edge and
    /// rows remain below.
    pub fn move_down(&mut self, len: usize)
        requires
            old(self).valid(len as int),
        ensures
            *final(self) == moved_down(*old(self), len as int),
            final(self).valid(len as int),
    {
        let near_edge = self.end <= self.cur_row + 1 || self.end - (self.cur_row + 1) <= SCROLL_PADDING;
        if near_edge && self.cur_row + 1 < len {
            self.start += 1;
            self.end += 1;
            self.cur_row += 1;
        } else if self.cur_row + 1 < len {
            self.cur_row += 1;
        }
    }

    /// Takes a new terminal size.
    pub fn resize(&mut self, w: u16, h: u16)
        requires
            old(self).wf(),
            old(self).cur_row < MAX_TASKS,
        ensures
            *final(self) == resized(*old(self), w, h),
            final(self).wf(),
    {
        let height: usize = if h > RESERVED_ROWS { (h - RESERVED_ROWS) as usize } else { 1 };
        self.terminal_w = w;
        self.terminal_h = h;
        self.end = self.start + height;
        if self.cur_row >= self.end {
            self.start = self.cur_row + 1 - height;
            self.end = self.cur_row + 1;
        }
    }
}

/// Every sequence of moves over a non-empty list keeps the cursor inside the
/// window and the window's span unchanged; as each prefix of a sequence is a
/// sequence too, this holds after each move.
pub proof fn lemma_moves_keep_window(v: Viewport, len: int, moves: Seq<bool>)
    requires
        v.valid(len),
        len > 0,
    ensures
        run_moves(v, len, moves).valid(len),
        run_moves(v, len, moves).start <= run_moves(v, len, moves).cur_row < run_moves(v, len, moves).end,
        run_moves(v, len, moves).end - run_moves(v, len, moves).start == v.end - v.start,
        run_moves(v, len, moves).terminal_h == v.terminal_h,
    decreases moves.len(),
{
    if moves.len() > 0 {
        lemma_moves_keep_window(v, len, moves.drop_last());
    }
}

} // verus!
