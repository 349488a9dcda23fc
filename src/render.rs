//! Laying out a frame: the border, the column headings, the visible tasks and
//! the status line, as text placed at terminal positions. The caller clears
//! the screen and draws the cells in order.

use vstd::prelude::*;
use crate::input::mode_name;
use crate::session::{task_views, Session, SessionV};
use crate::task::{state_colour, state_label, Colour, Task, TaskV};
use crate::viewport::{Viewport, HEADING};
use crate::wrap::{texts, wrap, wrapped};

verus! {

/// The narrowest terminal on which a frame is drawn.
pub const MIN_WIDTH: u16 = 24;
/// The lowest terminal on which a frame is drawn.
pub const MIN_HEIGHT: u16 = 8;

/// Text to draw with its first character at column `x`, row `y` (both from 1).
pub struct Cell {
    pub x: u16,
    pub y: u16,
    pub text: String,
    pub colour: Colour,
}

pub struct CellV {
    pub x: int,
    pub y: int,
    pub text: Seq<char>,
    pub colour: Colour,
}

impl View for Cell {
    type V = CellV;

    open spec fn view(&self) -> CellV {
        CellV { x: self.x as int, y: self.y as int, text: self.text@, colour: self.colour }
    }
}

pub open spec fn cell_views(v: Seq<Cell>) -> Seq<CellV> {
    v.map_values(|c: Cell| c@)
}

pub open spec fn cell(x: int, y: int, text: Seq<char>, colour: Colour) -> CellV {
    CellV { x, y, text, colour }
}

/// The glyph at column `i` of a horizontal edge `w` columns wide.
pub open spec fn edge_glyph(i: int, w: int, first: char, mid: char, last: char) -> char {
    if i == 0 {
        first
    } else if i >= w - 1 {
        last
    } else {
        mid
    }
}

pub open spec fn top_edge(w: u16, n: int) -> Seq<CellV> {
    Seq::new(n as nat, |i: int| cell(i + 1, 1, seq![edge_glyph(i, w as int, '╔', '═', '╗')], Colour::Plain))
}

pub open spec fn bottom_edge(w: u16, h: u16, n: int) -> Seq<CellV> {
    Seq::new(n as nat, |i: int| cell(i + 1, h - 1, seq![edge_glyph(i, w as int, '╚', '═', '╝')], Colour::Plain))
}

pub open spec fn side(x: int, n: int) -> Seq<CellV> {
    Seq::new(n as nat, |j: int| cell(x, j + 2, seq!['║'], Colour::Plain))
}

/// The border: the top edge on row 1, the bottom edge on row `h - 1` (the last
/// row stays for the status line), and the two sides between them.
pub open spec fn grid(w: u16, h: u16) -> Seq<CellV> {
    top_edge(w, w as int) + bottom_edge(w, h, w as int) + side(1, h - 3) + side(w as int, h - 3)
}

/// The distance between two columns: a quarter of the width.
pub open spec fn column_step(w: u16) -> u16 {
    (w / 4) as u16
}

/// The last row number that a cell can have.
pub const LAST_ROW: u16 = 0xffff;

pub open spec fn separator(n: int) -> Seq<CellV> {
    Seq::new(n as nat, |j: int| cell(j + 2, 4, seq!['┄'], Colour::Plain))
}

/// The four headings on row 2 and the separator on row 4.
pub open spec fn headings(w: u16) -> Seq<CellV> {
    let step = column_step(w) as int;
    seq![
        cell(2, 2, "Name"@, Colour::Plain),
        cell(step, 2, "Created at"@, Colour::Plain),
        cell(2 * step, 2, "Completed at"@, Colour::Plain),
        cell(3 * step, 2, "State"@, Colour::Plain),
    ] + separator(w - 2)
}

/// The colour of the text of row `i`: blue for the selected row.
pub open spec fn row_colour(v: Viewport, i: int) -> Colour {
    if i == v.cur_row {
        Colour::Blue
    } else {
        Colour::Plain
    }
}

pub open spec fn name_lines(fs: Seq<Seq<char>>, line: int, colour: Colour, n: int) -> Seq<CellV> {
    Seq::new(n as nat, |j: int| cell(2, line + j, fs[j], colour))
}

/// The cells of task `t`, row `i` of the list, whose first line is `line`:
/// its dates and state on that line, its name wrapped below one another.
pub open spec fn task_cells(t: TaskV, v: Viewport, i: int, line: int) -> Seq<CellV> {
    let step = column_step(v.terminal_w);
    let colour = row_colour(v, i);
    let fs = wrapped(t.name, step);
    seq![
        cell(step as int, line, t.created_at, colour),
        cell(2 * step, line, t.completed_at, colour),
        cell(3 * step, line, state_label(t.state), state_colour(t.state)),
    ] + name_lines(fs, line, colour, fs.len() as int)
}

/// The cells of the visible tasks from row `i` on, the first of them on line
/// `y + 2`; each task's first line follows the previous task's last one.
/// Drawing stops at the window's end or the list's end, and otherwise only
/// where a line number would pass `LAST_ROW`.
pub open spec fn rows_from(tasks: Seq<TaskV>, v: Viewport, i: int, y: int) -> Seq<CellV>
    decreases v.end - i,
{
    let n = wrapped(tasks[i].name, column_step(v.terminal_w)).len();
    if i < v.end && i < tasks.len() && y + n + 1 <= LAST_ROW {
        task_cells(tasks[i], v, i, y + 2) + rows_from(tasks, v, i + 1, y + n)
    } else {
        Seq::empty()
    }
}

/// The status line: the mode's name and a colon, then the input buffer.
pub open spec fn status(s: SessionV) -> Seq<CellV> {
    let h = s.viewport.terminal_h as int;
    seq![
        cell(1, h, mode_name(s.mode).push(':'), Colour::Plain),
        cell(8, h, s.command_line, Colour::Plain),
    ]
}

/// The whole frame; nothing on a terminal below the minimum size.
pub open spec fn frame(s: SessionV) -> Seq<CellV> {
    let v = s.viewport;
    if v.terminal_w < MIN_WIDTH || v.terminal_h < MIN_HEIGHT {
        Seq::empty()
    } else {
        grid(v.terminal_w, v.terminal_h) + headings(v.terminal_w) + rows_from(
            s.tasks,
            v,
            v.start as int,
            HEADING as int,
        ) + status(s)
    }
}

fn glyph(x: u16, y: u16, c: char) -> (r: Cell)
    ensures
        r@ == cell(x as int, y as int, seq![c], Colour::Plain),
{
    let mut text = String::new();
    text.push(c);
    assert(text@ =~= seq![c]);
    Cell { x, y, text, colour: Colour::Plain }
}

proof fn lemma_push_view(v: Seq<Cell>, c: Cell)
    ensures
        cell_views(v.push(c)) == cell_views(v).push(c@),
{
    assert(cell_views(v.push(c)) =~= cell_views(v).push(c@));
}

proof fn lemma_append_view(a: Seq<Cell>, b: Seq<Cell>)
    ensures
        cell_views(a + b) == cell_views(a) + cell_views(b),
{
    assert(cell_views(a + b) =~= cell_views(a) + cell_views(b));
}

/// Draws the border of a `w` by `h` terminal.
pub fn draw_grid(w: u16, h: u16) -> (r: Vec<Cell>)
    requires
        w >= MIN_WIDTH,
        h >= MIN_HEIGHT,
    ensures
        cell_views(r@) == grid(w, h),
{
    let mut cells: Vec<Cell> = Vec::new();
    let mut i: u16 = 0;
    while i < w
        invariant
            i <= w,
            cell_views(cells@) == top_edge(w, i as int),
        decreases w - i,
    {
        let c = if i == 0 { '╔' } else if i >= w - 1 { '╗' } else { '═' };
        let g = glyph(i + 1, 1, c);
        proof { lemma_push_view(cells@, g); }
        cells.push(g);
        assert(top_edge(w, i + 1) =~= top_edge(w, i as int).push(cell(i + 1, 1, seq![c], Colour::Plain)));
        i += 1;
    }
    let ghost a = cell_views(cells@);
    i = 0;
    while i < w
        invariant
            i <= w,
            h >= MIN_HEIGHT,
            a == top_edge(w, w as int),
            cell_views(cells@) == a + bottom_edge(w, h, i as int),
        decreases w - i,
    {
        let c = if i == 0 { '╚' } else if i >= w - 1 { '╝' } else { '═' };
        let g = glyph(i + 1, h - 1, c);
        proof { lemma_push_view(cells@, g); }
        cells.push(g);
        assert(bottom_edge(w, h, i + 1) =~= bottom_edge(w, h, i as int).push(
            cell(i + 1, h - 1, seq![c], Colour::Plain),
        ));
        i += 1;
    }
    let ghost b = cell_views(cells@);
    let mut j: u16 = 0;
    while j < h - 3
        invariant
            j <= h - 3,
            h >= MIN_HEIGHT,
            cell_views(cells@) == b + side(1, j as int),
        decreases h - 3 - j,
    {
        let g = glyph(1, j + 2, '║');
        proof { lemma_push_view(cells@, g); }
        cells.push(g);
        assert(side(1, j + 1) =~= side(1, j as int).push(cell(1, j + 2, seq!['║'], Colour::Plain)));
        j += 1;
    }
    let ghost c3 = cell_views(cells@);
    j = 0;
    while j < h - 3
        invariant
            j <= h - 3,
            h >= MIN_HEIGHT,
            cell_views(cells@) == c3 + side(w as int, j as int),
        decreases h - 3 - j,
    {
        let g = glyph(w, j + 2, '║');
        proof { lemma_push_view(cells@, g); }
        cells.push(g);
        assert(side(w as int, j + 1) =~= side(w as int, j as int).push(cell(w as int, j + 2, seq!['║'], Colour::Plain)));
        j += 1;
    }
    assert(cell_views(cells@) =~= grid(w, h));
    cells
}

fn text_cell(x: u16, y: u16, text: String, colour: Colour) -> (r: Cell)
    ensures
        r@ == cell(x as int, y as int, text@, colour),
{
    Cell { x, y, text, colour }
}

/// Draws the column headings and the separator beneath them.
pub fn print_headings(w: u16) -> (r: Vec<Cell>)
    requires
        w >= MIN_WIDTH,
    ensures
        cell_views(r@) == headings(w),
{
    let step: u16 = w / 4;
    let mut cells: Vec<Cell> = Vec::new();
    cells.push(text_cell(2, 2, String::from_str("Name"), Colour::Plain));
    cells.push(text_cell(step, 2, String::from_str("Created at"), Colour::Plain));
    cells.push(text_cell(step * 2, 2, String::from_str("Completed at"), Colour::Plain));
    cells.push(text_cell(step * 3, 2, String::from_str("State"), Colour::Plain));
    let ghost a = cell_views(cells@);
    assert(a =~= seq![
        cell(2, 2, "Name"@, Colour::Plain),
        cell(step as int, 2, "Created at"@, Colour::Plain),
        cell(2 * step, 2, "Completed at"@, Colour::Plain),
        cell(3 * step, 2, "State"@, Colour::Plain),
    ]);
    let mut i: u16 = 2;
    while i < w
        invariant
            2 <= i <= w,
            cell_views(cells@) == a + separator(i - 2),
        decreases w - i,
    {
        let g = glyph(i, 4, '┄');
        proof { lemma_push_view(cells@, g); }
        cells.push(g);
        assert(separator(i - 1) =~= separator(i - 2).push(cell(i as int, 4, seq!['┄'], Colour::Plain)));
        i += 1;
    }
    cells
}

/// Draws the visible tasks of `tasks` in the window of `v`.
pub fn print_tasks(tasks: &Vec<Task>, v: &Viewport) -> (r: Vec<Cell>)
    requires
        v.terminal_w >= MIN_WIDTH,
    ensures
        cell_views(r@) == rows_from(task_views(tasks@), *v, v.start as int, HEADING as int),
{
    let ghost tv = task_views(tasks@);
    let ghost all = rows_from(tv, *v, v.start as int, HEADING as int);
    let step: u16 = v.terminal_w / 4;
    let mut cells: Vec<Cell> = Vec::new();
    let mut y: u16 = HEADING;
    let mut i: usize = v.start;
    let mut done = false;
    assert(cell_views(cells@) =~= Seq::<CellV>::empty());
    while !done && i < v.end && i < tasks.len()
        invariant
            step == column_step(v.terminal_w),
            5 <= step <= 16383,
            tv == task_views(tasks@),
            HEADING <= y,
            y + 1 <= LAST_ROW,
            done ==> rows_from(tv, *v, i as int, y as int) == Seq::<CellV>::empty(),
            cell_views(cells@) + rows_from(tv, *v, i as int, y as int) == all,
        decreases v.end - i, if done { 0int } else { 1int },
    {
        let t = &tasks[i];
        let fs = wrap(t.name.as_str(), step);
        let room: usize = (LAST_ROW - 1 - y) as usize;
        if fs.len() > room {
            done = true;
        } else {
            let ghost before = cell_views(cells@);
            let colour = if i == v.cur_row { Colour::Blue } else { Colour::Plain };
            let line: u16 = y + 2;
            let c1 = text_cell(step, line, t.created_at.clone(), colour);
            proof { lemma_push_view(cells@, c1); }
            cells.push(c1);
            let c2 = text_cell(step * 2, line, t.completed_at.clone(), colour);
            proof { lemma_push_view(cells@, c2); }
            cells.push(c2);
            let c3 = text_cell(step * 3, line, t.state.label(), t.state.colour());
            proof { lemma_push_view(cells@, c3); }
            cells.push(c3);
            let ghost head = cell_views(cells@);
            let ghost fsv = texts(fs@);
            let mut j: usize = 0;
            while j < fs.len()
                invariant
                    j <= fs.len() <= room,
                    room == LAST_ROW - 1 - y,
                    line == y + 2,
                    fsv == texts(fs@),
                    cell_views(cells@) == head + name_lines(fsv, line as int, colour, j as int),
                decreases fs.len() - j,
            {
                let c = text_cell(2, line + j as u16, fs[j].clone(), colour);
                proof { lemma_push_view(cells@, c); }
                cells.push(c);
                assert(name_lines(fsv, line as int, colour, j + 1) =~= name_lines(fsv, line as int, colour, j as int).push(
                    cell(2, line + j, fsv[j as int], colour),
                ));
                j += 1;
            }
            assert(tv[i as int] == t@);
            assert(cell_views(cells@) =~= before + task_cells(tv[i as int], *v, i as int, line as int));
            y = y + fs.len() as u16;
            i += 1;
        }
    }
    assert(cell_views(cells@) =~= all);
    cells
}

/// Lays out the whole frame of session `s`.
pub fn print_tui(s: &Session) -> (r: Vec<Cell>)
    ensures
        cell_views(r@) == frame(s@),
{
    let w = s.viewport.terminal_w;
    let h = s.viewport.terminal_h;
    if w < MIN_WIDTH || h < MIN_HEIGHT {
        let r: Vec<Cell> = Vec::new();
        assert(cell_views(r@) =~= Seq::<CellV>::empty());
        return r;
    }
    let mut cells = draw_grid(w, h);
    let mut more = print_headings(w);
    proof { lemma_append_view(cells@, more@); }
    cells.append(&mut more);
    let mut rows = print_tasks(&s.tasks, &s.viewport);
    proof { lemma_append_view(cells@, rows@); }
    cells.append(&mut rows);
    let mut label = s.mode.name();
    label.push(':');
    let c1 = text_cell(1, h, label, Colour::Plain);
    proof { lemma_push_view(cells@, c1); }
    cells.push(c1);
    let c2 = text_cell(8, h, s.command_line.clone(), Colour::Plain);
    proof { lemma_push_view(cells@, c2); }
    cells.push(c2);
    assert(cell_views(cells@) =~= frame(s@));
    cells
}

} // verus!
