//! A terminal task list: the task store, the scrolling viewport, the wrapping of
//! long names, the modal key mapping, the command dispatcher and the frame layout.
//! Terminal I/O and persistence live outside this library.

pub mod input;
pub mod render;
pub mod session;
pub mod task;
pub mod text;
pub mod viewport;
pub mod wrap;

pub use input::{parse_key, Command, Key, Mode};
pub use render::{draw_grid, print_headings, print_tasks, print_tui, Cell, MIN_HEIGHT, MIN_WIDTH};
pub use session::{lemma_delete_sole_task, Action, Session, SessionV};
pub use task::{lemma_switch_three_times, Colour, State, Task, TaskV};
pub use text::{is_blank, minute_stamp, STAMP_LEN};
pub use viewport::{
    lemma_moves_keep_window, Viewport, BORDER, CMDLINE, HEADING, MAX_TASKS, RESERVED_ROWS,
    SCROLL_PADDING,
};
pub use wrap::{lemma_wrap_rejoins, wrap, WRAP_MARGIN};
