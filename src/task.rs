//! Tasks and their completion states.

use vstd::prelude::*;
use crate::text::{minute_stamp, prefix, STAMP_LEN};

verus! {

/// Where a task stands.
#[derive(Debug, Clone, Copy, PartialEq, Eq, Structural)]
pub enum State {
    Todo,
    Doing,
    Done,
}

/// Colours used when a frame is drawn.
#[derive(Debug, Clone, Copy, PartialEq, Eq, Structural)]
pub enum Colour {
    Plain,
    White,
    Yellow,
    Green,
    Blue,
}

/// The state that follows `s` in the cycle Todo, Doing, Done.
pub open spec fn next_state(s: State) -> State {
    match s {
        State::Todo => State::Doing,
        State::Doing => State::Done,
        State::Done => State::Todo,
    }
}

/// The completion time of a task in state `s` with completion time `c` after
/// one switch at time `now`.
pub open spec fn switched_completion(s: State, c: Seq<char>, now: Seq<char>) -> Seq<char> {
    match s {
        State::Todo => c,
        State::Doing => prefix(now, STAMP_LEN as int),
        State::Done => Seq::empty(),
    }
}

pub open spec fn state_colour(s: State) -> Colour {
    match s {
        State::Todo => Colour::White,
        State::Doing => Colour::Yellow,
        State::Done => Colour::Green,
    }
}

pub open spec fn state_label(s: State) -> Seq<char> {
    match s {
        State::Todo => seq!['T', 'o', 'd', 'o'],
        State::Doing => seq!['D', 'o', 'i', 'n', 'g'],
        State::Done => seq!['D', 'o', 'n', 'e'],
    }
}

impl State {
    /// The colour in which the state's label is drawn.
    pub fn colour(&self) -> (r: Colour)
        ensures
            r == state_colour(*self),
    {
        match self {
            State::Todo => Colour::White,
            State::Doing => Colour::Yellow,
            State::Done => Colour::Green,
        }
    }

    /// The state's name as shown and stored.
    pub fn label(&self) -> (r: String)
        ensures
            r@ == state_label(*self),
    {
        let r = match self {
            State::Todo => String::from_str("Todo"),
            State::Doing => String::from_str("Doing"),
            State::Done => String::from_str("Done"),
        };
        proof {
            reveal_strlit("Todo");
            reveal_strlit("Doing");
            reveal_strlit("Done");
            assert(r@ =~= state_label(*self));
        }
        r
    }
}

/// One entry of the list.
#[derive(Debug)]
pub struct Task {
    pub name: String,
    pub created_at: String,
    pub completed_at: String,
    pub state: State,
}

/// What a task holds, as character sequences.
pub struct TaskV {
    pub name: Seq<char>,
    pub created_at: Seq<char>,
    pub completed_at: Seq<char>,
    pub state: State,
}

impl View for Task {
    type V = TaskV;

    open spec fn view(&self) -> TaskV {
        TaskV {
            name: self.name@,
            created_at: self.created_at@,
            completed_at: self.completed_at@,
            state: self.state,
        }
    }
}

/// A task named `name`, created at `now` cut to the minute.
pub open spec fn fresh_task(name: Seq<char>, now: Seq<char>) -> TaskV {
    TaskV {
        name,
        created_at: prefix(now, STAMP_LEN as int),
        completed_at: Seq::empty(),
        state: State::Todo,
    }
}

/// The task `t` after one switch at time `now`.
pub open spec fn switched(t: TaskV, now: Seq<char>) -> TaskV {
    TaskV {
        state: next_state(t.state),
        completed_at: switched_completion(t.state, t.completed_at, now),
        ..t
    }
}

impl Task {
    /// A fresh task: `Todo`, not completed, created at `now` cut to the minute.
    pub fn new(name: String, now: &str) -> (r: Task)
        ensures
            r@ == fresh_task(name@, now@),
    {
        Task { name, created_at: minute_stamp(now), completed_at: String::new(), state: State::Todo }
    }

    /// Moves the task one step along the cycle Todo, Doing, Done. Entering Done
    /// stamps `completed_at` with `now` cut to the minute; leaving Done clears it.
    pub fn switch_state(&mut self, now: &str)
        ensures
            final(self)@ == switched(old(self)@, now@),
    {
        match self.state {
            State::Todo => {
                self.state = State::Doing;
            },
            State::Doing => {
                self.state = State::Done;
                self.completed_at = minute_stamp(now);
            },
            State::Done => {
                self.completed_at.clear();
                self.state = State::Todo;
            },
        }
    }
}

/// Switching a Todo task three times, at any times, brings it back to Todo with
/// an empty completion time, its name and creation time untouched.
pub proof fn lemma_switch_three_times(t: TaskV, t1: Seq<char>, t2: Seq<char>, t3: Seq<char>)
    requires
        t.state == State::Todo,
    ensures
        switched(switched(switched(t, t1), t2), t3).state == State::Todo,
        switched(switched(switched(t, t1), t2), t3).completed_at == Seq::<char>::empty(),
        switched(switched(switched(t, t1), t2), t3).name == t.name,
        switched(switched(switched(t, t1), t2), t3).created_at == t.created_at,
{
}

} // verus!
