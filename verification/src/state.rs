//! The timer's state: the mode, the duration last submitted, the text on
//! display, and the buffer and cursor of the input box.

use crate::codec::{parse_chars, parse_spec, MAX_DURATION};
use vstd::prelude::*;

verus! {

/// What the keys mean: commands in `Normal`, input to the buffer in `Editing`.
#[derive(Clone, Copy, Debug, PartialEq, Eq, Structural)]
pub enum Mode {
    Normal,
    Editing,
}

/// The state of the timer. Wherever a value of this type exists, the cursor
/// lies within the buffer and the configured duration is one that parses:
/// `well_formed` is the type's invariant.
pub struct TimerState {
    mode: Mode,
    configured_duration: u64,
    display_string: String,
    buffer: Vec<char>,
    cursor: usize,
    pending_reset: bool,
}

/// The mathematical model of a `TimerState`.
#[verifier::ext_equal]
pub struct TimerView {
    pub mode: Mode,
    /// The duration last submitted, in seconds.
    pub configured_duration: nat,
    /// The remaining time as it is shown.
    pub display_string: Seq<char>,
    /// The characters typed so far.
    pub buffer: Seq<char>,
    /// The index in `buffer` before which the next character goes.
    pub cursor: nat,
    /// Whether the countdown is to start again from `configured_duration`.
    pub pending_reset: bool,
}

/// One operation on the buffer and its cursor.
pub enum EditOp {
    Insert(char),
    Delete,
    Left,
    Right,
}

impl TimerView {
    /// The cursor lies within the buffer, `0 <= cursor <= buffer.len()`, and
    /// the configured duration is at most `MAX_DURATION`.
    pub open spec fn wf(self) -> bool {
        &&& self.cursor <= self.buffer.len()
        &&& self.configured_duration <= MAX_DURATION
    }

    /// The state at startup.
    pub open spec fn initial() -> TimerView {
        TimerView {
            mode: Mode::Normal,
            configured_duration: 0,
            display_string: "00:00"@,
            buffer: Seq::empty(),
            cursor: 0,
            pending_reset: false,
        }
    }

    /// The position nearest to `pos` that lies within the buffer.
    pub open spec fn clamp_cursor(self, pos: int) -> nat {
        if pos < 0 {
            0
        } else if pos > self.buffer.len() {
            self.buffer.len()
        } else {
            pos as nat
        }
    }

    pub open spec fn on_tick(self, remain: Seq<char>) -> TimerView {
        TimerView { display_string: remain, ..self }
    }

    /// The character goes in at the cursor, and the cursor moves past it.
    pub open spec fn enter_char(self, c: char) -> TimerView {
        TimerView { buffer: self.buffer.insert(self.cursor as int, c), cursor: self.cursor + 1, ..self }
    }

    /// The character left of the cursor goes, and the cursor moves back by
    /// one. With the cursor at the start nothing changes.
    pub open spec fn delete_char(self) -> TimerView {
        if self.cursor == 0 {
            self
        } else {
            TimerView {
                buffer: self.buffer.remove(self.cursor - 1),
                cursor: (self.cursor - 1) as nat,
                ..self
            }
        }
    }

    pub open spec fn move_cursor_left(self) -> TimerView {
        TimerView { cursor: self.clamp_cursor(self.cursor as int - 1), ..self }
    }

    pub open spec fn move_cursor_right(self) -> TimerView {
        TimerView { cursor: self.clamp_cursor(self.cursor as int + 1), ..self }
    }

    /// Editing starts on an empty buffer.
    pub open spec fn enter_edit(self) -> TimerView {
        TimerView { mode: Mode::Editing, buffer: Seq::empty(), cursor: 0, ..self }
    }

    /// Editing is given up: the buffer is dropped, the duration stays.
    pub open spec fn exit_edit(self) -> TimerView {
        TimerView { mode: Mode::Normal, buffer: Seq::empty(), cursor: 0, ..self }
    }

    /// A buffer that parses becomes the configured duration, and the state
    /// goes back to `Normal` with a reset pending. One that does not parse
    /// changes nothing.
    pub open spec fn submit_time(self) -> TimerView {
        match parse_spec(self.buffer) {
            Some(secs) => TimerView {
                mode: Mode::Normal,
                configured_duration: secs,
                buffer: Seq::empty(),
                cursor: 0,
                pending_reset: true,
                ..self
            },
            None => self,
        }
    }

    pub open spec fn reset(self) -> TimerView {
        TimerView { pending_reset: true, ..self }
    }

    pub open spec fn stop(self) -> TimerView {
        TimerView {
            configured_duration: 0,
            display_string: "00:00"@,
            pending_reset: true,
            ..self
        }
    }

    /// The state after one operation on the buffer.
    pub open spec fn edit(self, op: EditOp) -> TimerView {
        match op {
            EditOp::Insert(c) => self.enter_char(c),
            EditOp::Delete => self.delete_char(),
            EditOp::Left => self.move_cursor_left(),
            EditOp::Right => self.move_cursor_right(),
        }
    }

    /// The state after the operations `ops`, first to last.
    pub open spec fn edit_all(self, ops: Seq<EditOp>) -> TimerView
        decreases ops.len(),
    {
        if ops.len() == 0 {
            self
        } else {
            self.edit_all(ops.drop_last()).edit(ops.last())
        }
    }
}

impl View for TimerState {
    type V = TimerView;

    closed spec fn view(&self) -> TimerView {
        TimerView {
            mode: self.mode,
            configured_duration: self.configured_duration as nat,
            display_string: self.display_string@,
            buffer: self.buffer@,
            cursor: self.cursor as nat,
            pending_reset: self.pending_reset,
        }
    }
}

impl TimerState {
    /// Holds of every value of the type: its model is well-formed.
    #[verifier::type_invariant]
    pub open spec fn well_formed(&self) -> bool {
        self@.wf()
    }

    /// The state at startup: `Normal`, no duration, `00:00` on display, an
    /// empty buffer.
    pub fn new() -> (state: TimerState)
        ensures
            state@ == TimerView::initial(),
            state@.wf(),
    {
        TimerState {
            mode: Mode::Normal,
            configured_duration: 0,
            display_string: "00:00".to_owned(),
            buffer: Vec::new(),
            cursor: 0,
            pending_reset: false,
        }
    }

    /// Puts a new remaining-time text on display, as it is given.
    pub fn on_tick(&mut self, remain: String)
        ensures
            final(self)@ == old(self)@.on_tick(remain@),
            final(self)@.wf(),
    {
        proof {
            use_type_invariant(&*self);
        }
        self.display_string = remain;
    }

    /// Takes the characters out of the buffer, which is left empty with the
    /// cursor at its start, and returns them with the cursor's position.
    fn take_buffer(&mut self) -> (taken: (Vec<char>, usize))
        ensures
            taken.0@ == old(self)@.buffer,
            taken.1 == old(self)@.cursor,
            taken.1 <= taken.0@.len(),
            final(self)@ == (TimerView { buffer: Seq::empty(), cursor: 0, ..old(self)@ }),
    {
        proof {
            use_type_invariant(&*self);
        }
        let cursor = self.cursor;
        self.cursor = 0;
        let mut chars: Vec<char> = Vec::new();
        std::mem::swap(&mut chars, &mut self.buffer);
        (chars, cursor)
    }

    /// Inserts `new_char` at the cursor and moves the cursor past it.
    pub fn enter_char(&mut self, new_char: char)
        ensures
            final(self)@ == old(self)@.enter_char(new_char),
            final(self)@.wf(),
    {
        proof {
            use_type_invariant(&*self);
        }
        let (mut chars, cursor) = self.take_buffer();
        chars.insert(cursor, new_char);
        assert(chars@.len() == chars.len());
        self.buffer = chars;
        self.cursor = cursor + 1;
    }

    /// Submits the buffer as the new duration. If it parses, the duration is
    /// set, the buffer cleared, a reset asked for and the mode `Normal` again.
    /// If it does not, nothing changes: the buffer stays to be corrected.
    pub fn submit_time(&mut self)
        ensures
            final(self)@ == old(self)@.submit_time(),
            parse_spec(old(self)@.buffer) is None ==> final(self)@ == old(self)@,
            parse_spec(old(self)@.buffer) matches Some(secs) ==> {
                &&& final(self)@.mode == Mode::Normal
                &&& final(self)@.configured_duration == secs
                &&& final(self)@.buffer.len() == 0
                &&& final(self)@.cursor == 0
                &&& final(self)@.pending_reset
                &&& final(self)@.display_string == old(self)@.display_string
            },
            final(self)@.wf(),
    {
        proof {
            use_type_invariant(&*self);
        }
        let duration = parse_chars(self.buffer.as_slice());
        match duration {
            Some(value) => {
                self.configured_duration = value;
                self.reset_cursor();
                self.buffer = Vec::new();
                self.pending_reset = true;
                self.mode = Mode::Normal;
            },
            None => {},
        }
    }

    /// Removes the character left of the cursor, if there is one, and moves
    /// the cursor back by one.
    pub fn delete_char(&mut self)
        ensures
            final(self)@ == old(self)@.delete_char(),
            final(self)@.wf(),
    {
        proof {
            use_type_invariant(&*self);
        }
        let is_not_cursor_leftmost = self.cursor != 0;
        if is_not_cursor_leftmost {
            let (mut chars, cursor) = self.take_buffer();
            chars.remove(cursor - 1);
            self.buffer = chars;
            self.cursor = cursor - 1;
        }
    }

    /// The position nearest to `new_cursor_pos` that lies within the buffer.
    pub fn clamp_cursor(&self, new_cursor_pos: usize) -> (pos: usize)
        ensures
            pos == self@.clamp_cursor(new_cursor_pos as int),
            pos <= self@.buffer.len(),
    {
        let len = self.buffer.len();
        if new_cursor_pos > len {
            len
        } else {
            new_cursor_pos
        }
    }

    /// Moves the cursor one character to the left, unless it is at the start.
    pub fn move_cursor_left(&mut self)
        ensures
            final(self)@ == old(self)@.move_cursor_left(),
            final(self)@.wf(),
    {
        proof {
            use_type_invariant(&*self);
        }
        let cursor_moved_left = self.cursor.saturating_sub(1);
        self.cursor = self.clamp_cursor(cursor_moved_left);
    }

    /// Moves the cursor one character to the right, unless it is at the end.
    pub fn move_cursor_right(&mut self)
        ensures
            final(self)@ == old(self)@.move_cursor_right(),
            final(self)@.wf(),
    {
        proof {
            use_type_invariant(&*self);
            assert(self.buffer@.len() == self.buffer.len());
        }
        let cursor_moved_right = self.cursor.saturating_add(1);
        self.cursor = self.clamp_cursor(cursor_moved_right);
    }

    /// Puts the cursor at the start of the buffer.
    pub fn reset_cursor(&mut self)
        ensures
            final(self)@ == (TimerView { cursor: 0, ..old(self)@ }),
            final(self)@.wf(),
    {
        proof {
            use_type_invariant(&*self);
        }
        self.cursor = 0;
    }

    /// Starts editing, on an empty buffer.
    pub fn enter_edit(&mut self)
        ensures
            final(self)@ == old(self)@.enter_edit(),
            final(self)@.wf(),
    {
        proof {
            use_type_invariant(&*self);
        }
        self.mode = Mode::Editing;
        self.reset_cursor();
        self.buffer = Vec::new();
    }

    /// Gives up editing: back to `Normal` with the buffer cleared and the
    /// configured duration as it was.
    pub fn exit_edit(&mut self)
        ensures
            final(self)@ == old(self)@.exit_edit(),
            final(self)@.wf(),
    {
        proof {
            use_type_invariant(&*self);
        }
        self.mode = Mode::Normal;
        self.reset_cursor();
        self.buffer = Vec::new();
    }

    /// Asks for the countdown to start again from the configured duration.
    pub fn reset(&mut self)
        ensures
            final(self)@ == old(self)@.reset(),
            final(self)@.wf(),
    {
        proof {
            use_type_invariant(&*self);
        }
        self.pending_reset = true;
    }

    /// If a reset is pending, clears the flag and returns the configured
    /// duration, from which the countdown is to start again. Otherwise returns
    /// `None` and changes nothing.
    pub fn take_pending_reset(&mut self) -> (target: Option<u64>)
        ensures
            old(self)@.pending_reset ==> target == Some(old(self)@.configured_duration as u64)
                && final(self)@ == (TimerView { pending_reset: false, ..old(self)@ }),
            !old(self)@.pending_reset ==> target is None && final(self)@ == old(self)@,
            target matches Some(secs) ==> secs <= MAX_DURATION,
            final(self)@.wf(),
    {
        proof {
            use_type_invariant(&*self);
        }
        if self.pending_reset {
            self.pending_reset = false;
            Some(self.configured_duration)
        } else {
            None
        }
    }

    /// Clears the timer: no duration, `00:00` on display, and a reset asked
    /// for, whatever the state was.
    pub fn stop(&mut self)
        ensures
            final(self)@ == old(self)@.stop(),
            final(self)@.configured_duration == 0,
            final(self)@.display_string == "00:00"@,
            final(self)@.pending_reset,
            final(self)@.wf(),
    {
        proof {
            use_type_invariant(&*self);
        }
        self.configured_duration = 0;
        self.display_string = "00:00".to_owned();
        self.pending_reset = true;
    }
}

impl TimerState {
    pub fn mode(&self) -> (mode: Mode)
        ensures
            mode == self@.mode,
    {
        self.mode
    }

    /// The duration last submitted, in seconds.
    pub fn configured_duration(&self) -> (secs: u64)
        ensures
            secs == self@.configured_duration,
            secs <= MAX_DURATION,
    {
        proof {
            use_type_invariant(self);
        }
        self.configured_duration
    }

    /// The remaining time as it is to be shown.
    pub fn display_string(&self) -> (text: &str)
        ensures
            text@ == self@.display_string,
    {
        self.display_string.as_str()
    }

    pub fn pending_reset(&self) -> (pending: bool)
        ensures
            pending == self@.pending_reset,
    {
        self.pending_reset
    }

    /// The cursor's position, which lies within the buffer.
    pub fn cursor_position(&self) -> (pos: usize)
        ensures
            pos == self@.cursor,
            pos <= self@.buffer.len(),
            self@.wf(),
    {
        proof {
            use_type_invariant(self);
        }
        self.cursor
    }

    /// The characters typed so far, as one string.
    pub fn input_str(&self) -> (text: String)
        ensures
            text@ == self@.buffer,
    {
        let mut text = String::new();
        let n: usize = self.buffer.len();
        let mut i: usize = 0;
        while i < n
            invariant
                i <= n,
                n == self.buffer@.len(),
                text@ == self.buffer@.subrange(0, i as int),
            decreases n - i,
        {
            text.push(self.buffer[i]);
            i += 1;
        }
        assert(text@ == self.buffer@);
        text
    }
}

/// Every operation on the buffer keeps the cursor within it, and leaves the
/// configured duration alone.
pub proof fn lemma_edit_keeps_cursor_in_buffer(state: TimerView, op: EditOp)
    requires
        state.wf(),
    ensures
        state.edit(op).wf(),
{
}

/// Inserting, deleting and moving the cursor left or right, in any order and
/// any number of times, lead from a well-formed state to a well-formed one:
/// the cursor stays within the buffer.
pub proof fn lemma_edits_keep_cursor_in_buffer(state: TimerView, ops: Seq<EditOp>)
    requires
        state.wf(),
    ensures
        state.edit_all(ops).wf(),
    decreases ops.len(),
{
    if ops.len() > 0 {
        lemma_edits_keep_cursor_in_buffer(state, ops.drop_last());
        lemma_edit_keeps_cursor_in_buffer(state.edit_all(ops.drop_last()), ops.last());
    }
}

/// Starting from the empty buffer of the initial state, the cursor is within
/// the buffer after any sequence of operations on it.
pub proof fn lemma_cursor_in_buffer_from_start(ops: Seq<EditOp>)
    ensures
        TimerView::initial().buffer.len() == 0,
        TimerView::initial().edit_all(ops).wf(),
{
    lemma_edits_keep_cursor_in_buffer(TimerView::initial(), ops);
}

} // verus!
