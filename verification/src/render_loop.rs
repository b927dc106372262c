//! The render loop's decisions: how long to wait for input, when the
//! countdown starts again, what a key does in each mode, and what a tick puts
//! on display. Time comes in as readings of a monotonic clock, in nanoseconds;
//! the caller reads the clock, waits for input and draws.

use crate::codec::{format_spec, remain_to_fmt};
use crate::state::{Mode, TimerState, TimerView};
use vstd::prelude::*;

verus! {

pub const NANOS_PER_SEC: u64 = 1_000_000_000;

/// A key as the timer tells keys apart.
#[derive(Clone, Copy, Debug, PartialEq, Eq, Structural)]
pub enum Key {
    Char(char),
    Enter,
    Backspace,
    Left,
    Right,
    Esc,
    Other,
}

/// What the input source delivered: a key press, or something the timer
/// ignores.
#[derive(Clone, Copy, Debug, PartialEq, Eq, Structural)]
pub enum InputEvent {
    KeyPress(Key),
    Other,
}

/// Whether the loop goes on after an event.
#[derive(Clone, Copy, Debug, PartialEq, Eq, Structural)]
pub enum Flow {
    Continue,
    Quit,
}

/// The state after `key` was pressed. In `Editing` the keys work on the
/// buffer; in `Normal` the letters `e`, `r` and `s` are commands. A key with
/// no meaning in the mode changes nothing.
pub open spec fn key_effect(state: TimerView, key: Key) -> TimerView {
    match state.mode {
        Mode::Editing => match key {
            Key::Enter => state.submit_time(),
            Key::Char(c) => state.enter_char(c),
            Key::Backspace => state.delete_char(),
            Key::Left => state.move_cursor_left(),
            Key::Right => state.move_cursor_right(),
            Key::Esc => state.exit_edit(),
            Key::Other => state,
        },
        Mode::Normal => if key == Key::Char('e') {
            state.enter_edit()
        } else if key == Key::Char('r') {
            state.reset()
        } else if key == Key::Char('s') {
            state.stop()
        } else {
            state
        },
    }
}

/// `key` ends the loop: it is `q`, pressed in `Normal`.
pub open spec fn key_quits(state: TimerView, key: Key) -> bool {
    state.mode == Mode::Normal && key == Key::Char('q')
}

/// The state after `event`.
pub open spec fn event_effect(state: TimerView, event: InputEvent) -> TimerView {
    match event {
        InputEvent::KeyPress(key) => key_effect(state, key),
        InputEvent::Other => state,
    }
}

/// `event` ends the loop.
pub open spec fn event_quits(state: TimerView, event: InputEvent) -> bool {
    match event {
        InputEvent::KeyPress(key) => key_quits(state, key),
        InputEvent::Other => false,
    }
}

/// The state after the key presses `keys`, first to last.
pub open spec fn keys_effect(state: TimerView, keys: Seq<Key>) -> TimerView
    decreases keys.len(),
{
    if keys.len() == 0 {
        state
    } else {
        key_effect(keys_effect(state, keys.drop_last()), keys.last())
    }
}

/// Hands a key press to the timer according to its mode, and says whether the
/// loop goes on.
pub fn dispatch_key(app: &mut TimerState, key: Key) -> (flow: Flow)
    ensures
        final(app)@ == key_effect(old(app)@, key),
        flow == Flow::Quit <==> key_quits(old(app)@, key),
        final(app)@.wf(),
{
    proof {
        use_type_invariant(&*app);
    }
    match app.mode() {
        Mode::Editing => {
            match key {
                Key::Enter => app.submit_time(),
                Key::Char(to_insert) => app.enter_char(to_insert),
                Key::Backspace => app.delete_char(),
                Key::Left => app.move_cursor_left(),
                Key::Right => app.move_cursor_right(),
                Key::Esc => app.exit_edit(),
                Key::Other => {},
            }
            Flow::Continue
        },
        Mode::Normal => {
            match key {
                Key::Char(command) => {
                    if command == 'e' {
                        app.enter_edit();
                    } else if command == 'r' {
                        app.reset();
                    } else if command == 's' {
                        app.stop();
                    } else if command == 'q' {
                        return Flow::Quit;
                    }
                },
                _ => {},
            }
            Flow::Continue
        },
    }
}

/// Hands an event to the timer: a key press goes to `dispatch_key`, anything
/// else is ignored.
pub fn dispatch(app: &mut TimerState, event: InputEvent) -> (flow: Flow)
    ensures
        final(app)@ == event_effect(old(app)@, event),
        flow == Flow::Quit <==> event_quits(old(app)@, event),
        final(app)@.wf(),
{
    match event {
        InputEvent::KeyPress(key) => dispatch_key(app, key),
        InputEvent::Other => {
            proof {
                use_type_invariant(&*app);
            }
            Flow::Continue
        },
    }
}

/// The time from the reading `then` to the reading `now`, and zero if `now`
/// is the earlier one.
pub open spec fn elapsed_between(then: u64, now: u64) -> nat {
    if now >= then {
        (now - then) as nat
    } else {
        0
    }
}

/// The whole seconds left of `target` seconds once `elapsed` nanoseconds have
/// passed, for a countdown that has not run out.
pub open spec fn remaining_secs(target: nat, elapsed: nat) -> nat
    recommends
        elapsed <= target * NANOS_PER_SEC,
{
    ((target * NANOS_PER_SEC - elapsed) / (NANOS_PER_SEC as int)) as nat
}

/// The schedule of the loop: the tick interval, the clock reading at the last
/// tick, and the countdown in progress, which is the reading at which it
/// started and the seconds it counts down from. With a target of zero the
/// timer is idle.
#[derive(Clone, Copy, Debug, PartialEq, Eq, Structural)]
pub struct RenderLoop {
    /// The interval between two ticks, in nanoseconds.
    pub tick_rate: u64,
    /// The clock reading at the last tick.
    pub last_tick: u64,
    /// The clock reading at which the countdown started.
    pub start: u64,
    /// The seconds that the countdown started from.
    pub target: u64,
}

impl RenderLoop {
    /// A tick is due at `now`: the interval has passed since the last one.
    pub open spec fn tick_due(self, now: u64) -> bool {
        elapsed_between(self.last_tick, now) >= self.tick_rate
    }

    /// The countdown has run out at `now`: the time since its start meets or
    /// exceeds the target.
    pub open spec fn expired(self, now: u64) -> bool {
        elapsed_between(self.start, now) >= self.target * NANOS_PER_SEC
    }

    /// The time left at `now` until the next tick is due, and zero once it is
    /// due.
    pub open spec fn wait_budget_spec(self, now: u64) -> nat {
        if self.tick_due(now) {
            0
        } else {
            (self.tick_rate - elapsed_between(self.last_tick, now)) as nat
        }
    }

    /// The schedule after the reset that `state` may have pending was carried
    /// out at `now`: the countdown starts at `now` from the configured
    /// duration. With no reset pending the schedule stays.
    pub open spec fn rearm_spec(self, state: TimerView, now: u64) -> RenderLoop {
        if state.pending_reset {
            RenderLoop { start: now, target: state.configured_duration as u64, ..self }
        } else {
            self
        }
    }

    /// The schedule after the tick check at `now`. A tick that is due moves
    /// the tick boundary to `now`; if the countdown has run out by then, it
    /// starts again at `now` from the same target.
    pub open spec fn tick_spec(self, now: u64) -> RenderLoop {
        if !self.tick_due(now) {
            self
        } else if self.target != 0 && self.expired(now) {
            RenderLoop { last_tick: now, start: now, ..self }
        } else {
            RenderLoop { last_tick: now, ..self }
        }
    }

    /// The seconds that the tick check at `now` puts on display: none if no
    /// tick is due or the timer is idle, the full target if the countdown has
    /// run out and starts again, and else the whole seconds that are left.
    pub open spec fn tick_remaining(self, now: u64) -> Option<nat> {
        if !self.tick_due(now) || self.target == 0 {
            None
        } else if self.expired(now) {
            Some(self.target as nat)
        } else {
            Some(remaining_secs(self.target as nat, elapsed_between(self.start, now)))
        }
    }

    /// The timer's state after the tick check at `now`.
    pub open spec fn tick_effect(self, state: TimerView, now: u64) -> TimerView {
        match self.tick_remaining(now) {
            Some(secs) => state.on_tick(format_spec(secs)),
            None => state,
        }
    }

    /// The schedule with which the loop starts at `now`: the tick boundary at
    /// `now`, and no countdown.
    pub fn new(tick_rate: u64, now: u64) -> (schedule: RenderLoop)
        ensures
            schedule == (RenderLoop { tick_rate, last_tick: now, start: now, target: 0 }),
    {
        RenderLoop { tick_rate, last_tick: now, start: now, target: 0 }
    }

    /// How long the loop may wait for input at `now`: the tick interval less
    /// the time since the last tick, and never less than zero.
    pub fn wait_budget(&self, now: u64) -> (budget: u64)
        ensures
            budget == self.wait_budget_spec(now),
            budget <= self.tick_rate,
    {
        let since_tick: u64 = now.saturating_sub(self.last_tick);
        self.tick_rate.saturating_sub(since_tick)
    }

    /// Carries out a pending reset: clears the flag, and starts the countdown
    /// at `now` from the configured duration. This and the running out of the
    /// countdown are all that move its start.
    pub fn rearm(&mut self, app: &mut TimerState, now: u64)
        ensures
            *final(self) == old(self).rearm_spec(old(app)@, now),
            final(app)@ == (TimerView { pending_reset: false, ..old(app)@ }),
            final(app)@.wf(),
    {
        match app.take_pending_reset() {
            Some(target) => {
                self.target = target;
                self.start = now;
            },
            None => {},
        }
    }

    /// The tick check at `now`. If the interval has passed since the last
    /// tick, the tick boundary moves to `now`, and unless the timer is idle
    /// the remaining time goes on display; a countdown that has run out
    /// starts again from its target.
    pub fn tick(&mut self, app: &mut TimerState, now: u64)
        ensures
            *final(self) == old(self).tick_spec(now),
            final(app)@ == old(self).tick_effect(old(app)@, now),
            final(app)@.wf(),
    {
        proof {
            use_type_invariant(&*app);
        }
        if now.saturating_sub(self.last_tick) >= self.tick_rate {
            self.last_tick = now;
            if self.target == 0 {
                return;
            }
            let mut elapsed: u64 = now.saturating_sub(self.start);
            if elapsed / NANOS_PER_SEC >= self.target {
                self.start = now;
                elapsed = 0;
            }
            let whole: u64 = elapsed / NANOS_PER_SEC;
            let part: u64 = elapsed % NANOS_PER_SEC;
            let remain: u64 = if part == 0 {
                self.target - whole
            } else {
                self.target - whole - 1
            };
            let time_str = remain_to_fmt(remain);
            app.on_tick(time_str);
        }
    }

    /// The first half of a pass, before the wait for input: carries out a
    /// pending reset and returns how long the loop may wait.
    pub fn begin_pass(&mut self, app: &mut TimerState, now: u64) -> (budget: u64)
        ensures
            budget == old(self).wait_budget_spec(now),
            *final(self) == old(self).rearm_spec(old(app)@, now),
            final(app)@ == (TimerView { pending_reset: false, ..old(app)@ }),
            final(app)@.wf(),
    {
        let budget = self.wait_budget(now);
        self.rearm(app, now);
        budget
    }

    /// The second half of a pass, after the wait for input: hands the event
    /// that arrived, if one did, to the timer, and then makes the tick check
    /// at `now`. An event that ends the loop does so at once, before the tick
    /// check.
    pub fn end_pass(&mut self, app: &mut TimerState, event: Option<InputEvent>, now: u64) -> (flow:
        Flow)
        ensures
            flow == Flow::Quit <==> (event matches Some(e) && event_quits(old(app)@, e)),
            flow == Flow::Quit ==> *final(self) == *old(self) && final(app)@ == old(app)@,
            flow == Flow::Continue ==> {
                let after_event = match event {
                    Some(e) => event_effect(old(app)@, e),
                    None => old(app)@,
                };
                &&& *final(self) == old(self).tick_spec(now)
                &&& final(app)@ == old(self).tick_effect(after_event, now)
            },
            final(app)@.wf(),
    {
        match event {
            Some(e) => {
                match dispatch(app, e) {
                    Flow::Quit => {
                        return Flow::Quit;
                    },
                    Flow::Continue => {},
                }
            },
            None => {},
        }
        self.tick(app, now);
        Flow::Continue
    }
}

/// What a tick puts on display never exceeds the target of the countdown,
/// and is the target itself when the countdown has just run out or no time
/// has passed since its start.
pub proof fn lemma_tick_remaining_bounds(schedule: RenderLoop, now: u64)
    ensures
        schedule.tick_remaining(now) matches Some(secs) ==> {
            &&& secs <= schedule.target
            &&& schedule.expired(now) ==> secs == schedule.target
            &&& elapsed_between(schedule.start, now) == 0 ==> secs == schedule.target
            &&& !schedule.expired(now) && elapsed_between(schedule.start, now) > 0 ==> secs
                < schedule.target
        },
{
}

/// A key press in either mode leads from a well-formed state to a well-formed
/// one: the cursor stays within the buffer, and the configured duration at
/// most `MAX_DURATION`.
pub proof fn lemma_key_keeps_cursor_in_buffer(state: TimerView, key: Key)
    requires
        state.wf(),
    ensures
        key_effect(state, key).wf(),
{
}

/// Every state that key presses lead to from the initial one is well-formed.
pub proof fn lemma_keys_keep_cursor_in_buffer(keys: Seq<Key>)
    ensures
        keys_effect(TimerView::initial(), keys).wf(),
    decreases keys.len(),
{
    if keys.len() > 0 {
        lemma_keys_keep_cursor_in_buffer(keys.drop_last());
        lemma_key_keeps_cursor_in_buffer(
            keys_effect(TimerView::initial(), keys.drop_last()),
            keys.last(),
        );
    }
}

} // verus!
