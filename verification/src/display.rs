//! The display loop as a state machine: it is told what happened and says
//! what to do next. Drawing, waiting for input, reading the clock and
//! drawing a random sample are left to the caller.

use crate::sample::{in_range, Sample};
use crate::window::{SampleWindow, WindowModel};
use vstd::prelude::*;

verus! {

/// The character whose key ends the loop.
pub const QUIT_KEY: char = 'q';

/// The tick interval of the chart in nanoseconds: 250 ms.
pub const TICK_INTERVAL: u128 = 250_000_000;

/// What a wait for input brought.
#[derive(Clone, Copy, Debug, PartialEq, Eq)]
pub enum Input {
    /// A key event for a character.
    Char(char),
    /// Any other event: another key, the mouse, a resize.
    Other,
    /// Nothing before the time ran out.
    TimedOut,
}

/// What the loop asks its caller to do next.
#[derive(Clone, Copy, Debug, PartialEq, Eq)]
pub enum Action {
    /// Draw the window, then report `Event::Rendered`.
    Render,
    /// Wait for input for at most `timeout` nanoseconds, then report
    /// `Event::Polled`.
    Poll { timeout: u128 },
    /// Draw a random sample, then report `Event::Sampled`.
    Sample,
    /// Leave the loop: the quit key was pressed.
    Quit,
}

/// What the caller reports back. Each `now` is a reading of one monotonic
/// clock, in nanoseconds, taken when the work was done.
#[derive(Clone, Copy, Debug, PartialEq, Eq)]
pub enum Event {
    /// The window was drawn.
    Rendered { now: u128 },
    /// The wait for input ended.
    Polled { input: Input, now: u128 },
    /// A sample was drawn.
    Sampled { sample: Sample, now: u128 },
}

/// The time from `last_tick` to `now`, zero if the clock reads earlier.
pub open spec fn elapsed(last_tick: u128, now: u128) -> u128 {
    if now >= last_tick {
        (now - last_tick) as u128
    } else {
        0
    }
}

/// The time until the next tick is due: the interval less the time elapsed,
/// floored at zero.
pub open spec fn time_left(tick_interval: u128, elapsed: u128) -> u128 {
    if elapsed >= tick_interval {
        0
    } else {
        (tick_interval - elapsed) as u128
    }
}

/// Whether a tick is due: the time elapsed has reached the interval.
pub open spec fn tick_due(tick_interval: u128, elapsed: u128) -> bool {
    elapsed >= tick_interval
}

/// The state of the loop.
pub struct LoopModel {
    /// The window on display.
    pub window: WindowModel,
    /// The time between two ticks.
    pub tick_interval: u128,
    /// The clock reading at the last tick.
    pub last_tick: u128,
    /// What the caller was last asked to do.
    pub pending: Action,
}

impl LoopModel {
    /// The loop at its start: the first tick counts from `now`, and the
    /// window is to be drawn.
    pub open spec fn start(window: WindowModel, tick_interval: u128, now: u128) -> LoopModel {
        LoopModel { window, tick_interval, last_tick: now, pending: Action::Render }
    }

    /// Whether the loop has ended.
    pub open spec fn terminated(self) -> bool {
        self.pending is Quit
    }

    /// The state after `event`.
    ///
    /// After drawing, wait for input until the next tick is due. After the
    /// wait, quit on the quit key; otherwise ask for a sample if a tick is
    /// due, and draw again if not. With the sample, advance the window,
    /// count the next tick from `now`, and draw again. An event that does
    /// not answer the pending action changes nothing.
    pub open spec fn next(self, event: Event) -> LoopModel {
        match (self.pending, event) {
            (Action::Render, Event::Rendered { now }) => LoopModel {
                pending: Action::Poll {
                    timeout: time_left(self.tick_interval, elapsed(self.last_tick, now)),
                },
                ..self
            },
            (Action::Poll { .. }, Event::Polled { input, now }) => LoopModel {
                pending: if input == Input::Char(QUIT_KEY) {
                    Action::Quit
                } else if tick_due(self.tick_interval, elapsed(self.last_tick, now)) {
                    Action::Sample
                } else {
                    Action::Render
                },
                ..self
            },
            (Action::Sample, Event::Sampled { sample, now }) => LoopModel {
                window: self.window.advance(sample@),
                last_tick: now,
                pending: Action::Render,
                ..self
            },
            _ => self,
        }
    }

    /// The state after each of `events`, in order.
    pub open spec fn run(self, events: Seq<Event>) -> LoopModel
        decreases events.len(),
    {
        if events.len() == 0 {
            self
        } else {
            self.run(events.drop_last()).next(events.last())
        }
    }

    /// The invariant of the loop: a well-formed window, and no wait longer
    /// than the tick interval.
    pub open spec fn wf(self) -> bool {
        &&& self.window.wf()
        &&& self.pending matches Action::Poll { timeout } ==> timeout <= self.tick_interval
    }
}

/// Whether `event` reports the work that `action` asked for.
pub open spec fn answers(event: Event, action: Action) -> bool {
    match (action, event) {
        (Action::Render, Event::Rendered { .. }) => true,
        (Action::Poll { .. }, Event::Polled { .. }) => true,
        (Action::Sample, Event::Sampled { .. }) => true,
        _ => false,
    }
}

/// Every step keeps the invariant, as long as a reported sample is in range
/// (as every `Sample` that a program holds is). So no wait that the loop
/// ever asks for is longer than the tick interval.
pub proof fn lemma_next_wf(state: LoopModel, event: Event)
    requires
        state.wf(),
        event matches Event::Sampled { sample, .. } ==> in_range(sample@),
    ensures
        state.next(event).wf(),
        state.next(event).tick_interval == state.tick_interval,
{
}

/// Whatever is reported and in whatever order, the loop keeps its invariant
/// and its tick interval, as long as the reported samples are in range; and
/// a loop that has ended stays as it is.
pub proof fn lemma_run_wf(state: LoopModel, events: Seq<Event>)
    requires
        state.wf(),
        forall|i: int|
            0 <= i < events.len() ==> (#[trigger] events[i] matches Event::Sampled { sample, .. }
                ==> in_range(sample@)),
    ensures
        state.run(events).wf(),
        state.run(events).tick_interval == state.tick_interval,
        state.terminated() ==> state.run(events) == state,
    decreases events.len(),
{
    if events.len() > 0 {
        lemma_run_wf(state, events.drop_last());
        lemma_next_wf(state.run(events.drop_last()), events.last());
    }
}

/// The quit key ends the loop whenever a wait for input reports it,
/// whatever the clock reads and whether or not a tick is due.
pub proof fn lemma_quit_key_terminates(state: LoopModel, now: u128)
    requires
        state.pending is Poll,
    ensures
        state.next(Event::Polled { input: Input::Char(QUIT_KEY), now }).terminated(),
{
}

/// Nothing but the quit key ends the loop, and nothing changes the state
/// once it has ended.
pub proof fn lemma_only_quit_key_terminates(state: LoopModel, event: Event)
    ensures
        !state.terminated() && state.next(event).terminated() ==> {
            &&& state.pending is Poll
            &&& event matches Event::Polled { input, .. }
            &&& input == Input::Char(QUIT_KEY)
        },
        state.terminated() ==> state.next(event) == state,
{
}

/// The window advances only by a sample that was asked for, and a sample is
/// asked for only when a wait ended with a tick due. Ticks are counted from
/// the clock reading that came with the last sample.
pub proof fn lemma_window_advances_on_tick(state: LoopModel, event: Event)
    ensures
        state.next(event).window != state.window ==> {
            &&& state.pending is Sample
            &&& event matches Event::Sampled { sample, now }
            &&& state.next(event).window == state.window.advance(sample@)
            &&& state.next(event).last_tick == now
        },
        !(state.pending is Sample) && state.next(event).pending is Sample ==> {
            &&& state.pending is Poll
            &&& event matches Event::Polled { now, .. }
            &&& tick_due(state.tick_interval, elapsed(state.last_tick, now))
        },
{
}

/// The loop never stays away from the keyboard: as long as the caller
/// answers what it is asked, a wait for input is pending now, after the next
/// event, or after the one that follows.
pub proof fn lemma_wait_is_never_far(state: LoopModel, first: Event, second: Event)
    requires
        answers(first, state.pending),
        answers(second, state.next(first).pending),
    ensures
        state.pending is Poll || state.next(first).pending is Poll || state.next(first).next(
            second,
        ).pending is Poll,
{
}

/// The display loop of a chart: its window, its tick interval, the time of
/// its last tick, and what it last asked its caller to do.
#[derive(Debug)]
pub struct DisplayLoop {
    window: SampleWindow,
    tick_interval: u128,
    last_tick: u128,
    pending: Action,
}

impl View for DisplayLoop {
    type V = LoopModel;

    closed spec fn view(&self) -> LoopModel {
        LoopModel {
            window: self.window@,
            tick_interval: self.tick_interval,
            last_tick: self.last_tick,
            pending: self.pending,
        }
    }
}

impl DisplayLoop {
    /// The invariant that `new` establishes and `step` keeps.
    pub open spec fn wf(&self) -> bool {
        self@.wf()
    }

    /// A loop that displays `window` and advances it every `tick_interval`
    /// nanoseconds, the first time counted from the clock reading `now`.
    pub fn new(window: SampleWindow, tick_interval: u128, now: u128) -> (display: DisplayLoop)
        requires
            window.wf(),
        ensures
            display.wf(),
            display@ == LoopModel::start(window@, tick_interval, now),
    {
        DisplayLoop { window, tick_interval, last_tick: now, pending: Action::Render }
    }

    /// The window on display.
    pub fn window(&self) -> (window: &SampleWindow)
        ensures
            window@ == self@.window,
    {
        &self.window
    }

    /// What the caller is to do now.
    pub fn pending(&self) -> (action: Action)
        ensures
            action == self@.pending,
    {
        self.pending
    }

    /// Whether the loop has ended.
    pub fn is_terminated(&self) -> (terminated: bool)
        ensures
            terminated == self@.terminated(),
    {
        match self.pending {
            Action::Quit => true,
            _ => false,
        }
    }

    /// The time from the last tick to the clock reading `now`.
    fn elapsed_at(&self, now: u128) -> (time: u128)
        ensures
            time == elapsed(self@.last_tick, now),
    {
        if now >= self.last_tick {
            now - self.last_tick
        } else {
            0
        }
    }

    /// Takes in what happened and says what to do next.
    pub fn step(&mut self, event: Event) -> (action: Action)
        requires
            old(self).wf(),
        ensures
            final(self).wf(),
            final(self)@ == old(self)@.next(event),
            action == final(self)@.pending,
    {
        match (self.pending, event) {
            (Action::Render, Event::Rendered { now }) => {
                let elapsed: u128 = self.elapsed_at(now);
                let timeout: u128 = if elapsed >= self.tick_interval {
                    0
                } else {
                    self.tick_interval - elapsed
                };
                self.pending = Action::Poll { timeout };
            },
            (Action::Poll { .. }, Event::Polled { input, now }) => {
                let quit = match input {
                    Input::Char(key) => key == QUIT_KEY,
                    _ => false,
                };
                self.pending = if quit {
                    Action::Quit
                } else if self.elapsed_at(now) >= self.tick_interval {
                    Action::Sample
                } else {
                    Action::Render
                };
            },
            (Action::Sample, Event::Sampled { sample, now }) => {
                self.window.advance(sample);
                self.last_tick = now;
                self.pending = Action::Render;
            },
            _ => {},
        }
        self.pending
    }
}

} // verus!
