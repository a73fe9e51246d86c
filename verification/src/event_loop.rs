//! One turn of the foreground loop, as far as it is a decision: how long to
//! wait for input, what an event does to the state, and when a tick is over.
//!
//! The caller holds the lock on the state for the turn, polls and reads the
//! terminal, performs the action that `on_event` returns, and redraws.

use vstd::prelude::*;
use crate::app::{Action, App};
use crate::keyboard_events::{decode, get_keyboard_event, lookback_after, RawEvent};

verus! {

/// Length of a tick in nanoseconds: 250 ms.
pub const TICK_RATE_NANOS: u64 = 250_000_000;

/// What is left of a tick of `tick_rate` after `elapsed`, in the same unit.
pub open spec fn time_left(tick_rate: int, elapsed: int) -> int {
    if elapsed < tick_rate {
        tick_rate - elapsed
    } else {
        0
    }
}

/// How long the poll for input may block: until the tick is over, and not at
/// all once it is.
pub fn poll_timeout(tick_rate: u64, elapsed: u128) -> (timeout: u64)
    ensures
        timeout == time_left(tick_rate as int, elapsed as int),
{
    if elapsed < tick_rate as u128 {
        (tick_rate as u128 - elapsed) as u64
    } else {
        0
    }
}

/// Whether the tick is over, so that the tick clock starts again.
pub fn tick_elapsed(tick_rate: u64, elapsed: u128) -> (over: bool)
    ensures
        over == (elapsed >= tick_rate),
{
    elapsed >= tick_rate as u128
}

/// What the loop keeps from one turn to the next: the event to look back to.
#[derive(Clone, Copy, Debug, PartialEq, Eq, Structural)]
pub struct EventLoop {
    pub prev_event: Option<RawEvent>,
}

impl EventLoop {
    /// The loop before its first event.
    pub fn new() -> (state: Self)
        ensures
            state.prev_event is None,
    {
        Self { prev_event: None }
    }

    /// Decodes `event` against the event remembered from the turn before,
    /// applies the command to `app`, and remembers `event` for the next
    /// turn, whatever the command was. Returns what is left for the caller
    /// to do.
    pub fn on_event<P>(&mut self, app: &mut App<P>, event: RawEvent, terminal_height: u16) -> (action:
        Action)
        requires
            old(app)@.wf(),
        ensures
            final(app)@.wf(),
            action == old(app)@.action_for(decode(event, old(self).prev_event)),
            final(app)@ == old(app)@.after_command(
                decode(event, old(self).prev_event),
                terminal_height as int,
            ),
            final(self).prev_event == lookback_after(
                event,
                decode(event, old(self).prev_event),
            ),
    {
        let command = get_keyboard_event(&event, &self.prev_event);
        self.prev_event = lookback_after(event, command);
        app.dispatch(command, terminal_height)
    }
}

} // verus!
