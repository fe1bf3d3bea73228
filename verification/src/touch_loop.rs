//! The main task of the board that polls touch apart from rendering.
use crate::board::FRAME_PERIOD_MS;
use crate::pointer::{PointerEvent, TouchReading, TouchState};
#[allow(unused_imports)]
use crate::pointer::{
    events_for, events_for_all, law_events_form_gestures, pointer_after_all, pointer_in,
    state_after, state_after_all, untouched, Pointer,
};
use vstd::prelude::*;

verus! {

/// Polls between two reports that the task is alive.
pub const STATUS_POLLS: u32 = 600;

/// Polls per second, as the report counts them.
pub const POLLS_PER_SECOND: u32 = 60;

/// The main task's memory between two polls.
#[derive(Clone, Copy, Debug, PartialEq, Eq)]
pub struct TouchLoop {
    /// What the readings have come to.
    pub touch: TouchState,
    /// Polls done so far.
    pub polls: u32,
}

/// What to do after a poll.
pub struct PollOutcome {
    /// Events to dispatch, in order.
    pub events: Vec<PointerEvent>,
    /// The number to report the task as alive with, if it is time to.
    pub alive: Option<u32>,
    /// Period of the polls: the next one comes at its end.
    pub period_ms: u64,
}

impl TouchLoop {
    /// The task before the first poll.
    pub fn new() -> (task: Self)
        ensures
            task == (TouchLoop { touch: untouched(), polls: 0 }),
    {
        TouchLoop { touch: TouchState::new(), polls: 0 }
    }

    /// Takes the next reading: gives the events it comes to, and every 600 polls, beginning
    /// with the first, a report.
    pub fn next(&mut self, reading: TouchReading) -> (outcome: PollOutcome)
        requires
            old(self).polls < u32::MAX,
        ensures
            outcome.events@ == events_for(old(self).touch, reading),
            outcome.alive == (if old(self).polls % 600 == 0 {
                Some((old(self).polls / 60) as u32)
            } else {
                None
            }),
            outcome.alive == alive_report(old(self).polls),
            outcome.period_ms == 16,
            *final(self) == after_poll(*old(self), reading),
    {
        let events: Vec<PointerEvent> = self.touch.update(reading);
        let alive: Option<u32> = if self.polls % STATUS_POLLS == 0 {
            Some(self.polls / POLLS_PER_SECOND)
        } else {
            None
        };
        self.polls = self.polls + 1;
        PollOutcome { events, alive, period_ms: FRAME_PERIOD_MS }
    }
}

/// The number that is reported after this many polls, if one is.
pub open spec fn alive_report(polls: u32) -> Option<u32> {
    if polls % 600 == 0 {
        Some((polls / 60) as u32)
    } else {
        None
    }
}

/// The task after a poll.
pub open spec fn after_poll(task: TouchLoop, reading: TouchReading) -> TouchLoop {
    TouchLoop { touch: state_after(task.touch, reading), polls: (task.polls + 1) as u32 }
}

/// The task after a series of polls.
pub open spec fn after_polls(task: TouchLoop, readings: Seq<TouchReading>) -> TouchLoop
    decreases readings.len(),
{
    if readings.len() == 0 {
        task
    } else {
        after_poll(after_polls(task, readings.drop_last()), readings.last())
    }
}

/// Every poll is counted, and the touch state is what all readings come to.
pub proof fn law_polls_are_counted(readings: Seq<TouchReading>)
    requires
        readings.len() <= u32::MAX,
    ensures
        ({
            let start = TouchLoop { touch: untouched(), polls: 0 };
            &&& after_polls(start, readings).polls == readings.len()
            &&& after_polls(start, readings).touch == state_after_all(untouched(), readings)
        }),
    decreases readings.len(),
{
    if readings.len() > 0 {
        law_polls_are_counted(readings.drop_last());
    }
}

/// The events that a series of polls gives.
pub open spec fn events_of_polls(task: TouchLoop, readings: Seq<TouchReading>) -> Seq<PointerEvent>
    decreases readings.len(),
{
    if readings.len() == 0 {
        Seq::empty()
    } else {
        let before = readings.drop_last();
        events_of_polls(task, before) + events_for(
            after_polls(task, before).touch,
            readings.last(),
        )
    }
}

/// The events of a series of polls are those that the readings come to, in order.
pub proof fn law_poll_events_follow_readings(readings: Seq<TouchReading>)
    requires
        readings.len() <= u32::MAX,
    ensures
        events_of_polls(TouchLoop { touch: untouched(), polls: 0 }, readings) == events_for_all(
            untouched(),
            readings,
        ),
    decreases readings.len(),
{
    if readings.len() > 0 {
        law_poll_events_follow_readings(readings.drop_last());
        law_polls_are_counted(readings.drop_last());
    }
}

/// Whatever is read, the events form complete gestures: the pointer comes, moves while it
/// is there, and leaves before it comes again.
pub proof fn law_polls_give_gestures(readings: Seq<TouchReading>)
    requires
        readings.len() <= u32::MAX,
    ensures
        ({
            let start = TouchLoop { touch: untouched(), polls: 0 };
            pointer_after_all(Pointer::Away, events_of_polls(start, readings)) == Some(
                pointer_in(after_polls(start, readings).touch),
            )
        }),
{
    law_poll_events_follow_readings(readings);
    law_polls_are_counted(readings);
    law_events_form_gestures(readings);
}

/// A poll is counted and its reading remembered, whatever was read.
pub proof fn law_poll_is_counted(task: TouchLoop, reading: TouchReading)
    requires
        task.polls < u32::MAX,
    ensures
        after_poll(task, reading).polls == task.polls + 1,
        reading matches TouchReading::At { x, y } ==> after_poll(task, reading).touch.touch
            == Some((x, y)),
        reading == TouchReading::Lifted ==> after_poll(task, reading).touch.touch is None,
        reading == TouchReading::Unknown ==> after_poll(task, reading).touch == task.touch,
{
}

/// At sixty polls per second the task reports every ten seconds, beginning at once, and the
/// number it reports is the seconds that have gone by.
pub proof fn law_alive_every_ten_seconds(reports: int, more: int)
    requires
        0 <= reports,
        0 <= more < 600,
        600 * reports + more <= u32::MAX,
    ensures
        ({
            let report = alive_report((600 * reports + more) as u32);
            &&& more == 0 ==> report == Some((10 * reports) as u32)
            &&& more > 0 ==> report is None
        }),
{
}

} // verus!
