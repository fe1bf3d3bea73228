//! Turns successive touch readings into pointer events for the window.
use vstd::prelude::*;

verus! {

/// One reading of a touch controller.
#[derive(Clone, Copy, Debug, PartialEq, Eq, Structural)]
pub enum TouchReading {
    /// The controller could not be read, or had nothing new to say.
    Unknown,
    /// Nothing touches the panel.
    Lifted,
    /// The panel is touched at this physical position.
    At { x: u16, y: u16 },
}

/// An event for the window, at a physical position.
#[derive(Clone, Copy, Debug, PartialEq, Eq, Structural)]
pub enum PointerEvent {
    /// The left button went down.
    Pressed { x: u16, y: u16 },
    /// The pointer moved with the button down.
    Moved { x: u16, y: u16 },
    /// The left button went up.
    Released { x: u16, y: u16 },
    /// The pointer left the window.
    Exited,
}

/// What is remembered between two readings.
#[derive(Clone, Copy, Debug, PartialEq, Eq)]
pub struct TouchState {
    /// Where the panel was touched at the last reading that told.
    pub touch: Option<(u16, u16)>,
    /// The position of the last press or move that the window was told of.
    pub position: (u16, u16),
}

/// The state before the first reading.
pub open spec fn untouched() -> TouchState {
    TouchState { touch: None, position: (0, 0) }
}

/// The reading that the outcome of a poll stands for.
pub open spec fn reading_of<E>(poll: Result<Option<(u16, u16)>, E>) -> TouchReading {
    match poll {
        Err(_) => TouchReading::Unknown,
        Ok(None) => TouchReading::Lifted,
        Ok(Some((x, y))) => TouchReading::At { x, y },
    }
}

/// The events that `reading` gives rise to in `state`.
pub open spec fn events_for(state: TouchState, reading: TouchReading) -> Seq<PointerEvent> {
    match (state.touch, reading) {
        (None, TouchReading::At { x, y }) => seq![PointerEvent::Pressed { x, y }],
        (Some(_), TouchReading::Lifted) => seq![
            PointerEvent::Released { x: state.position.0, y: state.position.1 },
            PointerEvent::Exited,
        ],
        (Some(was), TouchReading::At { x, y }) => if was != (x, y) {
            seq![PointerEvent::Moved { x, y }]
        } else {
            Seq::empty()
        },
        _ => Seq::empty(),
    }
}

/// The state after `reading`.
pub open spec fn state_after(state: TouchState, reading: TouchReading) -> TouchState {
    match reading {
        TouchReading::Unknown => state,
        TouchReading::Lifted => TouchState { touch: None, position: state.position },
        TouchReading::At { x, y } => TouchState {
            touch: Some((x, y)),
            position: if state.touch == Some((x, y)) {
                state.position
            } else {
                (x, y)
            },
        },
    }
}

/// The state after a whole series of readings.
pub open spec fn state_after_all(state: TouchState, readings: Seq<TouchReading>) -> TouchState
    decreases readings.len(),
{
    if readings.len() == 0 {
        state
    } else {
        state_after(state_after_all(state, readings.drop_last()), readings.last())
    }
}

/// All events of a series of readings, in order.
pub open spec fn events_for_all(state: TouchState, readings: Seq<TouchReading>) -> Seq<PointerEvent>
    decreases readings.len(),
{
    if readings.len() == 0 {
        Seq::empty()
    } else {
        events_for_all(state, readings.drop_last()) + events_for(
            state_after_all(state, readings.drop_last()),
            readings.last(),
        )
    }
}

/// Where the pointer is once the window has seen an event.
#[derive(Clone, Copy, Debug, PartialEq, Eq)]
pub enum Pointer {
    /// Outside the window, button up.
    Away,
    /// In the window with the button down at this position.
    Down { x: u16, y: u16 },
    /// In the window, just released.
    Up,
}

/// The pointer after `event`, if a window in the situation `p` can see that event at all.
pub open spec fn pointer_after(p: Pointer, event: PointerEvent) -> Option<Pointer> {
    match (p, event) {
        (Pointer::Away, PointerEvent::Pressed { x, y }) => Some(Pointer::Down { x, y }),
        (Pointer::Down { x: x0, y: y0 }, PointerEvent::Moved { x, y }) => if (x0, y0) != (x, y) {
            Some(Pointer::Down { x, y })
        } else {
            None
        },
        (Pointer::Down { x: x0, y: y0 }, PointerEvent::Released { x, y }) => if (x0, y0) == (x, y) {
            Some(Pointer::Up)
        } else {
            None
        },
        (Pointer::Up, PointerEvent::Exited) => Some(Pointer::Away),
        _ => None,
    }
}

/// The pointer after a series of events, if each of them fits the one before.
pub open spec fn pointer_after_all(p: Pointer, events: Seq<PointerEvent>) -> Option<Pointer>
    decreases events.len(),
{
    if events.len() == 0 {
        Some(p)
    } else {
        match pointer_after_all(p, events.drop_last()) {
            None => None,
            Some(q) => pointer_after(q, events.last()),
        }
    }
}

/// Where the window should believe the pointer to be in `state`.
pub open spec fn pointer_in(state: TouchState) -> Pointer {
    match state.touch {
        None => Pointer::Away,
        Some((x, y)) => Pointer::Down { x, y },
    }
}

impl TouchReading {
    /// The reading that the outcome of a poll stands for: a failed poll tells nothing.
    pub fn from_poll<E>(poll: Result<Option<(u16, u16)>, E>) -> (reading: Self)
        ensures
            reading == reading_of(poll),
    {
        match poll {
            Err(_) => TouchReading::Unknown,
            Ok(None) => TouchReading::Lifted,
            Ok(Some((x, y))) => TouchReading::At { x, y },
        }
    }
}

impl TouchState {
    /// The state before the first reading.
    pub fn new() -> (state: Self)
        ensures
            state == untouched(),
    {
        TouchState { touch: None, position: (0, 0) }
    }

    /// Takes the next reading and returns the events to dispatch, in order.
    ///
    /// A first touch is a press; a touch elsewhere is a move; lifting is a release at
    /// the position last reported, followed by the pointer's exit. A reading that
    /// tells nothing, or nothing new, gives no event.
    pub fn update(&mut self, reading: TouchReading) -> (events: Vec<PointerEvent>)
        ensures
            events@ == events_for(*old(self), reading),
            *final(self) == state_after(*old(self), reading),
    {
        let mut events: Vec<PointerEvent> = Vec::new();
        match (self.touch, reading) {
            (None, TouchReading::At { x, y }) => {
                self.position = (x, y);
                events.push(PointerEvent::Pressed { x, y });
            },
            (Some(_), TouchReading::Lifted) => {
                events.push(PointerEvent::Released { x: self.position.0, y: self.position.1 });
                events.push(PointerEvent::Exited);
            },
            (Some((old_x, old_y)), TouchReading::At { x, y }) => {
                if old_x != x || old_y != y {
                    self.position = (x, y);
                    events.push(PointerEvent::Moved { x, y });
                }
            },
            _ => {},
        }
        match reading {
            TouchReading::Unknown => {},
            TouchReading::Lifted => {
                self.touch = None;
            },
            TouchReading::At { x, y } => {
                self.touch = Some((x, y));
            },
        }
        events
    }
}

/// A series of events continues where the one before it ended.
proof fn lemma_pointer_after_concat(p: Pointer, a: Seq<PointerEvent>, b: Seq<PointerEvent>)
    requires
        pointer_after_all(p, a) is Some,
    ensures
        pointer_after_all(p, a + b) == pointer_after_all(pointer_after_all(p, a)->Some_0, b),
    decreases b.len(),
{
    if b.len() == 0 {
        assert(a + b =~= a);
    } else {
        assert((a + b).drop_last() =~= a + b.drop_last());
        lemma_pointer_after_concat(p, a, b.drop_last());
    }
}

/// While the panel is touched, the position last reported to the window is the position
/// of the last touch that was read: so a release always carries that position.
pub proof fn law_position_follows_touch(readings: Seq<TouchReading>)
    ensures
        state_after_all(untouched(), readings).touch matches Some(p) ==> state_after_all(
            untouched(),
            readings,
        ).position == p,
    decreases readings.len(),
{
    if readings.len() > 0 {
        law_position_follows_touch(readings.drop_last());
    }
}

/// Whatever the controller reads, the window sees complete gestures only: a press, moves
/// that really move, a release at the position last reported, an exit, and then the next
/// press. At any time it believes the pointer to be where the panel was last touched.
pub proof fn law_events_form_gestures(readings: Seq<TouchReading>)
    ensures
        pointer_after_all(Pointer::Away, events_for_all(untouched(), readings)) == Some(
            pointer_in(state_after_all(untouched(), readings)),
        ),
    decreases readings.len(),
{
    if readings.len() > 0 {
        let before = readings.drop_last();
        law_events_form_gestures(before);
        law_position_follows_touch(before);
        let state = state_after_all(untouched(), before);
        let seen = events_for_all(untouched(), before);
        let new = events_for(state, readings.last());
        lemma_pointer_after_concat(Pointer::Away, seen, new);
        reveal_with_fuel(pointer_after_all, 3);
        if new.len() == 2 {
            assert(new.drop_last() =~= seq![new[0]]);
            assert(new.drop_last().drop_last() =~= Seq::<PointerEvent>::empty());
        } else if new.len() == 1 {
            assert(new.drop_last() =~= Seq::<PointerEvent>::empty());
        }
    }
}

/// The readings without those that tell nothing.
pub open spec fn telling(readings: Seq<TouchReading>) -> Seq<TouchReading>
    decreases readings.len(),
{
    if readings.len() == 0 {
        Seq::empty()
    } else if readings.last() == TouchReading::Unknown {
        telling(readings.drop_last())
    } else {
        telling(readings.drop_last()).push(readings.last())
    }
}

/// Failed polls leave no trace: the events and the state of a series of readings are those
/// of the series without the readings that tell nothing.
pub proof fn law_failed_polls_leave_no_trace(state: TouchState, readings: Seq<TouchReading>)
    ensures
        state_after_all(state, readings) == state_after_all(state, telling(readings)),
        events_for_all(state, readings) == events_for_all(state, telling(readings)),
    decreases readings.len(),
{
    if readings.len() > 0 {
        let before = readings.drop_last();
        law_failed_polls_leave_no_trace(state, before);
        if readings.last() == TouchReading::Unknown {
            assert(events_for_all(state, readings) =~= events_for_all(state, before));
        } else {
            assert(telling(readings).drop_last() =~= telling(before));
        }
    }
}

/// A reading that tells nothing changes nothing, and so does the same reading twice.
pub proof fn law_repeated_reading_is_silent(state: TouchState, reading: TouchReading)
    ensures
        state_after(state, TouchReading::Unknown) == state,
        events_for(state, TouchReading::Unknown) == Seq::<PointerEvent>::empty(),
        state_after(state_after(state, reading), reading) == state_after(state, reading),
        events_for(state_after(state, reading), reading) == Seq::<PointerEvent>::empty(),
{
}

/// The remembered touch is the last one told: if the reading `i` told something and all later
/// ones told nothing, the panel counts as touched exactly where that reading says, and as
/// not touched if that reading was a lift.
pub proof fn law_last_telling_reading_counts(
    state: TouchState,
    readings: Seq<TouchReading>,
    i: int,
)
    requires
        0 <= i < readings.len(),
        readings[i] != TouchReading::Unknown,
        forall|k: int| i < k < readings.len() ==> readings[k] == TouchReading::Unknown,
    ensures
        readings[i] matches TouchReading::At { x, y } ==> state_after_all(state, readings).touch
            == Some((x, y)),
        readings[i] == TouchReading::Lifted ==> state_after_all(state, readings).touch is None,
    decreases readings.len(),
{
    if i < readings.len() - 1 {
        law_last_telling_reading_counts(state, readings.drop_last(), i);
        assert(readings[readings.len() - 1] == TouchReading::Unknown);
    }
}

/// As long as nothing is told, nothing is seen and nothing is remembered.
pub proof fn law_silence_tells_nothing(state: TouchState, readings: Seq<TouchReading>)
    requires
        forall|k: int| 0 <= k < readings.len() ==> readings[k] == TouchReading::Unknown,
    ensures
        events_for_all(state, readings).len() == 0,
        state_after_all(state, readings) == state,
    decreases readings.len(),
{
    if readings.len() > 0 {
        law_silence_tells_nothing(state, readings.drop_last());
        assert(readings[readings.len() - 1] == TouchReading::Unknown);
    }
}

/// What the window is told of a reading depends only on the last reading before it that told
/// something, whatever came earlier and however many polls failed in between. After a touch,
/// a touch elsewhere is exactly one move to it, a touch at the same place is nothing, and a
/// lift is a release at that place and an exit. After a lift, a touch is a press.
pub proof fn law_event_follows_from_two_readings(
    readings: Seq<TouchReading>,
    i: int,
    next: TouchReading,
)
    requires
        0 <= i < readings.len(),
        readings[i] != TouchReading::Unknown,
        forall|k: int| i < k < readings.len() ==> readings[k] == TouchReading::Unknown,
    ensures
        ({
            let events = events_for(state_after_all(untouched(), readings), next);
            match (readings[i], next) {
                (TouchReading::At { x: x0, y: y0 }, TouchReading::At { x, y }) => {
                    &&& x0 != x || y0 != y ==> events == seq![PointerEvent::Moved { x, y }]
                    &&& x0 == x && y0 == y ==> events.len() == 0
                },
                (TouchReading::At { x, y }, TouchReading::Lifted) => events == seq![
                    PointerEvent::Released { x, y },
                    PointerEvent::Exited,
                ],
                (TouchReading::Lifted, TouchReading::At { x, y }) => events == seq![
                    PointerEvent::Pressed { x, y },
                ],
                _ => events.len() == 0,
            }
        }),
{
    law_last_telling_reading_counts(untouched(), readings, i);
    law_position_follows_touch(readings);
}

/// The first reading that tells something is a press if it is a touch, and else nothing.
pub proof fn law_first_touch_is_a_press(failed: Seq<TouchReading>, next: TouchReading)
    requires
        forall|k: int| 0 <= k < failed.len() ==> failed[k] == TouchReading::Unknown,
    ensures
        ({
            let events = events_for(state_after_all(untouched(), failed), next);
            match next {
                TouchReading::At { x, y } => events == seq![PointerEvent::Pressed { x, y }],
                _ => events.len() == 0,
            }
        }),
{
    law_silence_tells_nothing(untouched(), failed);
}

/// A poll that fails tells nothing, one without a point is a lift, and one with a point is a
/// touch at that point.
pub proof fn law_poll_becomes_reading<E>(e: E, x: u16, y: u16)
    ensures
        reading_of::<E>(Err(e)) == TouchReading::Unknown,
        reading_of::<E>(Ok(None)) == TouchReading::Lifted,
        reading_of::<E>(Ok(Some((x, y)))) == (TouchReading::At { x, y }),
{
}

} // verus!
