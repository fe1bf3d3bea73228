use esp_slint_boards::pointer::{PointerEvent, TouchReading, TouchState};
use esp_slint_boards::touch_loop::TouchLoop;

fn at(x: u16, y: u16) -> TouchReading {
    TouchReading::At { x, y }
}

#[test]
fn polls_become_readings() {
    assert_eq!(TouchReading::from_poll::<u8>(Err(3)), TouchReading::Unknown);
    assert_eq!(TouchReading::from_poll::<u8>(Ok(None)), TouchReading::Lifted);
    assert_eq!(TouchReading::from_poll::<u8>(Ok(Some((7, 9)))), at(7, 9));
}

#[test]
fn a_gesture_from_press_to_exit() {
    let mut state = TouchState::new();
    assert_eq!(state.update(TouchReading::Lifted), vec![]);
    assert_eq!(state.update(at(10, 20)), vec![PointerEvent::Pressed { x: 10, y: 20 }]);
    assert_eq!(state.update(at(10, 20)), vec![]);
    assert_eq!(state.update(at(11, 20)), vec![PointerEvent::Moved { x: 11, y: 20 }]);
    assert_eq!(state.update(TouchReading::Unknown), vec![]);
    assert_eq!(state.update(at(11, 25)), vec![PointerEvent::Moved { x: 11, y: 25 }]);
    assert_eq!(
        state.update(TouchReading::Lifted),
        vec![PointerEvent::Released { x: 11, y: 25 }, PointerEvent::Exited]
    );
    assert_eq!(state.update(TouchReading::Lifted), vec![]);
}

#[test]
fn a_failed_reading_does_not_release() {
    let mut state = TouchState::new();
    state.update(at(1, 1));
    let before = state;
    assert_eq!(state.update(TouchReading::Unknown), vec![]);
    assert_eq!(state, before);
    assert_eq!(
        state.update(TouchReading::Lifted),
        vec![PointerEvent::Released { x: 1, y: 1 }, PointerEvent::Exited]
    );
}

#[test]
fn position_follows_touch() {
    let mut state = TouchState::new();
    assert_eq!(state.position, (0, 0));
    state.update(at(5, 6));
    assert_eq!((state.touch, state.position), (Some((5, 6)), (5, 6)));
    state.update(TouchReading::Lifted);
    assert_eq!((state.touch, state.position), (None, (5, 6)));
    state.update(at(5, 6));
    assert_eq!((state.touch, state.position), (Some((5, 6)), (5, 6)));
}

#[test]
fn main_task_reports_every_six_hundred_polls() {
    let mut task = TouchLoop::new();
    let mut reports = Vec::new();
    for poll in 0..1801u32 {
        let outcome = task.next(TouchReading::Lifted);
        assert!(outcome.events.is_empty());
        assert_eq!(outcome.period_ms, 16);
        if let Some(number) = outcome.alive {
            reports.push((poll, number));
        }
    }
    assert_eq!(reports, vec![(0, 0), (600, 10), (1200, 20), (1800, 30)]);
    assert_eq!(task.polls, 1801);
}

#[test]
fn main_task_dispatches_touches() {
    let mut task = TouchLoop::new();
    assert_eq!(task.next(at(3, 4)).events, vec![PointerEvent::Pressed { x: 3, y: 4 }]);
    assert_eq!(task.next(at(3, 4)).events, vec![]);
    assert_eq!(
        task.next(TouchReading::Lifted).events,
        vec![PointerEvent::Released { x: 3, y: 4 }, PointerEvent::Exited]
    );
}

#[test]
fn main_task_gives_complete_gestures() {
    let readings = [
        TouchReading::Unknown,
        at(1, 1),
        at(2, 1),
        TouchReading::Unknown,
        at(2, 1),
        TouchReading::Lifted,
        TouchReading::Lifted,
        at(5, 5),
        TouchReading::Lifted,
    ];
    let mut task = TouchLoop::new();
    let mut events = Vec::new();
    for reading in readings {
        events.extend(task.next(reading).events);
    }
    assert_eq!(
        events,
        vec![
            PointerEvent::Pressed { x: 1, y: 1 },
            PointerEvent::Moved { x: 2, y: 1 },
            PointerEvent::Released { x: 2, y: 1 },
            PointerEvent::Exited,
            PointerEvent::Pressed { x: 5, y: 5 },
            PointerEvent::Released { x: 5, y: 5 },
            PointerEvent::Exited,
        ]
    );
    assert_eq!(task.touch.touch, None);
    assert_eq!(task.polls, 9);
}

#[test]
fn failed_polls_leave_no_trace() {
    let with = [
        TouchReading::Unknown,
        at(4, 4),
        TouchReading::Unknown,
        TouchReading::Unknown,
        at(6, 4),
        TouchReading::Unknown,
        TouchReading::Lifted,
        TouchReading::Unknown,
    ];
    let without = [at(4, 4), at(6, 4), TouchReading::Lifted];
    let mut a = TouchState::new();
    let mut b = TouchState::new();
    let seen: Vec<PointerEvent> = with.into_iter().flat_map(|r| a.update(r)).collect();
    let told: Vec<PointerEvent> = without.into_iter().flat_map(|r| b.update(r)).collect();
    assert_eq!(seen, told);
    assert_eq!(a, b);
}
