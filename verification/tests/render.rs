use esp_slint_boards::board::Board;
use esp_slint_boards::pointer::{PointerEvent, TouchReading};
use esp_slint_boards::render::{box_draw, BoxDraw, DrawArea, RenderAction, RenderEvent, RenderTask};

const BUFFER: usize = 0x3C10_0040;

struct Input {
    reading: TouchReading,
    updated: bool,
    alive: bool,
    rendered: bool,
}

fn quiet() -> Input {
    Input { reading: TouchReading::Lifted, updated: false, alive: true, rendered: false }
}

/// Runs one frame from `action` on; returns what was done.
fn frame(task: &mut RenderTask, mut action: RenderAction, input: &Input) -> (Vec<String>, RenderAction) {
    let mut done = Vec::new();
    loop {
        let event = match action {
            RenderAction::TakeReadySignal => {
                done.push("ready?".to_string());
                RenderEvent::ReadySignal { buffer: Some(BUFFER) }
            }
            RenderAction::PollTouch => {
                done.push("poll".to_string());
                RenderEvent::Touch(input.reading)
            }
            RenderAction::Dispatch(events) => {
                done.push(format!("dispatch {}", events.len()));
                RenderEvent::Dispatched
            }
            RenderAction::UpdateTimers => {
                done.push("timers".to_string());
                RenderEvent::TimersUpdated
            }
            RenderAction::ReadScanFlag => {
                done.push("flag".to_string());
                RenderEvent::ScanFlag { updated: input.updated }
            }
            RenderAction::FindWindow => {
                done.push("window".to_string());
                RenderEvent::Window { alive: input.alive }
            }
            RenderAction::RefreshWindow => {
                done.push("refresh".to_string());
                RenderEvent::Refreshed
            }
            RenderAction::Draw { .. } => {
                done.push("draw".to_string());
                RenderEvent::Drawn { rendered: input.rendered }
            }
            RenderAction::EndFrame { .. } => return (done, action),
        };
        action = task.next(event);
    }
}

#[test]
fn waits_for_the_frame_buffer() {
    let (mut task, action) = RenderTask::start(Board::Esope);
    assert!(matches!(action, RenderAction::TakeReadySignal));
    for _ in 0..5 {
        let action = task.next(RenderEvent::ReadySignal { buffer: None });
        assert!(matches!(action, RenderAction::TakeReadySignal));
    }
    let action = task.next(RenderEvent::ReadySignal { buffer: Some(BUFFER) });
    assert!(matches!(action, RenderAction::UpdateTimers));
}

/// The areas that a board draws into over some frames.
fn areas(board: Board, frames: u32) -> Vec<Option<DrawArea>> {
    let (mut task, mut action) = RenderTask::start(board);
    let mut areas = Vec::new();
    for _ in 0..frames {
        loop {
            let event = match action {
                RenderAction::TakeReadySignal => RenderEvent::ReadySignal { buffer: Some(BUFFER) },
                RenderAction::PollTouch => RenderEvent::Touch(TouchReading::Unknown),
                RenderAction::UpdateTimers => RenderEvent::TimersUpdated,
                RenderAction::ReadScanFlag => RenderEvent::ScanFlag { updated: false },
                RenderAction::Draw { area } => {
                    areas.push(area);
                    RenderEvent::Drawn { rendered: true }
                }
                _ => RenderEvent::Ticked,
            };
            let over = event == RenderEvent::Ticked;
            action = task.next(event);
            if over {
                break;
            }
        }
    }
    areas
}

#[test]
fn every_frame_draws_into_the_whole_buffer() {
    let small = DrawArea { start: BUFFER, pixels: 76_800, stride: 320 };
    assert_eq!(areas(Board::Esope, 3), vec![Some(small); 3]);
    let square = DrawArea { start: BUFFER, pixels: 230_400, stride: 480 };
    assert_eq!(areas(Board::LcdEv, 3), vec![Some(square); 3]);
    assert_eq!(areas(Board::Box3, 3), vec![None; 3]);
}

#[test]
fn draw_area_of_each_board() {
    assert_eq!(Board::Esope.draw_area(), (320 * 240, 320));
    assert_eq!(Board::Box3.draw_area(), (320 * 240, 320));
    assert_eq!(Board::LcdEv.draw_area(), (480 * 480, 480));
}

#[test]
fn a_board_without_psram_starts_at_once() {
    let (_, action) = RenderTask::start(Board::Box3);
    assert!(matches!(action, RenderAction::UpdateTimers));
}

#[test]
fn order_within_a_frame() {
    let (mut task, action) = RenderTask::start(Board::LcdEv);
    let input = Input {
        reading: TouchReading::At { x: 1, y: 2 },
        updated: true,
        alive: true,
        rendered: true,
    };
    let (done, _) = frame(&mut task, action, &input);
    assert_eq!(
        done,
        vec!["ready?", "poll", "dispatch 1", "timers", "flag", "window", "refresh", "draw"]
    );
    let action = task.next(RenderEvent::Ticked);
    let gone = Input { updated: true, alive: false, ..quiet() };
    let (done, _) = frame(&mut task, action, &gone);
    assert_eq!(done, vec!["poll", "dispatch 2", "timers", "flag", "window", "draw"]);
    let action = task.next(RenderEvent::Ticked);
    let (done, _) = frame(&mut task, action, &quiet());
    assert_eq!(done, vec!["poll", "timers", "flag", "draw"]);
}

#[test]
fn dispatched_events_are_those_of_the_reading() {
    let (mut task, _) = RenderTask::start(Board::LcdEv);
    task.next(RenderEvent::ReadySignal { buffer: Some(BUFFER) });
    match task.next(RenderEvent::Touch(TouchReading::At { x: 8, y: 9 })) {
        RenderAction::Dispatch(events) => {
            assert_eq!(events, vec![PointerEvent::Pressed { x: 8, y: 9 }]);
        }
        _ => panic!("a press is dispatched"),
    }
}

/// The frames at which a board reports a rendered frame and its being alive.
fn reports(board: Board, frames: u32, rendered: bool) -> (Vec<u32>, Vec<u32>) {
    let (mut task, mut action) = RenderTask::start(board);
    let mut of_rendering = Vec::new();
    let mut of_life = Vec::new();
    for _ in 0..frames {
        let (_, end) = frame(&mut task, action, &Input { rendered, ..quiet() });
        if let RenderAction::EndFrame { rendered, alive, period_ms } = end {
            assert_eq!(period_ms, 16);
            of_rendering.extend(rendered);
            of_life.extend(alive);
        }
        action = task.next(RenderEvent::Ticked);
    }
    assert_eq!(task.frame, frames);
    (of_rendering, of_life)
}

#[test]
fn reports_of_each_board() {
    assert_eq!(reports(Board::Esope, 601, true), ((0..=10).map(|n| n * 60).collect(), vec![300, 600]));
    assert_eq!(reports(Board::Box3, 301, true), ((0..=5).map(|n| n * 60).collect(), vec![300]));
    assert_eq!(reports(Board::LcdEv, 1801, true), ((0..=1800).collect(), vec![1800]));
    assert_eq!(reports(Board::Esope, 301, false), (vec![], vec![300]));
}

#[test]
fn frame_count_starts_over() {
    let (mut task, action) = RenderTask::start(Board::Box3);
    task.frame = u32::MAX;
    let (_, end) = frame(&mut task, action, &quiet());
    assert_eq!(task.frame, 0);
    assert!(matches!(end, RenderAction::EndFrame { rendered: None, alive: Some(0), .. }));
}

#[test]
fn the_window_sees_complete_gestures() {
    let (mut task, _) = RenderTask::start(Board::LcdEv);
    let mut action = task.next(RenderEvent::ReadySignal { buffer: Some(BUFFER) });
    let mut down: Option<(u16, u16)> = None;
    let mut leaving = false;
    let mut seed: u32 = 12345;
    let mut gestures = 0;
    for _ in 0..2000 {
        seed = seed.wrapping_mul(1664525).wrapping_add(1013904223);
        let reading = match seed >> 29 {
            0 | 1 => TouchReading::Unknown,
            2 | 3 => TouchReading::Lifted,
            n => TouchReading::At { x: n as u16 / 2, y: 7 },
        };
        assert!(matches!(action, RenderAction::PollTouch));
        action = task.next(RenderEvent::Touch(reading));
        if let RenderAction::Dispatch(events) = action {
            for event in events {
                match event {
                    PointerEvent::Pressed { x, y } => {
                        assert!(down.is_none() && !leaving);
                        down = Some((x, y));
                    }
                    PointerEvent::Moved { x, y } => {
                        assert!(down.is_some() && down != Some((x, y)));
                        down = Some((x, y));
                    }
                    PointerEvent::Released { x, y } => {
                        assert_eq!(down, Some((x, y)));
                        down = None;
                        leaving = true;
                    }
                    PointerEvent::Exited => {
                        assert!(leaving);
                        leaving = false;
                        gestures += 1;
                    }
                }
            }
            action = task.next(RenderEvent::Dispatched);
        }
        assert_eq!(task.touch.touch, down);
        let (_, end) = frame(&mut task, action, &quiet());
        assert!(matches!(end, RenderAction::EndFrame { .. }));
        action = task.next(RenderEvent::Ticked);
    }
    assert!(gestures > 100);
}

#[test]
fn a_missing_display_is_reported() {
    assert_eq!(box_draw(true), BoxDraw::Render);
    assert_eq!(box_draw(false), BoxDraw::ReportMissing);
}

#[test]
fn first_frame_without_a_frame_buffer() {
    let (mut task, action) = RenderTask::start(Board::Box3);
    let input = Input { updated: true, rendered: true, ..quiet() };
    let (done, end) = frame(&mut task, action, &input);
    assert_eq!(done, vec!["timers", "flag", "window", "refresh", "draw"]);
    assert!(matches!(end, RenderAction::EndFrame { rendered: Some(0), alive: None, period_ms: 16 }));
}
