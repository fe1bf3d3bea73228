//! The rendering task: what happens in each frame, and in which order.
#[allow(unused_imports)]
use crate::board::law_panel_sizes;
use crate::board::{Board, FRAME_PERIOD_MS};
#[allow(unused_imports)]
use crate::pointer::{
    events_for, events_for_all, law_events_form_gestures, pointer_after_all, pointer_in,
    state_after, state_after_all, untouched, Pointer, PointerEvent, TouchReading, TouchState,
};
use vstd::prelude::*;

verus! {

/// What the rendering task waits for.
#[derive(Clone, Copy, Debug, PartialEq, Eq, Structural)]
pub enum RenderPhase {
    WaitingForPsram,
    PollingTouch,
    Dispatching,
    UpdatingTimers,
    ReadingScanFlag,
    FindingWindow,
    RefreshingWindow,
    Drawing,
    WaitingForTick,
}

/// The rendering task.
#[derive(Clone, Copy, Debug, PartialEq, Eq)]
pub struct RenderTask {
    pub board: Board,
    pub phase: RenderPhase,
    /// Number of the current frame.
    pub frame: u32,
    /// What the touch readings have come to.
    pub touch: TouchState,
    /// Address of the frame buffer, once it was announced.
    pub buffer: Option<usize>,
}

/// The part of memory that a frame is drawn into.
#[derive(Clone, Copy, Debug, PartialEq, Eq, Structural)]
pub struct DrawArea {
    /// Address of its first pixel.
    pub start: usize,
    /// How many pixels it holds.
    pub pixels: usize,
    /// Pixels between the starts of two lines.
    pub stride: usize,
}

/// The whole frame buffer at `start` of `board`, line by line without a gap.
pub open spec fn whole_buffer(board: Board, start: usize) -> DrawArea {
    DrawArea { start, pixels: board.pixels() as usize, stride: board.spec_h_res() as usize }
}

/// What the rendering task wants done.
pub enum RenderAction {
    /// Take the signal that the frame buffer is ready, if it was given.
    TakeReadySignal,
    /// Read the touch controller.
    PollTouch,
    /// Dispatch these events to the window.
    Dispatch(Vec<PointerEvent>),
    /// Update timers and animations.
    UpdateTimers,
    /// Look whether new scan results are marked.
    ReadScanFlag,
    /// Look whether the window still exists.
    FindWindow,
    /// Ask the window to refresh its list of networks.
    RefreshWindow,
    /// Draw the frame if anything changed: into this area, or straight to the panel on a
    /// board without a frame buffer.
    Draw { area: Option<DrawArea> },
    /// Report the number of the frame just rendered, and that the task is alive at a frame,
    /// where there is one to report; then wait for the end of the period.
    EndFrame { rendered: Option<u32>, alive: Option<u32>, period_ms: u64 },
}

/// [`RenderAction`] with the events as a sequence.
#[verifier::ext_equal]
pub enum RenderDeed {
    TakeReadySignal,
    PollTouch,
    Dispatch(Seq<PointerEvent>),
    UpdateTimers,
    ReadScanFlag,
    FindWindow,
    RefreshWindow,
    Draw { area: Option<DrawArea> },
    EndFrame { rendered: Option<u32>, alive: Option<u32>, period_ms: u64 },
}

impl RenderAction {
    /// The action with its events as a sequence.
    pub open spec fn view(&self) -> RenderDeed {
        match *self {
            RenderAction::TakeReadySignal => RenderDeed::TakeReadySignal,
            RenderAction::PollTouch => RenderDeed::PollTouch,
            RenderAction::Dispatch(events) => RenderDeed::Dispatch(events@),
            RenderAction::UpdateTimers => RenderDeed::UpdateTimers,
            RenderAction::ReadScanFlag => RenderDeed::ReadScanFlag,
            RenderAction::FindWindow => RenderDeed::FindWindow,
            RenderAction::RefreshWindow => RenderDeed::RefreshWindow,
            RenderAction::Draw { area } => RenderDeed::Draw { area },
            RenderAction::EndFrame { rendered, alive, period_ms } => RenderDeed::EndFrame {
                rendered,
                alive,
                period_ms,
            },
        }
    }
}

/// What came of the last action.
#[derive(Clone, Copy, Debug, PartialEq, Eq, Structural)]
pub enum RenderEvent {
    /// The address of the frame buffer, if the signal was given.
    ReadySignal { buffer: Option<usize> },
    Touch(TouchReading),
    Dispatched,
    TimersUpdated,
    ScanFlag { updated: bool },
    Window { alive: bool },
    Refreshed,
    Drawn { rendered: bool },
    Ticked,
}

/// Whether `event` answers what the task waits for.
pub open spec fn render_expects(phase: RenderPhase, event: RenderEvent) -> bool {
    match phase {
        RenderPhase::WaitingForPsram => event is ReadySignal,
        RenderPhase::PollingTouch => event is Touch,
        RenderPhase::Dispatching => event is Dispatched,
        RenderPhase::UpdatingTimers => event is TimersUpdated,
        RenderPhase::ReadingScanFlag => event is ScanFlag,
        RenderPhase::FindingWindow => event is Window,
        RenderPhase::RefreshingWindow => event is Refreshed,
        RenderPhase::Drawing => event is Drawn,
        RenderPhase::WaitingForTick => event is Ticked,
    }
}

/// The number of the frame after `frame`; the count starts over after 2^32 frames.
pub open spec fn next_frame(frame: u32) -> u32 {
    ((frame + 1) % 0x1_0000_0000) as u32
}

/// `frame`, if it is to be reported with this period.
pub open spec fn every(period: u32, frame: u32) -> Option<u32> {
    if frame % period == 0 {
        Some(frame)
    } else {
        None
    }
}

/// The end of frame `frame` on `board`, when drawing has come to `rendered`.
pub open spec fn frame_end(board: Board, frame: u32, rendered: bool) -> RenderDeed {
    RenderDeed::EndFrame {
        rendered: if rendered {
            every(board.spec_render_report_period(), frame)
        } else {
            None
        },
        alive: every(board.spec_status_period(), next_frame(frame)),
        period_ms: 16,
    }
}

/// The task with another phase.
pub open spec fn in_phase(task: RenderTask, phase: RenderPhase) -> RenderTask {
    RenderTask { phase, ..task }
}

/// What the task draws into.
pub open spec fn area_of(task: RenderTask) -> Option<DrawArea> {
    match task.buffer {
        Some(start) => Some(whole_buffer(task.board, start)),
        None => None,
    }
}

/// The task once the frame buffer at `start` was announced.
pub open spec fn with_buffer(task: RenderTask, start: usize) -> RenderTask {
    RenderTask { buffer: Some(start), ..task }
}

/// The first deed of a frame: a touch poll on a board that has one, else the timers.
pub open spec fn first_step(task: RenderTask) -> (RenderTask, RenderDeed) {
    if task.board.spec_polls_touch() {
        (in_phase(task, RenderPhase::PollingTouch), RenderDeed::PollTouch)
    } else {
        (in_phase(task, RenderPhase::UpdatingTimers), RenderDeed::UpdateTimers)
    }
}

/// The task after `event`, and what it wants done next.
pub open spec fn render_step(task: RenderTask, event: RenderEvent) -> (RenderTask, RenderDeed) {
    match event {
        RenderEvent::ReadySignal { buffer: Some(start) } => first_step(with_buffer(task, start)),
        RenderEvent::ReadySignal { buffer: None } => (task, RenderDeed::TakeReadySignal),
        RenderEvent::Touch(reading) => {
            let events = events_for(task.touch, reading);
            let touched = RenderTask { touch: state_after(task.touch, reading), ..task };
            if events.len() > 0 {
                (in_phase(touched, RenderPhase::Dispatching), RenderDeed::Dispatch(events))
            } else {
                (in_phase(touched, RenderPhase::UpdatingTimers), RenderDeed::UpdateTimers)
            }
        },
        RenderEvent::Dispatched => (
            in_phase(task, RenderPhase::UpdatingTimers),
            RenderDeed::UpdateTimers,
        ),
        RenderEvent::TimersUpdated => (
            in_phase(task, RenderPhase::ReadingScanFlag),
            RenderDeed::ReadScanFlag,
        ),
        RenderEvent::ScanFlag { updated: true } => (
            in_phase(task, RenderPhase::FindingWindow),
            RenderDeed::FindWindow,
        ),
        RenderEvent::Window { alive: true } => (
            in_phase(task, RenderPhase::RefreshingWindow),
            RenderDeed::RefreshWindow,
        ),
        RenderEvent::ScanFlag { updated: false }
        | RenderEvent::Window { alive: false }
        | RenderEvent::Refreshed => (
            in_phase(task, RenderPhase::Drawing),
            RenderDeed::Draw { area: area_of(task) },
        ),
        RenderEvent::Drawn { rendered } => (
            RenderTask { frame: next_frame(task.frame), ..in_phase(task, RenderPhase::WaitingForTick) },
            frame_end(task.board, task.frame, rendered),
        ),
        RenderEvent::Ticked => first_step(task),
    }
}

/// The task before anything was done.
pub open spec fn idle_task(board: Board) -> RenderTask {
    RenderTask {
        board,
        phase: RenderPhase::WaitingForPsram,
        frame: 0,
        touch: untouched(),
        buffer: None,
    }
}

/// The task when it begins, and its first deed.
pub open spec fn render_start(board: Board) -> (RenderTask, RenderDeed) {
    if board.spec_waits_for_psram() {
        (idle_task(board), RenderDeed::TakeReadySignal)
    } else {
        first_step(idle_task(board))
    }
}

impl RenderTask {
    /// The task before the first frame, and its first action: a board whose frame buffer
    /// lies in PSRAM waits for it first.
    pub fn start(board: Board) -> (r: (RenderTask, RenderAction))
        ensures
            (r.0, r.1@) == render_start(board),
    {
        let mut task: RenderTask = RenderTask {
            board,
            phase: RenderPhase::WaitingForPsram,
            frame: 0,
            touch: TouchState::new(),
            buffer: None,
        };
        if board.waits_for_psram() {
            (task, RenderAction::TakeReadySignal)
        } else {
            let action: RenderAction = task.begin_frame();
            (task, action)
        }
    }

    /// Begins a frame.
    fn begin_frame(&mut self) -> (action: RenderAction)
        ensures
            (*final(self), action@) == first_step(*old(self)),
    {
        if self.board.polls_touch() {
            self.phase = RenderPhase::PollingTouch;
            RenderAction::PollTouch
        } else {
            self.phase = RenderPhase::UpdatingTimers;
            RenderAction::UpdateTimers
        }
    }

    /// Takes what came of the last action and says what to do next.
    ///
    /// A frame polls the touch controller and dispatches what came of it, on a board that
    /// has one; updates the timers; asks the window to refresh its list if new scan results
    /// are marked and the window exists; draws; and waits for the next tick.
    pub fn next(&mut self, event: RenderEvent) -> (action: RenderAction)
        requires
            render_expects(old(self).phase, event),
        ensures
            (*final(self), action@) == render_step(*old(self), event),
    {
        match event {
            RenderEvent::ReadySignal { buffer: Some(start) } => {
                self.buffer = Some(start);
                self.begin_frame()
            },
            RenderEvent::ReadySignal { buffer: None } => RenderAction::TakeReadySignal,
            RenderEvent::Touch(reading) => {
                let events: Vec<PointerEvent> = self.touch.update(reading);
                if events.len() > 0 {
                    self.phase = RenderPhase::Dispatching;
                    RenderAction::Dispatch(events)
                } else {
                    self.phase = RenderPhase::UpdatingTimers;
                    RenderAction::UpdateTimers
                }
            },
            RenderEvent::Dispatched => {
                self.phase = RenderPhase::UpdatingTimers;
                RenderAction::UpdateTimers
            },
            RenderEvent::TimersUpdated => {
                self.phase = RenderPhase::ReadingScanFlag;
                RenderAction::ReadScanFlag
            },
            RenderEvent::ScanFlag { updated: true } => {
                self.phase = RenderPhase::FindingWindow;
                RenderAction::FindWindow
            },
            RenderEvent::Window { alive: true } => {
                self.phase = RenderPhase::RefreshingWindow;
                RenderAction::RefreshWindow
            },
            RenderEvent::ScanFlag { updated: false }
            | RenderEvent::Window { alive: false }
            | RenderEvent::Refreshed => {
                self.phase = RenderPhase::Drawing;
                let (pixels, stride) = self.board.draw_area();
                let area: Option<DrawArea> = match self.buffer {
                    Some(start) => Some(DrawArea { start, pixels, stride }),
                    None => None,
                };
                RenderAction::Draw { area }
            },
            RenderEvent::Drawn { rendered } => {
                let report_period: u32 = self.board.render_report_period();
                let status_period: u32 = self.board.status_period();
                let report: Option<u32> = if rendered && self.frame % report_period == 0 {
                    Some(self.frame)
                } else {
                    None
                };
                self.frame = self.frame.wrapping_add(1);
                let alive: Option<u32> = if self.frame % status_period == 0 {
                    Some(self.frame)
                } else {
                    None
                };
                self.phase = RenderPhase::WaitingForTick;
                RenderAction::EndFrame { rendered: report, alive, period_ms: FRAME_PERIOD_MS }
            },
            RenderEvent::Ticked => self.begin_frame(),
        }
    }
}

/// What drawing comes to on the board whose panel is drawn to line by line.
#[derive(Clone, Copy, Debug, PartialEq, Eq, Structural)]
pub enum BoxDraw {
    /// Render onto the panel.
    Render,
    /// Render nothing and report, once, that there is no display.
    ReportMissing,
}

/// What drawing comes to on the board whose panel is drawn to line by line, when its display
/// is there or is missing. The frame goes on either way.
pub fn box_draw(available: bool) -> (d: BoxDraw)
    ensures
        d == (if available {
            BoxDraw::Render
        } else {
            BoxDraw::ReportMissing
        }),
{
    if available {
        BoxDraw::Render
    } else {
        BoxDraw::ReportMissing
    }
}

/// What one frame finds.
pub struct FrameInput {
    pub start: usize,
    pub reading: TouchReading,
    pub updated: bool,
    pub alive: bool,
    pub rendered: bool,
}

/// What a deed comes to in a frame.
pub open spec fn render_answer(deed: RenderDeed, input: FrameInput) -> RenderEvent {
    match deed {
        RenderDeed::TakeReadySignal => RenderEvent::ReadySignal { buffer: Some(input.start) },
        RenderDeed::PollTouch => RenderEvent::Touch(input.reading),
        RenderDeed::Dispatch(_) => RenderEvent::Dispatched,
        RenderDeed::UpdateTimers => RenderEvent::TimersUpdated,
        RenderDeed::ReadScanFlag => RenderEvent::ScanFlag { updated: input.updated },
        RenderDeed::FindWindow => RenderEvent::Window { alive: input.alive },
        RenderDeed::RefreshWindow => RenderEvent::Refreshed,
        RenderDeed::Draw { .. } => RenderEvent::Drawn { rendered: input.rendered },
        RenderDeed::EndFrame { .. } => RenderEvent::Ticked,
    }
}

/// The deeds of the task from `event` up to the end of the frame, and the task then; at most
/// `fuel` of them.
pub open spec fn until_frame_end(
    task: RenderTask,
    event: RenderEvent,
    input: FrameInput,
    fuel: nat,
) -> (RenderTask, Seq<RenderDeed>)
    decreases fuel,
{
    let (next, deed) = render_step(task, event);
    if deed is EndFrame || fuel == 0 {
        (next, seq![deed])
    } else {
        let (last, rest) = until_frame_end(
            next,
            render_answer(deed, input),
            input,
            (fuel - 1) as nat,
        );
        (last, seq![deed] + rest)
    }
}

/// The touch part of a frame.
pub open spec fn touch_deeds(task: RenderTask, input: FrameInput) -> Seq<RenderDeed> {
    let events = events_for(task.touch, input.reading);
    if !task.board.spec_polls_touch() {
        Seq::empty()
    } else if events.len() == 0 {
        seq![RenderDeed::PollTouch]
    } else {
        seq![RenderDeed::PollTouch, RenderDeed::Dispatch(events)]
    }
}

/// The refresh part of a frame.
pub open spec fn refresh_deeds(input: FrameInput) -> Seq<RenderDeed> {
    if !input.updated {
        Seq::empty()
    } else if !input.alive {
        seq![RenderDeed::FindWindow]
    } else {
        seq![RenderDeed::FindWindow, RenderDeed::RefreshWindow]
    }
}

/// All deeds of a frame.
pub open spec fn frame_deeds(task: RenderTask, input: FrameInput) -> Seq<RenderDeed> {
    touch_deeds(task, input) + seq![RenderDeed::UpdateTimers, RenderDeed::ReadScanFlag]
        + refresh_deeds(input) + seq![
        RenderDeed::Draw { area: area_of(task) },
        frame_end(task.board, task.frame, input.rendered),
    ]
}

/// The task after a frame.
pub open spec fn after_frame(task: RenderTask, input: FrameInput) -> RenderTask {
    RenderTask {
        board: task.board,
        phase: RenderPhase::WaitingForTick,
        frame: next_frame(task.frame),
        touch: if task.board.spec_polls_touch() {
            state_after(task.touch, input.reading)
        } else {
            task.touch
        },
        buffer: task.buffer,
    }
}

/// The task after a series of frames.
pub open spec fn after_frames(task: RenderTask, inputs: Seq<FrameInput>) -> RenderTask
    decreases inputs.len(),
{
    if inputs.len() == 0 {
        task
    } else {
        after_frame(after_frames(task, inputs.drop_last()), inputs.last())
    }
}

/// The outcome of a deed is always something that the task waits for.
pub proof fn law_rendering_is_never_stuck(task: RenderTask, event: RenderEvent, input: FrameInput)
    requires
        render_expects(task.phase, event),
    ensures
        ({
            let (next, deed) = render_step(task, event);
            render_expects(next.phase, render_answer(deed, input))
        }),
{
}

/// Nothing is drawn before the frame buffer is ready: until the signal is given, the task
/// does nothing but look for it.
pub proof fn law_nothing_is_drawn_before_psram_is_ready(task: RenderTask, event: RenderEvent)
    requires
        task.phase == RenderPhase::WaitingForPsram,
        event == (RenderEvent::ReadySignal { buffer: None }),
    ensures
        render_step(task, event) == (task, RenderDeed::TakeReadySignal),
{
}

/// A frame from the answer to its drawing on.
proof fn lemma_after_drawing(task: RenderTask, input: FrameInput, fuel: nat)
    ensures
        until_frame_end(task, RenderEvent::Drawn { rendered: input.rendered }, input, fuel) == (
            RenderTask {
                frame: next_frame(task.frame),
                ..in_phase(task, RenderPhase::WaitingForTick)
            },
            seq![frame_end(task.board, task.frame, input.rendered)],
        ),
{
}

/// A frame from the point on where only drawing is left.
proof fn lemma_drawing(task: RenderTask, event: RenderEvent, input: FrameInput, fuel: nat)
    requires
        fuel >= 1,
        event == (RenderEvent::ScanFlag { updated: false }) || event == (RenderEvent::Window {
            alive: false,
        }) || event == RenderEvent::Refreshed,
    ensures
        until_frame_end(task, event, input, fuel) == (
            RenderTask {
                frame: next_frame(task.frame),
                ..in_phase(task, RenderPhase::WaitingForTick)
            },
            seq![RenderDeed::Draw { area: area_of(task) }, frame_end(task.board, task.frame, input.rendered)],
        ),
{
    let (next, deed) = render_step(task, event);
    lemma_after_drawing(next, input, (fuel - 1) as nat);
    assert(seq![RenderDeed::Draw { area: area_of(task) }] + seq![frame_end(task.board, task.frame, input.rendered)]
        =~= seq![RenderDeed::Draw { area: area_of(task) }, frame_end(task.board, task.frame, input.rendered)]);
}

/// A frame from the answer to the look for the window on.
proof fn lemma_after_find(task: RenderTask, input: FrameInput, fuel: nat)
    requires
        fuel >= 2,
    ensures
        until_frame_end(task, RenderEvent::Window { alive: input.alive }, input, fuel) == (
            RenderTask {
                frame: next_frame(task.frame),
                ..in_phase(task, RenderPhase::WaitingForTick)
            },
            (if input.alive {
                seq![RenderDeed::RefreshWindow]
            } else {
                Seq::empty()
            }) + seq![RenderDeed::Draw { area: area_of(task) }, frame_end(task.board, task.frame, input.rendered)],
        ),
{
    let event = RenderEvent::Window { alive: input.alive };
    let tail = seq![RenderDeed::Draw { area: area_of(task) }, frame_end(task.board, task.frame, input.rendered)];
    if input.alive {
        let (next, deed) = render_step(task, event);
        lemma_drawing(next, RenderEvent::Refreshed, input, (fuel - 1) as nat);
    } else {
        lemma_drawing(task, event, input, fuel);
        assert(Seq::<RenderDeed>::empty() + tail =~= tail);
    }
}

/// A frame from the answer to the look at the scan flag on.
proof fn lemma_after_flag(task: RenderTask, input: FrameInput, fuel: nat)
    requires
        fuel >= 3,
    ensures
        until_frame_end(task, RenderEvent::ScanFlag { updated: input.updated }, input, fuel) == (
            RenderTask {
                frame: next_frame(task.frame),
                ..in_phase(task, RenderPhase::WaitingForTick)
            },
            refresh_deeds(input) + seq![
                RenderDeed::Draw { area: area_of(task) },
                frame_end(task.board, task.frame, input.rendered),
            ],
        ),
{
    let event = RenderEvent::ScanFlag { updated: input.updated };
    let tail = seq![RenderDeed::Draw { area: area_of(task) }, frame_end(task.board, task.frame, input.rendered)];
    if input.updated {
        let (next, deed) = render_step(task, event);
        lemma_after_find(next, input, (fuel - 1) as nat);
        if input.alive {
            assert(seq![RenderDeed::FindWindow] + (seq![RenderDeed::RefreshWindow] + tail)
                =~= refresh_deeds(input) + tail);
        } else {
            assert(seq![RenderDeed::FindWindow] + (Seq::<RenderDeed>::empty() + tail)
                =~= refresh_deeds(input) + tail);
        }
    } else {
        lemma_drawing(task, event, input, fuel);
        assert(refresh_deeds(input) + tail =~= tail);
    }
}

/// A frame from the update of the timers on.
proof fn lemma_from_timers(task: RenderTask, input: FrameInput, fuel: nat)
    requires
        fuel >= 4,
    ensures
        until_frame_end(task, RenderEvent::TimersUpdated, input, fuel) == (
            RenderTask {
                frame: next_frame(task.frame),
                ..in_phase(task, RenderPhase::WaitingForTick)
            },
            seq![RenderDeed::ReadScanFlag] + refresh_deeds(input) + seq![
                RenderDeed::Draw { area: area_of(task) },
                frame_end(task.board, task.frame, input.rendered),
            ],
        ),
{
    let (next, deed) = render_step(task, RenderEvent::TimersUpdated);
    lemma_after_flag(next, input, (fuel - 1) as nat);
    let tail = seq![RenderDeed::Draw { area: area_of(task) }, frame_end(task.board, task.frame, input.rendered)];
    assert(seq![RenderDeed::ReadScanFlag] + (refresh_deeds(input) + tail) =~= seq![
        RenderDeed::ReadScanFlag,
    ] + refresh_deeds(input) + tail);
}

/// A frame from its first deed on, which finds the task as `task`.
proof fn lemma_whole_frame(before: RenderTask, task: RenderTask, event: RenderEvent, input: FrameInput)
    requires
        render_step(before, event) == first_step(task),
    ensures
        until_frame_end(before, event, input, 8) == (
            after_frame(task, input),
            frame_deeds(task, input),
        ),
{
    let (next, deed) = first_step(task);
    let tail = seq![RenderDeed::ReadScanFlag] + refresh_deeds(input) + seq![
        RenderDeed::Draw { area: area_of(task) },
        frame_end(task.board, task.frame, input.rendered),
    ];
    if task.board.spec_polls_touch() {
        let events = events_for(task.touch, input.reading);
        let (second, deed2) = render_step(next, RenderEvent::Touch(input.reading));
        if events.len() > 0 {
            let (third, deed3) = render_step(second, RenderEvent::Dispatched);
            lemma_from_timers(third, input, 5);
            assert(until_frame_end(second, RenderEvent::Dispatched, input, 6).1 == seq![
                RenderDeed::UpdateTimers,
            ] + tail);
            assert(until_frame_end(next, RenderEvent::Touch(input.reading), input, 7).1 == seq![
                RenderDeed::Dispatch(events),
            ] + (seq![RenderDeed::UpdateTimers] + tail));
            assert(seq![RenderDeed::PollTouch] + (seq![RenderDeed::Dispatch(events)] + (seq![
                RenderDeed::UpdateTimers,
            ] + tail)) =~= frame_deeds(task, input));
        } else {
            lemma_from_timers(second, input, 6);
            assert(until_frame_end(next, RenderEvent::Touch(input.reading), input, 7).1 == seq![
                RenderDeed::UpdateTimers,
            ] + tail);
            assert(seq![RenderDeed::PollTouch] + (seq![RenderDeed::UpdateTimers] + tail)
                =~= frame_deeds(task, input));
        }
    } else {
        lemma_from_timers(next, input, 7);
        assert(seq![RenderDeed::UpdateTimers] + tail =~= frame_deeds(task, input));
    }
}

/// A frame that begins with a tick does exactly this, in this order: poll the touch
/// controller and dispatch its events, if the board has one and there are any; update the
/// timers; look at the scan flag and refresh the window if it is set and the window exists;
/// draw, once; and report what is due. It counts one frame.
pub proof fn law_frame(task: RenderTask, input: FrameInput)
    requires
        task.phase == RenderPhase::WaitingForTick,
    ensures
        until_frame_end(task, RenderEvent::Ticked, input, 8) == (
            after_frame(task, input),
            frame_deeds(task, input),
        ),
{
    lemma_whole_frame(task, task, RenderEvent::Ticked, input);
}

/// The first frame does what every other does, once the frame buffer is ready.
pub proof fn law_first_frame(task: RenderTask, start: usize, input: FrameInput)
    requires
        task.phase == RenderPhase::WaitingForPsram,
    ensures
        until_frame_end(task, RenderEvent::ReadySignal { buffer: Some(start) }, input, 8) == (
            after_frame(with_buffer(task, start), input),
            frame_deeds(with_buffer(task, start), input),
        ),
{
    let event = RenderEvent::ReadySignal { buffer: Some(start) };
    lemma_whole_frame(task, with_buffer(task, start), event, input);
}

/// A board that does not wait for a frame buffer begins with a frame like every other.
pub proof fn law_first_frame_without_psram(board: Board, input: FrameInput)
    requires
        !board.spec_waits_for_psram(),
    ensures
        ({
            let (task, deed) = render_start(board);
            let (last, deeds) = until_frame_end(task, render_answer(deed, input), input, 7);
            &&& deed == RenderDeed::UpdateTimers
            &&& last == after_frame(idle_task(board), input)
            &&& seq![deed] + deeds == frame_deeds(idle_task(board), input)
        }),
{
    let (task, deed) = render_start(board);
    lemma_from_timers(task, input, 7);
    let (last, deeds) = until_frame_end(task, RenderEvent::TimersUpdated, input, 7);
    assert(seq![deed] + deeds =~= frame_deeds(idle_task(board), input));
}

/// The areas that a series of deeds draws into.
pub open spec fn areas_in(deeds: Seq<RenderDeed>) -> Seq<Option<DrawArea>>
    decreases deeds.len(),
{
    if deeds.len() == 0 {
        Seq::empty()
    } else {
        areas_in(deeds.drop_last()) + (match deeds.last() {
            RenderDeed::Draw { area } => seq![area],
            _ => Seq::empty(),
        })
    }
}

/// Deeds other than drawing draw nothing.
proof fn lemma_nothing_drawn(deeds: Seq<RenderDeed>)
    requires
        forall|i: int| 0 <= i < deeds.len() ==> !(#[trigger] deeds[i] is Draw),
    ensures
        areas_in(deeds) == Seq::<Option<DrawArea>>::empty(),
    decreases deeds.len(),
{
    if deeds.len() > 0 {
        lemma_nothing_drawn(deeds.drop_last());
        assert(areas_in(deeds) =~= Seq::<Option<DrawArea>>::empty());
    }
}

/// Drawing once, right before the end, draws into that area.
proof fn lemma_last_drawing(head: Seq<RenderDeed>, area: Option<DrawArea>, end: RenderDeed)
    requires
        end is EndFrame,
        areas_in(head).len() == 0,
    ensures
        areas_in(head + seq![RenderDeed::Draw { area }, end]) == seq![area],
{
    let all = head + seq![RenderDeed::Draw { area }, end];
    assert(all.last() == end);
    let drawn = all.drop_last();
    assert(drawn.last() == (RenderDeed::Draw { area }));
    assert(drawn.drop_last() =~= head);
    assert(areas_in(drawn) =~= seq![area]);
    assert(areas_in(all) =~= areas_in(drawn));
}

/// A frame draws once.
proof fn lemma_one_drawing(task: RenderTask, input: FrameInput)
    ensures
        areas_in(frame_deeds(task, input)) == seq![area_of(task)],
{
    let head = touch_deeds(task, input) + seq![RenderDeed::UpdateTimers, RenderDeed::ReadScanFlag]
        + refresh_deeds(input);
    let end = frame_end(task.board, task.frame, input.rendered);
    assert forall|i: int| 0 <= i < head.len() implies !(#[trigger] head[i] is Draw) by {
        let n = touch_deeds(task, input).len() as int;
        if i < n {
            assert(head[i] == touch_deeds(task, input)[i]);
        } else if i < n + 2 {
            assert(head[i] == seq![RenderDeed::UpdateTimers, RenderDeed::ReadScanFlag][i - n]);
        } else {
            assert(head[i] == refresh_deeds(input)[i - n - 2]);
        }
    }
    lemma_nothing_drawn(head);
    lemma_last_drawing(head, area_of(task), end);
}

/// A frame draws exactly once. With a frame buffer it draws into all of it: width times
/// height pixels from the address announced on, with the width as stride.
pub proof fn law_frame_draws_the_whole_buffer_once(task: RenderTask, input: FrameInput)
    requires
        task.phase == RenderPhase::WaitingForTick,
    ensures
        ({
            let (_, deeds) = until_frame_end(task, RenderEvent::Ticked, input, 8);
            &&& areas_in(deeds).len() == 1
            &&& task.buffer is None ==> areas_in(deeds)[0] is None
            &&& task.buffer matches Some(start) ==> {
                &&& areas_in(deeds)[0] matches Some(area)
                &&& area.start == start
                &&& area.pixels == task.board.spec_h_res() * task.board.spec_v_res()
                &&& area.stride == task.board.spec_h_res()
            }
        }),
{
    law_frame(task, input);
    lemma_one_drawing(task, input);
}

/// The areas that a series of frames draws into.
pub open spec fn drawn(task: RenderTask, inputs: Seq<FrameInput>) -> Seq<Option<DrawArea>>
    decreases inputs.len(),
{
    if inputs.len() == 0 {
        Seq::empty()
    } else {
        let before = inputs.drop_last();
        drawn(task, before) + areas_in(frame_deeds(after_frames(task, before), inputs.last()))
    }
}

/// From the announcement of the frame buffer on, every frame draws once, into the whole
/// of that buffer.
pub proof fn law_every_frame_draws_into_the_announced_buffer(
    task: RenderTask,
    start: usize,
    inputs: Seq<FrameInput>,
)
    ensures
        after_frames(with_buffer(task, start), inputs).buffer == Some(start),
        drawn(with_buffer(task, start), inputs) == Seq::new(
            inputs.len(),
            |i: int| Some(whole_buffer(task.board, start)),
        ),
    decreases inputs.len(),
{
    let ready = with_buffer(task, start);
    let areas = Seq::new(inputs.len(), |i: int| Some(whole_buffer(task.board, start)));
    if inputs.len() > 0 {
        let before = inputs.drop_last();
        law_every_frame_draws_into_the_announced_buffer(task, start, before);
        law_frames_are_counted(ready, before);
        lemma_one_drawing(after_frames(ready, before), inputs.last());
    }
    assert(drawn(ready, inputs) =~= areas);
}

/// Frames are counted without a gap, modulo 2^32, and the board never changes.
pub proof fn law_frames_are_counted(task: RenderTask, inputs: Seq<FrameInput>)
    ensures
        after_frames(task, inputs).frame == (task.frame + inputs.len()) % 0x1_0000_0000,
        after_frames(task, inputs).board == task.board,
    decreases inputs.len(),
{
    if inputs.len() > 0 {
        law_frames_are_counted(task, inputs.drop_last());
    }
}

/// On a board that polls touch, the touch state after a series of frames is what the
/// readings of those frames come to, whatever else happened in them.
pub proof fn law_touch_sees_every_reading(task: RenderTask, inputs: Seq<FrameInput>)
    requires
        task.board.spec_polls_touch(),
    ensures
        after_frames(task, inputs).touch == state_after_all(
            task.touch,
            inputs.map_values(|i: FrameInput| i.reading),
        ),
    decreases inputs.len(),
{
    let readings = inputs.map_values(|i: FrameInput| i.reading);
    if inputs.len() > 0 {
        let before = inputs.drop_last();
        law_touch_sees_every_reading(task, before);
        law_frames_are_counted(task, before);
        assert(readings.drop_last() =~= before.map_values(|i: FrameInput| i.reading));
    }
}

/// The events that a series of deeds dispatches.
pub open spec fn events_in(deeds: Seq<RenderDeed>) -> Seq<PointerEvent>
    decreases deeds.len(),
{
    if deeds.len() == 0 {
        Seq::empty()
    } else {
        events_in(deeds.drop_last()) + (match deeds.last() {
            RenderDeed::Dispatch(events) => events,
            _ => Seq::empty(),
        })
    }
}

/// The events that a series of frames dispatches.
pub open spec fn dispatched(task: RenderTask, inputs: Seq<FrameInput>) -> Seq<PointerEvent>
    decreases inputs.len(),
{
    if inputs.len() == 0 {
        Seq::empty()
    } else {
        let before = inputs.drop_last();
        dispatched(task, before) + events_in(
            frame_deeds(after_frames(task, before), inputs.last()),
        )
    }
}

/// Deeds other than dispatching dispatch nothing.
proof fn lemma_silent_deeds(a: Seq<RenderDeed>, b: Seq<RenderDeed>)
    requires
        forall|i: int| 0 <= i < b.len() ==> !(#[trigger] b[i] is Dispatch),
    ensures
        events_in(a + b) == events_in(a),
    decreases b.len(),
{
    if b.len() == 0 {
        assert(a + b =~= a);
    } else {
        assert((a + b).drop_last() =~= a + b.drop_last());
        assert((a + b).last() == b[b.len() - 1]);
        lemma_silent_deeds(a, b.drop_last());
        assert(events_in(a + b) =~= events_in(a));
    }
}

/// A frame dispatches the events of its reading.
proof fn lemma_frame_events(task: RenderTask, input: FrameInput)
    requires
        task.board.spec_polls_touch(),
    ensures
        events_in(frame_deeds(task, input)) == events_for(task.touch, input.reading),
{
    let head = touch_deeds(task, input);
    let rest = seq![RenderDeed::UpdateTimers, RenderDeed::ReadScanFlag] + refresh_deeds(input)
        + seq![RenderDeed::Draw { area: area_of(task) }, frame_end(task.board, task.frame, input.rendered)];
    assert(frame_deeds(task, input) =~= head + rest);
    lemma_silent_deeds(head, rest);
    let events = events_for(task.touch, input.reading);
    reveal_with_fuel(events_in, 3);
    if events.len() == 0 {
        assert(head.drop_last() =~= Seq::<RenderDeed>::empty());
        assert(events_in(head) =~= events);
    } else {
        assert(head.drop_last() =~= seq![RenderDeed::PollTouch]);
        assert(head.drop_last().drop_last() =~= Seq::<RenderDeed>::empty());
        assert(events_in(head) =~= events);
    }
}

/// On a board that polls touch, the events dispatched over a series of frames are those of
/// the readings of these frames, in order.
pub proof fn law_dispatched_events_follow_readings(task: RenderTask, inputs: Seq<FrameInput>)
    requires
        task.board.spec_polls_touch(),
    ensures
        dispatched(task, inputs) == events_for_all(
            task.touch,
            inputs.map_values(|i: FrameInput| i.reading),
        ),
    decreases inputs.len(),
{
    let readings = inputs.map_values(|i: FrameInput| i.reading);
    if inputs.len() > 0 {
        let before = inputs.drop_last();
        law_dispatched_events_follow_readings(task, before);
        law_touch_sees_every_reading(task, before);
        law_frames_are_counted(task, before);
        lemma_frame_events(after_frames(task, before), inputs.last());
        assert(readings.drop_last() =~= before.map_values(|i: FrameInput| i.reading));
    }
}

/// On a board that polls touch, the window sees complete gestures only, however frames,
/// touch readings, scan results and the window itself come and go.
pub proof fn law_window_sees_gestures(task: RenderTask, inputs: Seq<FrameInput>)
    requires
        task.board.spec_polls_touch(),
        task.touch == untouched(),
    ensures
        pointer_after_all(Pointer::Away, dispatched(task, inputs)) == Some(
            pointer_in(after_frames(task, inputs).touch),
        ),
{
    law_dispatched_events_follow_readings(task, inputs);
    law_touch_sees_every_reading(task, inputs);
    law_events_form_gestures(inputs.map_values(|i: FrameInput| i.reading));
}

/// What a frame does, deed by deed, on each board. The LCD-EV-Board polls touch first and
/// dispatches at once what came of it; the others poll nothing. The timers are updated once,
/// before the scan flag is looked at. Only if the flag is set is the window looked for, and
/// only if it is there is it asked to refresh, right before drawing. Drawing comes once,
/// into the whole frame buffer where there is one, and the frame ends after it.
pub proof fn law_order_of_a_frame(task: RenderTask, input: FrameInput)
    requires
        task.phase == RenderPhase::WaitingForTick,
    ensures
        ({
            let (next, deeds) = until_frame_end(task, RenderEvent::Ticked, input, 8);
            let polls = task.board == Board::LcdEv;
            let events = events_for(task.touch, input.reading);
            let timers: int = if !polls {
                0
            } else if events.len() == 0 {
                1
            } else {
                2
            };
            let draw: int = if !input.updated {
                timers + 2
            } else if !input.alive {
                timers + 3
            } else {
                timers + 4
            };
            &&& deeds.len() == draw + 2
            &&& polls ==> deeds[0] == RenderDeed::PollTouch
            &&& timers == 2 ==> deeds[1] == RenderDeed::Dispatch(events)
            &&& deeds[timers] == RenderDeed::UpdateTimers
            &&& deeds[timers + 1] == RenderDeed::ReadScanFlag
            &&& input.updated ==> deeds[timers + 2] == RenderDeed::FindWindow
            &&& input.updated && input.alive ==> deeds[draw - 1] == RenderDeed::RefreshWindow
            &&& deeds[draw] is Draw
            &&& task.buffer is None ==> deeds[draw] == (RenderDeed::Draw { area: None })
            &&& task.buffer matches Some(start) ==> deeds[draw] == (RenderDeed::Draw {
                area: Some(
                    DrawArea {
                        start,
                        pixels: if polls {
                            230_400
                        } else {
                            76_800
                        },
                        stride: if polls {
                            480
                        } else {
                            320
                        },
                    },
                ),
            })
            &&& deeds[draw + 1] is EndFrame
            &&& next.board == task.board
            &&& next.buffer == task.buffer
            &&& next.phase == RenderPhase::WaitingForTick
            &&& polls ==> next.touch == state_after(task.touch, input.reading)
            &&& !polls ==> next.touch == task.touch
            &&& next.frame == if task.frame == 0xFFFF_FFFF {
                0
            } else {
                task.frame + 1
            }
        }),
{
    law_frame(task, input);
    law_panel_sizes(task.board);
}

/// What the end of a frame reports, on each board. The LCD-EV-Board reports every frame that
/// was rendered, the others every sixtieth, counted from zero; a frame that was not rendered
/// is not reported as one. Whether or not it was, the LCD-EV-Board reports that it is alive
/// when 1800 more frames are done, the others when 300 are. Frames are 16 ms apart.
pub proof fn law_reports_of_a_frame(task: RenderTask, rendered: bool)
    requires
        task.phase == RenderPhase::Drawing,
    ensures
        ({
            let (next, deed) = render_step(task, RenderEvent::Drawn { rendered });
            let brief = task.board == Board::LcdEv;
            let done: u32 = if task.frame == 0xFFFF_FFFF {
                0
            } else {
                (task.frame + 1) as u32
            };
            &&& next.frame == done
            &&& next.phase == RenderPhase::WaitingForTick
            &&& deed == (RenderDeed::EndFrame {
                rendered: if rendered && (brief || task.frame % 60 == 0) {
                    Some(task.frame)
                } else {
                    None
                },
                alive: if brief && done % 1800 == 0 || !brief && done % 300 == 0 {
                    Some(done)
                } else {
                    None
                },
                period_ms: 16,
            })
        }),
{
}

/// How rendering begins, on each board: at frame zero, untouched and without a frame buffer.
/// The Box-3 goes on to its first frame; the others look for the signal that the frame
/// buffer is ready.
pub proof fn law_beginning_of_rendering(board: Board)
    ensures
        ({
            let (task, deed) = render_start(board);
            &&& task.board == board
            &&& task.frame == 0
            &&& task.touch.touch is None
            &&& task.buffer is None
            &&& board == Board::Box3 ==> deed == RenderDeed::UpdateTimers && task.phase
                == RenderPhase::UpdatingTimers
            &&& board != Board::Box3 ==> deed == RenderDeed::TakeReadySignal && task.phase
                == RenderPhase::WaitingForPsram
        }),
{
}

/// The signal that the frame buffer is ready begins the first frame with exactly that buffer,
/// and changes nothing else.
pub proof fn law_ready_signal_gives_the_buffer(task: RenderTask, start: usize)
    requires
        task.phase == RenderPhase::WaitingForPsram,
    ensures
        ({
            let (next, deed) = render_step(
                task,
                RenderEvent::ReadySignal { buffer: Some(start) },
            );
            &&& next.buffer == Some(start)
            &&& next.board == task.board && next.frame == task.frame && next.touch == task.touch
            &&& task.board == Board::LcdEv ==> deed == RenderDeed::PollTouch
            &&& task.board != Board::LcdEv ==> deed == RenderDeed::UpdateTimers
        }),
{
}

/// An action is seen with all that it holds.
pub proof fn law_action_is_seen_whole(action: RenderAction)
    ensures
        action matches RenderAction::Dispatch(events) ==> action@ == RenderDeed::Dispatch(events@),
        action matches RenderAction::Draw { area } ==> action@ == (RenderDeed::Draw { area }),
        action matches RenderAction::EndFrame { rendered, alive, period_ms } ==> action@ == (
        RenderDeed::EndFrame { rendered, alive, period_ms }),
        action is TakeReadySignal <==> action@ is TakeReadySignal,
        action is PollTouch <==> action@ is PollTouch,
        action is UpdateTimers <==> action@ is UpdateTimers,
        action is ReadScanFlag <==> action@ is ReadScanFlag,
        action is FindWindow <==> action@ is FindWindow,
        action is RefreshWindow <==> action@ is RefreshWindow,
{
}

} // verus!
