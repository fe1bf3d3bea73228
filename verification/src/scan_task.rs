//! The task that scans for WiFi networks.
use crate::board::{Board, LogLevel, MAX_SCAN_RESULTS, RADIO_SETTLE_SECS, SCAN_PAUSE_SECS};
use crate::scan_report::AccessPoint;
#[allow(unused_imports)]
use crate::scan_results::{after_publish, refreshed_list, SharedScan};
use vstd::prelude::*;

verus! {

/// What the scan task waits for.
pub enum ScanPhase {
    Querying,
    Configuring,
    Starting,
    Settling,
    Scanning,
    /// The lock on the shared results, to publish these access points.
    Locking(Vec<AccessPoint>),
    Publishing,
    Pausing,
}

/// The scan task.
pub struct ScanTask {
    pub board: Board,
    pub phase: ScanPhase,
}

/// How the radio is set up.
#[derive(Clone, Copy, Debug, PartialEq, Eq, Structural)]
pub enum RadioConfig {
    /// As a client, with nothing but defaults.
    DefaultClient,
}

/// What the scan task wants done. An action with `report_failure` set reports first that
/// what came before it failed, at the level of the board.
pub enum ScanAction {
    /// Ask the radio for its capabilities and report them at this level; then report the
    /// heap, if this is wanted.
    QueryCapabilities { level: LogLevel, report_heap: bool },
    /// Configure the radio.
    Configure { config: RadioConfig },
    /// Start the radio.
    Start { report_failure: bool },
    /// Sleep.
    Sleep { secs: u64, report_failure: bool },
    /// Scan, for at most `max` access points and otherwise as the radio does by default.
    Scan { max: usize },
    /// Try to lock the shared results.
    TryLock,
    /// Publish these access points, then unlock.
    Publish(Vec<AccessPoint>),
}

/// What came of the last action. The task goes on whether or not the radio could be
/// configured and started.
pub enum ScanEvent {
    Queried,
    Configured { ok: bool },
    Started { ok: bool },
    Slept,
    /// The access points found, or nothing if the scan failed.
    Scanned(Option<Vec<AccessPoint>>),
    Locked { free: bool },
    Published,
}

/// Whether `event` answers what the task waits for.
pub open spec fn scan_expects(phase: ScanPhase, event: ScanEvent) -> bool {
    match phase {
        ScanPhase::Querying => event is Queried,
        ScanPhase::Configuring => event is Configured,
        ScanPhase::Starting => event is Started,
        ScanPhase::Settling => event is Slept,
        ScanPhase::Scanning => event is Scanned,
        ScanPhase::Locking(_) => event is Locked,
        ScanPhase::Publishing => event is Published,
        ScanPhase::Pausing => event is Slept,
    }
}

/// Whether the scan task of `board` publishes the outcome of a scan at all.
pub open spec fn is_published(board: Board, found: Option<Vec<AccessPoint>>) -> bool {
    found matches Some(list) && (list@.len() > 0 || !board.spec_keeps_results_on_empty_scan())
}

/// The task before anything was done, and its first action.
pub open spec fn scan_start(board: Board) -> (ScanTask, ScanAction) {
    (
        ScanTask { board, phase: ScanPhase::Querying },
        ScanAction::QueryCapabilities {
            level: board.spec_capabilities_level(),
            report_heap: board.spec_reports_heap(),
        },
    )
}

/// The task on its way to the next scan.
pub open spec fn scan_pause(board: Board, report_failure: bool) -> (ScanTask, ScanAction) {
    (
        ScanTask { board, phase: ScanPhase::Pausing },
        ScanAction::Sleep { secs: 10, report_failure },
    )
}

/// The task after `event`, and what it wants done next.
pub open spec fn scan_step(task: ScanTask, event: ScanEvent) -> (ScanTask, ScanAction) {
    let board = task.board;
    match (task.phase, event) {
        (ScanPhase::Querying, _) => (
            ScanTask { board, phase: ScanPhase::Configuring },
            ScanAction::Configure { config: RadioConfig::DefaultClient },
        ),
        (ScanPhase::Configuring, ScanEvent::Configured { ok }) => (
            ScanTask { board, phase: ScanPhase::Starting },
            ScanAction::Start { report_failure: !ok },
        ),
        (ScanPhase::Starting, ScanEvent::Started { ok }) => (
            ScanTask { board, phase: ScanPhase::Settling },
            ScanAction::Sleep { secs: 2, report_failure: !ok },
        ),
        (ScanPhase::Scanning, ScanEvent::Scanned(found)) => if is_published(board, found) {
            (
                ScanTask { board, phase: ScanPhase::Locking(found->Some_0) },
                ScanAction::TryLock,
            )
        } else {
            scan_pause(board, found is None)
        },
        (ScanPhase::Locking(list), ScanEvent::Locked { free: true }) => (
            ScanTask { board, phase: ScanPhase::Publishing },
            ScanAction::Publish(list),
        ),
        (ScanPhase::Settling, _) | (ScanPhase::Pausing, _) => (
            ScanTask { board, phase: ScanPhase::Scanning },
            ScanAction::Scan { max: 10 },
        ),
        _ => scan_pause(board, false),
    }
}

impl ScanTask {
    /// The task before anything was done, and its first action.
    pub fn start(board: Board) -> (r: (ScanTask, ScanAction))
        ensures
            r == scan_start(board),
            scan_follows(r.0.phase, r.1),
    {
        (
            ScanTask { board, phase: ScanPhase::Querying },
            ScanAction::QueryCapabilities {
                level: board.capabilities_level(),
                report_heap: board.reports_heap(),
            },
        )
    }

    /// The task on its way to the next scan.
    fn pause(board: Board, report_failure: bool) -> (r: (ScanTask, ScanAction))
        ensures
            r == scan_pause(board, report_failure),
    {
        (
            ScanTask { board, phase: ScanPhase::Pausing },
            ScanAction::Sleep { secs: SCAN_PAUSE_SECS, report_failure },
        )
    }

    /// Takes what came of the last action and says what to do next.
    pub fn next(self, event: ScanEvent) -> (r: (ScanTask, ScanAction))
        requires
            scan_expects(self.phase, event),
        ensures
            r == scan_step(self, event),
            scan_follows(r.0.phase, r.1),
    {
        let board: Board = self.board;
        match (self.phase, event) {
            (ScanPhase::Querying, _) => (
                ScanTask { board, phase: ScanPhase::Configuring },
                ScanAction::Configure { config: RadioConfig::DefaultClient },
            ),
            (ScanPhase::Configuring, ScanEvent::Configured { ok }) => (
                ScanTask { board, phase: ScanPhase::Starting },
                ScanAction::Start { report_failure: !ok },
            ),
            (ScanPhase::Starting, ScanEvent::Started { ok }) => (
                ScanTask { board, phase: ScanPhase::Settling },
                ScanAction::Sleep { secs: RADIO_SETTLE_SECS, report_failure: !ok },
            ),
            (ScanPhase::Scanning, ScanEvent::Scanned(None)) => ScanTask::pause(board, true),
            (ScanPhase::Scanning, ScanEvent::Scanned(Some(found))) => {
                if found.len() > 0 || !board.keeps_results_on_empty_scan() {
                    (ScanTask { board, phase: ScanPhase::Locking(found) }, ScanAction::TryLock)
                } else {
                    ScanTask::pause(board, false)
                }
            },
            (ScanPhase::Locking(found), ScanEvent::Locked { free: true }) => (
                ScanTask { board, phase: ScanPhase::Publishing },
                ScanAction::Publish(found),
            ),
            (ScanPhase::Settling, _) | (ScanPhase::Pausing, _) => (
                ScanTask { board, phase: ScanPhase::Scanning },
                ScanAction::Scan { max: MAX_SCAN_RESULTS },
            ),
            _ => ScanTask::pause(board, false),
        }
    }
}

/// Whether a task in `phase` waits for the outcome of `action`.
pub open spec fn scan_follows(phase: ScanPhase, action: ScanAction) -> bool {
    match action {
        ScanAction::QueryCapabilities { .. } => phase is Querying,
        ScanAction::Configure { .. } => phase is Configuring,
        ScanAction::Start { .. } => phase is Starting,
        ScanAction::Sleep { .. } => phase is Settling || phase is Pausing,
        ScanAction::Scan { .. } => phase is Scanning,
        ScanAction::TryLock => phase is Locking,
        ScanAction::Publish(_) => phase is Publishing,
    }
}

/// What the radio and the other tasks do to a scan task.
pub struct ScanInput {
    /// Whether the radio can be configured.
    pub configured: bool,
    /// Whether the radio can be started.
    pub started: bool,
    /// What a scan gives.
    pub found: Option<Vec<AccessPoint>>,
    /// Whether the results can be locked.
    pub free: bool,
}

/// What an action comes to.
pub open spec fn scan_answer(action: ScanAction, input: ScanInput) -> ScanEvent {
    match action {
        ScanAction::QueryCapabilities { .. } => ScanEvent::Queried,
        ScanAction::Configure { .. } => ScanEvent::Configured { ok: input.configured },
        ScanAction::Start { .. } => ScanEvent::Started { ok: input.started },
        ScanAction::Sleep { .. } => ScanEvent::Slept,
        ScanAction::Scan { .. } => ScanEvent::Scanned(input.found),
        ScanAction::TryLock => ScanEvent::Locked { free: input.free },
        ScanAction::Publish(_) => ScanEvent::Published,
    }
}

/// The actions of the task from `event` up to its next scan, and the task then; at most
/// `fuel` of them.
pub open spec fn until_scan(task: ScanTask, event: ScanEvent, input: ScanInput, fuel: nat) -> (
    ScanTask,
    Seq<ScanAction>,
)
    decreases fuel,
{
    let (next, action) = scan_step(task, event);
    if action is Scan || fuel == 0 {
        (next, seq![action])
    } else {
        let (last, rest) = until_scan(next, scan_answer(action, input), input, (fuel - 1) as nat);
        (last, seq![action] + rest)
    }
}

/// What the scan task and the window share, after a series of actions.
pub open spec fn shared_after(s: SharedScan, actions: Seq<ScanAction>) -> SharedScan
    decreases actions.len(),
{
    if actions.len() == 0 {
        s
    } else {
        let before = shared_after(s, actions.drop_last());
        match actions.last() {
            ScanAction::Publish(found) => after_publish(before, found@, true),
            _ => before,
        }
    }
}

/// The outcome of an action is always something that the task waits for: it never ends.
pub proof fn law_scan_task_is_never_stuck(task: ScanTask, event: ScanEvent, input: ScanInput)
    requires
        scan_expects(task.phase, event),
    ensures
        ({
            let (next, action) = scan_step(task, event);
            scan_expects(next.phase, scan_answer(action, input))
        }),
{
}

/// The task configures the radio, starts it, lets it settle for two seconds, and scans,
/// whether or not configuring and starting work; it reports each of the two that fails.
pub proof fn law_scan_task_starts_up(board: Board, input: ScanInput)
    ensures
        until_scan(scan_start(board).0, ScanEvent::Queried, input, 5) == (
            ScanTask { board, phase: ScanPhase::Scanning },
            seq![
                ScanAction::Configure { config: RadioConfig::DefaultClient },
                ScanAction::Start { report_failure: !input.configured },
                ScanAction::Sleep { secs: 2, report_failure: !input.started },
                ScanAction::Scan { max: 10 },
            ],
        ),
{
    reveal_with_fuel(until_scan, 6);
    let (_, actions) = until_scan(scan_start(board).0, ScanEvent::Queried, input, 5);
    assert(actions =~= seq![
        ScanAction::Configure { config: RadioConfig::DefaultClient },
        ScanAction::Start { report_failure: !input.configured },
        ScanAction::Sleep { secs: 2, report_failure: !input.started },
        ScanAction::Scan { max: 10 },
    ]);
}

/// Whatever a scan gives, the task scans again ten seconds later. In between it publishes
/// exactly the access points found, if they are to be published and the results can be
/// locked, and otherwise leaves the results alone. It reports a failed scan, once.
pub proof fn law_scans_repeat(board: Board, input: ScanInput, s: SharedScan)
    ensures
        ({
            let task = ScanTask { board, phase: ScanPhase::Scanning };
            let found = input.found;
            let (last, actions) = until_scan(task, ScanEvent::Scanned(found), input, 4);
            let pause = seq![
                ScanAction::Sleep { secs: 10, report_failure: found is None },
                ScanAction::Scan { max: 10 },
            ];
            let published = is_published(board, found) && input.free;
            &&& last == task
            &&& actions == if published {
                seq![ScanAction::TryLock, ScanAction::Publish(found->Some_0)] + pause
            } else if is_published(board, found) {
                seq![ScanAction::TryLock] + pause
            } else {
                pause
            }
            &&& shared_after(s, actions) == if published {
                SharedScan { results: found->Some_0@, updated: true }
            } else {
                s
            }
        }),
{
    reveal_with_fuel(until_scan, 5);
    reveal_with_fuel(shared_after, 5);
    let task = ScanTask { board, phase: ScanPhase::Scanning };
    let found = input.found;
    let (_, actions) = until_scan(task, ScanEvent::Scanned(found), input, 4);
    let pause = seq![
        ScanAction::Sleep { secs: 10, report_failure: found is None },
        ScanAction::Scan { max: 10 },
    ];
    if !is_published(board, found) {
        assert(actions =~= pause);
        assert(actions.drop_last().drop_last() =~= Seq::<ScanAction>::empty());
    } else if !input.free {
        assert(actions =~= seq![ScanAction::TryLock] + pause);
        assert(actions.drop_last().drop_last().drop_last() =~= Seq::<ScanAction>::empty());
    } else {
        assert(actions =~= seq![ScanAction::TryLock, ScanAction::Publish(found->Some_0)] + pause);
        let first = actions.drop_last().drop_last();
        assert(first =~= seq![ScanAction::TryLock, ScanAction::Publish(found->Some_0)]);
        assert(first.drop_last().drop_last() =~= Seq::<ScanAction>::empty());
    }
}

/// A failed scan changes nothing that the tasks share. It is reported once, and the next
/// scan comes after the same ten seconds as after any other.
pub proof fn law_failed_scan_changes_nothing(board: Board, input: ScanInput, s: SharedScan)
    requires
        input.found is None,
    ensures
        ({
            let task = ScanTask { board, phase: ScanPhase::Scanning };
            let (last, actions) = until_scan(task, ScanEvent::Scanned(None), input, 4);
            &&& last == task
            &&& actions == seq![
                ScanAction::Sleep { secs: 10, report_failure: true },
                ScanAction::Scan { max: 10 },
            ]
            &&& shared_after(s, actions) == s
        }),
{
    law_scans_repeat(board, input, s);
}

/// The task after a series of events, from its beginning.
pub open spec fn scan_task_after(board: Board, events: Seq<ScanEvent>) -> ScanTask
    decreases events.len(),
{
    if events.len() == 0 {
        scan_start(board).0
    } else {
        scan_step(scan_task_after(board, events.drop_last()), events.last()).0
    }
}

/// All actions of the task for a series of events, from its beginning.
pub open spec fn scan_actions(board: Board, events: Seq<ScanEvent>) -> Seq<ScanAction>
    decreases events.len(),
{
    if events.len() == 0 {
        seq![scan_start(board).1]
    } else {
        let before = events.drop_last();
        scan_actions(board, before).push(
            scan_step(scan_task_after(board, before), events.last()).1,
        )
    }
}

/// Whether each event answers the action before it.
pub open spec fn scan_events_fit(board: Board, events: Seq<ScanEvent>) -> bool
    decreases events.len(),
{
    events.len() > 0 ==> {
        let before = events.drop_last();
        &&& scan_events_fit(board, before)
        &&& scan_expects(scan_task_after(board, before).phase, events.last())
    }
}

/// Whether something failed.
pub open spec fn is_failure(event: ScanEvent) -> bool {
    match event {
        ScanEvent::Configured { ok } => !ok,
        ScanEvent::Started { ok } => !ok,
        ScanEvent::Scanned(found) => found is None,
        _ => false,
    }
}

/// Whether an action reports a failure.
pub open spec fn reports_failure(action: ScanAction) -> bool {
    match action {
        ScanAction::Start { report_failure } => report_failure,
        ScanAction::Sleep { report_failure, .. } => report_failure,
        _ => false,
    }
}

/// Every failure of the radio is reported exactly once, by the very next action, and
/// nothing else is reported as one.
pub proof fn law_each_failure_is_reported_once(board: Board, events: Seq<ScanEvent>)
    requires
        scan_events_fit(board, events),
    ensures
        scan_actions(board, events).len() == events.len() + 1,
        !reports_failure(scan_actions(board, events)[0]),
        forall|i: int|
            0 <= i < events.len() ==> reports_failure(
                #[trigger] scan_actions(board, events)[i + 1],
            ) == is_failure(events[i]),
    decreases events.len(),
{
    if events.len() > 0 {
        let before = events.drop_last();
        law_each_failure_is_reported_once(board, before);
        let actions = scan_actions(board, events);
        assert forall|i: int| 0 <= i < events.len() implies reports_failure(
            #[trigger] actions[i + 1],
        ) == is_failure(events[i]) by {
            if i < before.len() {
                assert(actions[i + 1] == scan_actions(board, before)[i + 1]);
                assert(events[i] == before[i]);
            }
        }
    }
}

/// A call on the radio.
pub enum RadioCall {
    Capabilities,
    SetConfig(RadioConfig),
    Start,
    Scan { max: usize },
}

/// The call on the radio that an action makes, if it makes one.
pub open spec fn radio_call(action: ScanAction) -> Option<RadioCall> {
    match action {
        ScanAction::QueryCapabilities { .. } => Some(RadioCall::Capabilities),
        ScanAction::Configure { config } => Some(RadioCall::SetConfig(config)),
        ScanAction::Start { .. } => Some(RadioCall::Start),
        ScanAction::Scan { max } => Some(RadioCall::Scan { max }),
        _ => None,
    }
}

/// The calls on the radio that a series of actions makes, in order.
pub open spec fn radio_calls(actions: Seq<ScanAction>) -> Seq<RadioCall>
    decreases actions.len(),
{
    if actions.len() == 0 {
        Seq::empty()
    } else {
        let before = radio_calls(actions.drop_last());
        match radio_call(actions.last()) {
            Some(call) => before.push(call),
            None => before,
        }
    }
}

/// The call on the radio with this number.
pub open spec fn expected_call(i: int) -> RadioCall {
    if i == 0 {
        RadioCall::Capabilities
    } else if i == 1 {
        RadioCall::SetConfig(RadioConfig::DefaultClient)
    } else if i == 2 {
        RadioCall::Start
    } else {
        RadioCall::Scan { max: 10 }
    }
}

/// Where the task stands after a series of events.
proof fn lemma_where_the_task_stands(board: Board, events: Seq<ScanEvent>)
    requires
        scan_events_fit(board, events),
    ensures
        ({
            let task = scan_task_after(board, events);
            let actions = scan_actions(board, events);
            let n = events.len();
            &&& task.board == board
            &&& actions.len() == n + 1
            &&& scan_follows(task.phase, actions.last())
            &&& n == 0 <==> task.phase is Querying
            &&& n == 1 <==> task.phase is Configuring
            &&& n == 2 <==> task.phase is Starting
            &&& n == 3 <==> task.phase is Settling
            &&& task.phase is Settling ==> actions.last()->secs == 2
            &&& task.phase is Pausing ==> actions.last()->secs == 10
            &&& task.phase is Scanning ==> actions.last() == (ScanAction::Scan { max: 10 })
        }),
    decreases events.len(),
{
    if events.len() > 0 {
        lemma_where_the_task_stands(board, events.drop_last());
    }
}

/// The task asks the radio for its capabilities, sets it up as a client with defaults and
/// starts it, each once and in this order; after that it does nothing with the radio but
/// scan for at most ten access points, over and over.
pub proof fn law_radio_calls(board: Board, events: Seq<ScanEvent>)
    requires
        scan_events_fit(board, events),
    ensures
        ({
            let calls = radio_calls(scan_actions(board, events));
            &&& events.len() <= 2 ==> calls.len() == events.len() + 1
            &&& events.len() == 3 ==> calls.len() == 3
            &&& events.len() >= 4 ==> calls.len() >= 4
            &&& forall|i: int| 0 <= i < calls.len() ==> #[trigger] calls[i] == expected_call(i)
            &&& calls[0] == RadioCall::Capabilities
            &&& calls.len() > 1 ==> calls[1] == RadioCall::SetConfig(RadioConfig::DefaultClient)
            &&& calls.len() > 2 ==> calls[2] == RadioCall::Start
            &&& forall|i: int|
                3 <= i < calls.len() ==> #[trigger] calls[i] == (RadioCall::Scan { max: 10 })
        }),
    decreases events.len(),
{
    let actions = scan_actions(board, events);
    let calls = radio_calls(actions);
    reveal_with_fuel(radio_calls, 2);
    if events.len() == 0 {
        assert(actions.drop_last() =~= Seq::<ScanAction>::empty());
    } else {
        let before = events.drop_last();
        law_radio_calls(board, before);
        lemma_where_the_task_stands(board, before);
        lemma_where_the_task_stands(board, events);
        assert(actions.drop_last() =~= scan_actions(board, before));
    }
}

/// The first scan comes right after the two seconds for which the started radio settles;
/// every later scan comes right after a pause of ten seconds, which begins after the scan
/// before.
pub proof fn law_scans_are_apart(board: Board, events: Seq<ScanEvent>, i: int)
    requires
        scan_events_fit(board, events),
        0 <= i <= events.len(),
        scan_actions(board, events)[i] is Scan,
    ensures
        ({
            let actions = scan_actions(board, events);
            &&& i >= 4
            &&& actions[2] is Start
            &&& actions[i - 1] is Sleep
            &&& actions[i - 1]->secs == if i == 4 {
                2u64
            } else {
                10u64
            }
        }),
    decreases events.len(),
{
    let actions = scan_actions(board, events);
    lemma_where_the_task_stands(board, events);
    if events.len() > 0 {
        let before = events.drop_last();
        lemma_where_the_task_stands(board, before);
        assert(actions.drop_last() =~= scan_actions(board, before));
        if i < events.len() {
            assert(scan_actions(board, before)[i] == actions[i]);
            law_scans_are_apart(board, before, i);
        } else {
            let task = scan_task_after(board, before);
            assert(task.phase is Settling || task.phase is Pausing);
            assert(actions[i - 1] == scan_actions(board, before).last());
            lemma_third_action(board, events);
        }
    }
}

/// The third action starts the radio.
proof fn lemma_third_action(board: Board, events: Seq<ScanEvent>)
    requires
        scan_events_fit(board, events),
        events.len() >= 2,
    ensures
        scan_actions(board, events)[2] is Start,
    decreases events.len(),
{
    lemma_where_the_task_stands(board, events);
    let before = events.drop_last();
    lemma_where_the_task_stands(board, before);
    if events.len() > 2 {
        lemma_third_action(board, before);
        assert(scan_actions(board, events)[2] == scan_actions(board, before)[2]);
    }
}

/// On every board, access points that a scan found are stored for the window: the task asks
/// for the lock with exactly these access points, and publishes exactly them if it gets it.
/// The next refresh then shows their names. If it does not get the lock, it leaves what is
/// stored alone. Either way the next scan comes ten seconds later, and nothing is reported
/// as a failure.
pub proof fn law_found_networks_reach_the_window(
    board: Board,
    list: Vec<AccessPoint>,
    s: SharedScan,
    i: int,
)
    requires
        list@.len() > 0,
        0 <= i < list@.len(),
    ensures
        ({
            let scanned = scan_step(
                ScanTask { board, phase: ScanPhase::Scanning },
                ScanEvent::Scanned(Some(list)),
            );
            let locked = scan_step(scanned.0, ScanEvent::Locked { free: true });
            let refused = scan_step(scanned.0, ScanEvent::Locked { free: false });
            let published = scan_step(locked.0, ScanEvent::Published);
            let after = shared_after(s, seq![scanned.1, locked.1, published.1]);
            let pause = ScanAction::Sleep { secs: 10, report_failure: false };
            &&& scanned.0.phase == ScanPhase::Locking(list)
            &&& scanned.1 == ScanAction::TryLock
            &&& locked.1 == ScanAction::Publish(list)
            &&& published.1 == pause
            &&& refused.1 == pause
            &&& published.0.phase is Pausing && refused.0.phase is Pausing
            &&& after.results == list@
            &&& after.updated
            &&& refreshed_list(after, true) is Some
            &&& refreshed_list(after, true)->Some_0.len() == list@.len()
            &&& refreshed_list(after, true)->Some_0[i] == list@[i].ssid@
            &&& shared_after(s, seq![scanned.1, refused.1]) == s
        }),
{
    reveal_with_fuel(shared_after, 4);
    let scanned = scan_step(
        ScanTask { board, phase: ScanPhase::Scanning },
        ScanEvent::Scanned(Some(list)),
    );
    let locked = scan_step(scanned.0, ScanEvent::Locked { free: true });
    let refused = scan_step(scanned.0, ScanEvent::Locked { free: false });
    let published = scan_step(locked.0, ScanEvent::Published);
    let all = seq![scanned.1, locked.1, published.1];
    assert(all.drop_last() =~= seq![scanned.1, locked.1]);
    assert(all.drop_last().drop_last() =~= seq![scanned.1]);
    assert(all.drop_last().drop_last().drop_last() =~= Seq::<ScanAction>::empty());
    let few = seq![scanned.1, refused.1];
    assert(few.drop_last() =~= seq![scanned.1]);
    assert(few.drop_last().drop_last() =~= Seq::<ScanAction>::empty());
}

/// A scan that finds nothing empties what is stored, so that the window says that there are
/// no networks; only on the LCD-EV-Board does it leave the results of the scan before.
pub proof fn law_empty_scan(board: Board, list: Vec<AccessPoint>)
    requires
        list@.len() == 0,
    ensures
        ({
            let (task, action) = scan_step(
                ScanTask { board, phase: ScanPhase::Scanning },
                ScanEvent::Scanned(Some(list)),
            );
            &&& board == Board::LcdEv ==> task.phase is Pausing && action == (ScanAction::Sleep {
                secs: 10,
                report_failure: false,
            })
            &&& board != Board::LcdEv ==> task.phase == ScanPhase::Locking(list) && action
                == ScanAction::TryLock
            &&& board != Board::LcdEv ==> scan_step(task, ScanEvent::Locked { free: true }).1
                == ScanAction::Publish(list)
        }),
{
}

/// The first thing that the task does, on each board.
pub proof fn law_first_action(board: Board)
    ensures
        scan_start(board).0.board == board,
        scan_start(board).1 == (ScanAction::QueryCapabilities {
            level: if board == Board::LcdEv {
                LogLevel::Debug
            } else {
                LogLevel::Info
            },
            report_heap: board == Board::Box3,
        }),
{
}

} // verus!
