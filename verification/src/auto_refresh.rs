//! The task that keeps the list of networks in the window up to date.
use crate::board::REFRESH_PERIOD_SECS;
use vstd::prelude::*;

verus! {

/// What the refresh task learns.
#[derive(Clone, Copy, Debug, PartialEq, Eq, Structural)]
pub enum AutoRefreshEvent {
    /// The task begins.
    Begin,
    /// A period is over.
    Ticked,
    /// Whether new scan results are marked.
    ScanFlag { updated: bool },
    /// Whether the window still exists.
    Window { alive: bool },
    /// The window was asked to refresh.
    Refreshed,
}

/// What the refresh task does next.
#[derive(Clone, Copy, Debug, PartialEq, Eq, Structural)]
pub enum AutoRefreshAction {
    /// Wait for the end of the period.
    Wait { period_secs: u64 },
    /// Look whether new scan results are marked.
    ReadScanFlag,
    /// Look whether the window still exists.
    FindWindow,
    /// Ask the window to refresh its list.
    RefreshWindow,
    /// End the task.
    Stop,
}

/// What the refresh task does after `event`.
pub open spec fn auto_refresh_step(event: AutoRefreshEvent) -> AutoRefreshAction {
    match event {
        AutoRefreshEvent::Begin => AutoRefreshAction::Wait { period_secs: 2 },
        AutoRefreshEvent::Ticked => AutoRefreshAction::ReadScanFlag,
        AutoRefreshEvent::ScanFlag { updated: true } => AutoRefreshAction::FindWindow,
        AutoRefreshEvent::ScanFlag { updated: false } => AutoRefreshAction::Wait { period_secs: 2 },
        AutoRefreshEvent::Window { alive: true } => AutoRefreshAction::RefreshWindow,
        AutoRefreshEvent::Window { alive: false } => AutoRefreshAction::Stop,
        AutoRefreshEvent::Refreshed => AutoRefreshAction::Wait { period_secs: 2 },
    }
}

/// What the refresh task does after `event`.
pub fn next_auto_refresh(event: AutoRefreshEvent) -> (action: AutoRefreshAction)
    ensures
        action == auto_refresh_step(event),
{
    match event {
        AutoRefreshEvent::Ticked => AutoRefreshAction::ReadScanFlag,
        AutoRefreshEvent::ScanFlag { updated: true } => AutoRefreshAction::FindWindow,
        AutoRefreshEvent::Window { alive: true } => AutoRefreshAction::RefreshWindow,
        AutoRefreshEvent::Window { alive: false } => AutoRefreshAction::Stop,
        _ => AutoRefreshAction::Wait { period_secs: REFRESH_PERIOD_SECS },
    }
}

/// What one period finds: whether results are marked as new, and whether the window exists.
pub struct Period {
    pub updated: bool,
    pub alive: bool,
}

/// What an action comes to in a period.
pub open spec fn auto_refresh_answer(action: AutoRefreshAction, p: Period) -> AutoRefreshEvent {
    match action {
        AutoRefreshAction::Wait { .. } => AutoRefreshEvent::Ticked,
        AutoRefreshAction::ReadScanFlag => AutoRefreshEvent::ScanFlag { updated: p.updated },
        AutoRefreshAction::FindWindow => AutoRefreshEvent::Window { alive: p.alive },
        AutoRefreshAction::RefreshWindow => AutoRefreshEvent::Refreshed,
        AutoRefreshAction::Stop => AutoRefreshEvent::Begin,
    }
}

/// The actions of the refresh task from `event` up to the end of the period; at most `fuel`
/// of them.
pub open spec fn period_actions(event: AutoRefreshEvent, p: Period, fuel: nat) -> Seq<
    AutoRefreshAction,
>
    decreases fuel,
{
    let action = auto_refresh_step(event);
    if action is Wait || action is Stop || fuel == 0 {
        seq![action]
    } else {
        seq![action] + period_actions(auto_refresh_answer(action, p), p, (fuel - 1) as nat)
    }
}

/// In each period the refresh task asks the window to refresh exactly if results are marked
/// as new and the window exists; it ends exactly if they are and it does not.
pub proof fn law_refresh_period(p: Period)
    ensures
        period_actions(AutoRefreshEvent::Ticked, p, 3) == if !p.updated {
            seq![AutoRefreshAction::ReadScanFlag, AutoRefreshAction::Wait { period_secs: 2 }]
        } else if p.alive {
            seq![
                AutoRefreshAction::ReadScanFlag,
                AutoRefreshAction::FindWindow,
                AutoRefreshAction::RefreshWindow,
                AutoRefreshAction::Wait { period_secs: 2 },
            ]
        } else {
            seq![
                AutoRefreshAction::ReadScanFlag,
                AutoRefreshAction::FindWindow,
                AutoRefreshAction::Stop,
            ]
        },
{
    reveal_with_fuel(period_actions, 4);
    let actions = period_actions(AutoRefreshEvent::Ticked, p, 3);
    if !p.updated {
        assert(actions =~= seq![
            AutoRefreshAction::ReadScanFlag,
            AutoRefreshAction::Wait { period_secs: 2 },
        ]);
    } else if p.alive {
        assert(actions =~= seq![
            AutoRefreshAction::ReadScanFlag,
            AutoRefreshAction::FindWindow,
            AutoRefreshAction::RefreshWindow,
            AutoRefreshAction::Wait { period_secs: 2 },
        ]);
    } else {
        assert(actions =~= seq![
            AutoRefreshAction::ReadScanFlag,
            AutoRefreshAction::FindWindow,
            AutoRefreshAction::Stop,
        ]);
    }
}

/// Whether a series of actions has ended the task.
pub open spec fn has_stopped(actions: Seq<AutoRefreshAction>) -> bool {
    actions.len() > 0 && actions.last() is Stop
}

/// All actions of the refresh task over a series of periods. A task that has ended does
/// nothing more.
pub open spec fn refresh_run(periods: Seq<Period>) -> Seq<AutoRefreshAction>
    decreases periods.len(),
{
    if periods.len() == 0 {
        seq![auto_refresh_step(AutoRefreshEvent::Begin)]
    } else {
        let before = refresh_run(periods.drop_last());
        if has_stopped(before) {
            before
        } else {
            before + period_actions(AutoRefreshEvent::Ticked, periods.last(), 3)
        }
    }
}

/// Whether results are marked as new in this period and there is no window to show them.
pub open spec fn is_orphaned(p: Period) -> bool {
    p.updated && !p.alive
}

/// The task ends exactly in the first period in which results are marked as new and the
/// window is gone: it is still running if there was no such period, and what comes after
/// that period makes no difference.
pub proof fn law_refreshing_ends_without_a_window(periods: Seq<Period>)
    ensures
        has_stopped(refresh_run(periods)) <==> exists|i: int|
            0 <= i < periods.len() && #[trigger] is_orphaned(periods[i]),
        forall|i: int|
            0 <= i < periods.len() && #[trigger] is_orphaned(periods[i]) ==> refresh_run(periods)
                == refresh_run(periods.take(i + 1)),
    decreases periods.len(),
{
    if periods.len() > 0 {
        let before = periods.drop_last();
        let p = periods.last();
        law_refreshing_ends_without_a_window(before);
        law_refresh_period(p);
        assert(periods.take(periods.len() as int) =~= periods);
        assert forall|i: int| 0 <= i < before.len() && is_orphaned(periods[i]) implies refresh_run(
            periods,
        ) == refresh_run(periods.take(i + 1)) by {
            assert(is_orphaned(before[i]));
            assert(before.take(i + 1) =~= periods.take(i + 1));
        }
        if exists|i: int| 0 <= i < before.len() && #[trigger] is_orphaned(before[i]) {
            let i = choose|i: int| 0 <= i < before.len() && #[trigger] is_orphaned(before[i]);
            assert(is_orphaned(periods[i]));
        } else {
            assert forall|i: int| 0 <= i < before.len() implies !#[trigger] is_orphaned(
                periods[i],
            ) by {
                assert(!is_orphaned(before[i]));
            }
            let actions = period_actions(AutoRefreshEvent::Ticked, p, 3);
            assert(refresh_run(periods).last() == actions.last());
            if is_orphaned(p) {
                assert(is_orphaned(periods[periods.len() - 1]));
            }
        }
    }
}

/// How many refreshes a series of actions asks for.
pub open spec fn refreshes(actions: Seq<AutoRefreshAction>) -> nat
    decreases actions.len(),
{
    if actions.len() == 0 {
        0
    } else {
        refreshes(actions.drop_last()) + if actions.last() is RefreshWindow {
            1nat
        } else {
            0nat
        }
    }
}

/// In how many periods results were marked as new.
pub open spec fn marked(periods: Seq<Period>) -> nat
    decreases periods.len(),
{
    if periods.len() == 0 {
        0
    } else {
        marked(periods.drop_last()) + if periods.last().updated {
            1nat
        } else {
            0nat
        }
    }
}

/// Refreshes add up.
proof fn lemma_refreshes_concat(a: Seq<AutoRefreshAction>, b: Seq<AutoRefreshAction>)
    ensures
        refreshes(a + b) == refreshes(a) + refreshes(b),
    decreases b.len(),
{
    if b.len() == 0 {
        assert(a + b =~= a);
    } else {
        assert((a + b).drop_last() =~= a + b.drop_last());
        lemma_refreshes_concat(a, b.drop_last());
    }
}

/// While the window is there whenever results are marked as new, it is asked to refresh once
/// for every period in which they are, and the task does not end.
pub proof fn law_every_mark_is_a_refresh(periods: Seq<Period>)
    requires
        forall|i: int| 0 <= i < periods.len() ==> !#[trigger] is_orphaned(periods[i]),
    ensures
        refreshes(refresh_run(periods)) == marked(periods),
        !has_stopped(refresh_run(periods)),
    decreases periods.len(),
{
    reveal_with_fuel(refreshes, 5);
    if periods.len() == 0 {
        assert(refresh_run(periods).drop_last() =~= Seq::<AutoRefreshAction>::empty());
    } else {
        let before = periods.drop_last();
        let p = periods[periods.len() - 1];
        assert forall|i: int| 0 <= i < before.len() implies !#[trigger] is_orphaned(
            before[i],
        ) by {
            assert(!is_orphaned(periods[i]));
        }
        assert(!is_orphaned(p));
        law_every_mark_is_a_refresh(before);
        law_refresh_period(p);
        let actions = period_actions(AutoRefreshEvent::Ticked, p, 3);
        lemma_refreshes_concat(refresh_run(before), actions);
        if p.updated {
            assert(actions.drop_last().drop_last().drop_last().drop_last() =~= Seq::<
                AutoRefreshAction,
            >::empty());
        } else {
            assert(actions.drop_last().drop_last() =~= Seq::<AutoRefreshAction>::empty());
        }
    }
}

/// The task begins with a wait of two seconds, and goes on with one after every refresh and
/// after every look that finds nothing new.
pub proof fn law_refreshing_keeps_its_pace()
    ensures
        auto_refresh_step(AutoRefreshEvent::Begin) == (AutoRefreshAction::Wait { period_secs: 2 }),
        auto_refresh_step(AutoRefreshEvent::Refreshed) == (AutoRefreshAction::Wait {
            period_secs: 2,
        }),
        auto_refresh_step(AutoRefreshEvent::ScanFlag { updated: false }) == (
        AutoRefreshAction::Wait { period_secs: 2 }),
{
}

} // verus!
