use esp_slint_boards::auto_refresh::{next_auto_refresh, AutoRefreshAction, AutoRefreshEvent};
use esp_slint_boards::board::{Board, LogLevel};
use esp_slint_boards::scan_report::{details_line, scan_lines, scan_report, store_line, AccessPoint};
use esp_slint_boards::scan_results::{placeholder_networks, publish, refresh, Refresh};
use esp_slint_boards::scan_task::{RadioConfig, ScanAction, ScanEvent, ScanTask};

fn list(names: &[&str]) -> Vec<String> {
    names.iter().map(|n| n.to_string()).collect()
}

fn point(ssid: &str, signal: i8, auth: &str, channel: u8) -> AccessPoint {
    AccessPoint { ssid: ssid.to_string(), signal, auth: auth.to_string(), channel }
}

fn points(names: &[&str]) -> Vec<AccessPoint> {
    names.iter().map(|n| point(n, -60, "None", 1)).collect()
}

fn shown(outcome: Refresh) -> Option<Vec<String>> {
    match outcome {
        Refresh::Show(list) => Some(list),
        _ => None,
    }
}

/// A scan task that has just asked for a scan, with a radio that does or does not obey.
fn scanning_after(board: Board, configured: bool, started: bool) -> ScanTask {
    let (task, action) = ScanTask::start(board);
    assert!(matches!(action, ScanAction::QueryCapabilities { .. }));
    let (task, action) = task.next(ScanEvent::Queried);
    assert!(matches!(action, ScanAction::Configure { config: RadioConfig::DefaultClient }));
    match task.next(ScanEvent::Configured { ok: configured }) {
        (task, ScanAction::Start { report_failure }) => {
            assert_eq!(report_failure, !configured);
            match task.next(ScanEvent::Started { ok: started }) {
                (task, ScanAction::Sleep { secs, report_failure }) => {
                    assert_eq!((secs, report_failure), (2, !started));
                    let (task, action) = task.next(ScanEvent::Slept);
                    assert!(matches!(action, ScanAction::Scan { max: 10 }));
                    task
                }
                _ => panic!("the radio settles"),
            }
        }
        _ => panic!("the radio is started"),
    }
}

/// A scan task that has just asked for a scan.
fn scanning(board: Board) -> ScanTask {
    scanning_after(board, true, true)
}

#[test]
fn a_failing_radio_is_reported_and_scanned_with_all_the_same() {
    for board in [Board::Esope, Board::Box3, Board::LcdEv] {
        for configured in [false, true] {
            for started in [false, true] {
                scanning_after(board, configured, started);
            }
        }
    }
}

#[test]
fn capabilities_come_first() {
    let levels = [
        (Board::Esope, LogLevel::Info, false),
        (Board::Box3, LogLevel::Info, true),
        (Board::LcdEv, LogLevel::Debug, false),
    ];
    for (board, expected, heap) in levels {
        match ScanTask::start(board).1 {
            ScanAction::QueryCapabilities { level, report_heap } => {
                assert_eq!((level, report_heap), (expected, heap));
            }
            _ => panic!("the capabilities are asked for"),
        }
    }
    assert_eq!(Board::Esope.radio_failure_level(), LogLevel::Info);
    assert_eq!(Board::Box3.radio_failure_level(), LogLevel::Info);
    assert_eq!(Board::LcdEv.radio_failure_level(), LogLevel::Error);
}

#[test]
fn placeholder_list() {
    assert_eq!(placeholder_networks(), list(&["WiFi Scanning...", "Please wait"]));
}

#[test]
fn published_names_are_shown_once() {
    let mut results = points(&["old"]);
    let mut updated = false;
    publish(&mut results, &mut updated, points(&["home", "cafe"]));
    assert!(updated);
    assert_eq!(shown(refresh(&mut updated, Some(&results))), Some(list(&["home", "cafe"])));
    assert!(!updated);
    assert!(matches!(refresh(&mut updated, Some(&results)), Refresh::NothingNew));
}

#[test]
fn an_empty_scan_says_so() {
    let mut results = points(&["old"]);
    let mut updated = false;
    publish(&mut results, &mut updated, points(&[]));
    assert_eq!(shown(refresh(&mut updated, Some(&results))), Some(list(&["No networks found"])));
}

#[test]
fn a_busy_refresh_keeps_the_mark() {
    let mut results = Vec::new();
    let mut updated = false;
    publish(&mut results, &mut updated, points(&["home"]));
    assert!(matches!(refresh(&mut updated, None), Refresh::Busy));
    assert!(updated);
    assert_eq!(shown(refresh(&mut updated, Some(&results))), Some(list(&["home"])));
}

#[test]
fn nothing_new_without_a_mark() {
    let mut updated = false;
    assert!(matches!(refresh(&mut updated, None), Refresh::NothingNew));
    assert!(!updated);
}

#[test]
fn the_latest_publication_wins() {
    let mut results = Vec::new();
    let mut updated = false;
    publish(&mut results, &mut updated, points(&["first"]));
    publish(&mut results, &mut updated, points(&["second"]));
    assert_eq!(shown(refresh(&mut updated, Some(&results))), Some(list(&["second"])));
}

#[test]
fn a_scan_is_published_and_repeated() {
    let task = scanning(Board::Esope);
    let (task, action) = task.next(ScanEvent::Scanned(Some(points(&["home"]))));
    assert!(matches!(action, ScanAction::TryLock));
    let (task, action) = task.next(ScanEvent::Locked { free: true });
    match action {
        ScanAction::Publish(found) => {
            assert_eq!(found.len(), 1);
            assert_eq!(found[0].ssid, "home");
            assert_eq!(found[0].signal, -60);
            assert_eq!(found[0].auth, "None");
            assert_eq!(found[0].channel, 1);
        }
        _ => panic!("the access points found are published"),
    }
    let (task, action) = task.next(ScanEvent::Published);
    assert!(matches!(action, ScanAction::Sleep { secs: 10, report_failure: false }));
    let (_, action) = task.next(ScanEvent::Slept);
    assert!(matches!(action, ScanAction::Scan { max: 10 }));
}

#[test]
fn locked_results_are_left_alone() {
    let task = scanning(Board::Box3);
    let (task, _) = task.next(ScanEvent::Scanned(Some(points(&["home"]))));
    let (task, action) = task.next(ScanEvent::Locked { free: false });
    assert!(matches!(action, ScanAction::Sleep { secs: 10, report_failure: false }));
    let (_, action) = task.next(ScanEvent::Slept);
    assert!(matches!(action, ScanAction::Scan { max: 10 }));
}

#[test]
fn a_failed_scan_is_repeated() {
    for board in [Board::Esope, Board::Box3, Board::LcdEv] {
        let (task, action) = scanning(board).next(ScanEvent::Scanned(None));
        assert!(matches!(action, ScanAction::Sleep { secs: 10, report_failure: true }));
        let (_, action) = task.next(ScanEvent::Slept);
        assert!(matches!(action, ScanAction::Scan { max: 10 }));
    }
}

#[test]
fn an_empty_scan_is_kept_back_on_one_board_only() {
    let (_, action) = scanning(Board::LcdEv).next(ScanEvent::Scanned(Some(Vec::new())));
    assert!(matches!(action, ScanAction::Sleep { secs: 10, report_failure: false }));
    for board in [Board::Esope, Board::Box3] {
        let (_, action) = scanning(board).next(ScanEvent::Scanned(Some(Vec::new())));
        assert!(matches!(action, ScanAction::TryLock));
    }
}

#[test]
fn report_of_a_scan() {
    let found = vec![
        point("home", -47, "Some(Wpa2Personal)", 11),
        point("", 0, "None", 1),
        point("far away", -128, "Some(None)", 255),
        point("near", 127, "Some(Wpa3Personal)", 6),
    ];
    assert_eq!(
        scan_report(&found),
        list(&[
            "Found 4 networks:",
            "  1: SSID: home, Signal: -47, Auth: Some(Wpa2Personal), Channel: 11",
            "  2: SSID: , Signal: 0, Auth: None, Channel: 1",
            "  3: SSID: far away, Signal: -128, Auth: Some(None), Channel: 255",
            "  4: SSID: near, Signal: 127, Auth: Some(Wpa3Personal), Channel: 6",
        ])
    );
}

#[test]
fn report_of_an_empty_scan() {
    assert_eq!(scan_report(&Vec::new()), list(&["Found 0 networks:"]));
}

#[test]
fn report_numbers_every_network() {
    let names: Vec<String> = (0..12).map(|n| format!("net{}", n)).collect();
    let found: Vec<AccessPoint> = names.iter().map(|n| point(n, -9, "None", 10)).collect();
    let lines = scan_report(&found);
    assert_eq!(lines.len(), 13);
    assert_eq!(lines[0], "Found 12 networks:");
    for i in 0..12 {
        let line = format!("  {}: SSID: net{}, Signal: -9, Auth: None, Channel: 10", i + 1, i);
        assert_eq!(lines[i + 1], line);
    }
}

#[test]
fn lines_of_each_board() {
    let found = points(&["home", "cafe"]);
    for board in [Board::Esope, Board::Box3] {
        assert_eq!(scan_lines(board, &found), scan_report(&found));
        assert_eq!(scan_lines(board, &Vec::new()), list(&["Found 0 networks:"]));
        assert_eq!(store_line(board, true, 2).as_deref(), Some("Stored 2 scan results for UI"));
        assert_eq!(
            store_line(board, false, 2).as_deref(),
            Some("Could not store scan results (mutex locked)")
        );
        assert_eq!(details_line(board, 2), None);
    }
    let lines = scan_lines(Board::LcdEv, &found);
    assert_eq!(lines, list(&["Found 2 networks, updating UI"]));
    assert_eq!(scan_lines(Board::LcdEv, &Vec::new()), list(&[]));
    assert_eq!(store_line(Board::LcdEv, true, 2), None);
    assert_eq!(store_line(Board::LcdEv, false, 2), None);
    assert_eq!(
        details_line(Board::LcdEv, 2).as_deref(),
        Some("Network details available for 2 access points")
    );
    assert_eq!(details_line(Board::LcdEv, 0), None);
}

/// Runs the refresh task over periods of (marked, window alive); returns the refreshes, and
/// the period in which it ended.
fn refreshing(periods: &[(bool, bool)]) -> (usize, Option<usize>) {
    let mut refreshes = 0;
    for (i, &(updated, alive)) in periods.iter().enumerate() {
        let mut event = AutoRefreshEvent::Ticked;
        loop {
            event = match next_auto_refresh(event) {
                AutoRefreshAction::ReadScanFlag => AutoRefreshEvent::ScanFlag { updated },
                AutoRefreshAction::FindWindow => AutoRefreshEvent::Window { alive },
                AutoRefreshAction::RefreshWindow => {
                    refreshes += 1;
                    AutoRefreshEvent::Refreshed
                }
                AutoRefreshAction::Wait { period_secs } => {
                    assert_eq!(period_secs, 2);
                    break;
                }
                AutoRefreshAction::Stop => return (refreshes, Some(i)),
            };
        }
    }
    (refreshes, None)
}

#[test]
fn refreshing_over_many_periods() {
    let lives = [(true, true), (false, true), (true, true), (true, true), (false, false)];
    assert_eq!(refreshing(&lives), (3, None));
    let gone = [(true, true), (false, false), (true, false), (true, true)];
    assert_eq!(refreshing(&gone), (1, Some(2)));
}

#[test]
fn refresh_task_steps() {
    let wait = AutoRefreshAction::Wait { period_secs: 2 };
    assert_eq!(next_auto_refresh(AutoRefreshEvent::Begin), wait);
    assert_eq!(next_auto_refresh(AutoRefreshEvent::Ticked), AutoRefreshAction::ReadScanFlag);
    assert_eq!(next_auto_refresh(AutoRefreshEvent::ScanFlag { updated: false }), wait);
    assert_eq!(
        next_auto_refresh(AutoRefreshEvent::ScanFlag { updated: true }),
        AutoRefreshAction::FindWindow
    );
    assert_eq!(
        next_auto_refresh(AutoRefreshEvent::Window { alive: true }),
        AutoRefreshAction::RefreshWindow
    );
    assert_eq!(
        next_auto_refresh(AutoRefreshEvent::Window { alive: false }),
        AutoRefreshAction::Stop
    );
    assert_eq!(next_auto_refresh(AutoRefreshEvent::Refreshed), wait);
}
