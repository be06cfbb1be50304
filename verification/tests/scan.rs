use oghab_vpn::scan::{
    end_scan, get_scan_snapshot, note_test_result, pause_scan, push_debug_line, resume_scan,
    start_scan_inner, stop_scan, unreadable_snapshot, ScanControl, ScanRuntime, ScanState,
    TaskStop, MAX_LINES,
};
use oghab_vpn::sources::{EXTRA_SOURCE_URL, SOURCE_URL};

#[test]
fn log_keeps_the_most_recent_lines() {
    let mut state = ScanState::default();
    for number in 0..MAX_LINES + 5 {
        push_debug_line(&mut state, number.to_string());
        assert!(state.lines.len() <= MAX_LINES);
    }
    assert_eq!(state.lines.len(), 320);
    assert_eq!(state.lines[0], "5");
    assert_eq!(state.lines[319], "324");
}

#[test]
fn results_are_counted() {
    let mut state = ScanState::default();
    note_test_result(&mut state, "a".to_string(), true);
    note_test_result(&mut state, "b".to_string(), false);
    assert_eq!(state.scanned_count, 2);
    assert_eq!(state.working_count, 1);
    assert_eq!(state.lines, vec!["a", "b"]);
}

#[test]
fn control_switches() {
    let mut control = ScanControl::new();
    assert!(!control.is_cancelled() && !control.is_paused());
    assert!(!control.pause());
    assert!(control.is_paused());
    assert!(control.resume());
    assert!(!control.is_paused());
    control.pause();
    assert!(control.cancel());
    assert!(control.is_cancelled() && !control.is_paused());
    assert!(control.reset());
    assert_eq!(control, ScanControl::new());
}

#[test]
fn start_forgets_what_was_before() {
    let mut runtime = ScanRuntime::new();
    push_debug_line(&mut runtime.state, "old".to_string());
    runtime.state.error = Some("old".to_string());
    let start = start_scan_inner(&mut runtime, Vec::new());
    assert!(start.wake);
    assert!(!start.abort);
    assert_eq!(start.sources, vec![SOURCE_URL, EXTRA_SOURCE_URL]);
    assert!(start.snapshot.is_scanning);
    assert!(start.snapshot.lines.is_empty());
    assert!(start.snapshot.error.is_none());
    assert_eq!(start.snapshot.source_count, 0);
    assert!(runtime.task);
    let again = start_scan_inner(&mut runtime, vec!["x".to_string(), " x".to_string()]);
    assert!(again.abort);
    assert_eq!(again.sources, vec!["x"]);
    assert_eq!(again.snapshot.source_count, 2);
    assert!(!runtime.control.is_cancelled());
}

#[test]
fn pause_and_resume() {
    let mut runtime = ScanRuntime::new();
    start_scan_inner(&mut runtime, Vec::new());
    assert!(!pause_scan(&mut runtime));
    assert!(runtime.control.is_paused());
    assert!(get_scan_snapshot(&runtime).is_paused);
    assert!(resume_scan(&mut runtime));
    assert!(!runtime.control.is_paused());
    assert!(!get_scan_snapshot(&runtime).is_paused);
}

#[test]
fn stop_is_final() {
    let mut runtime = ScanRuntime::new();
    start_scan_inner(&mut runtime, Vec::new());
    push_debug_line(&mut runtime.state, "kept".to_string());
    pause_scan(&mut runtime);
    assert_eq!(stop_scan(&mut runtime), TaskStop { wake: true, abort: true });
    assert_eq!(stop_scan(&mut runtime), TaskStop { wake: true, abort: false });
    let snapshot = get_scan_snapshot(&runtime);
    assert!(!snapshot.is_scanning && !snapshot.is_paused);
    assert_eq!(snapshot.error.as_deref(), Some("Scan stopped"));
    assert_eq!(snapshot.lines, vec!["kept"]);
    assert!(runtime.control.is_cancelled() && !runtime.control.is_paused());
}

#[test]
fn stop_outlasts_the_end_of_the_task() {
    let mut runtime = ScanRuntime::new();
    start_scan_inner(&mut runtime, Vec::new());
    stop_scan(&mut runtime);
    end_scan(&mut runtime, Ok(()));
    assert_eq!(runtime.state.error.as_deref(), Some("Scan stopped"));
    end_scan(&mut runtime, Err("Scan stopped".to_string()));
    assert_eq!(runtime.state.error.as_deref(), Some("Scan stopped"));
    assert!(runtime.control.is_cancelled());
}

#[test]
fn end_of_a_scan() {
    let mut runtime = ScanRuntime::new();
    start_scan_inner(&mut runtime, Vec::new());
    end_scan(&mut runtime, Ok(()));
    assert!(!runtime.task && !runtime.state.is_scanning && runtime.state.error.is_none());
    start_scan_inner(&mut runtime, Vec::new());
    end_scan(&mut runtime, Err("broken".to_string()));
    assert_eq!(runtime.state.error.as_deref(), Some("broken"));
}

#[test]
fn unreadable_state_shows_nothing() {
    let snapshot = unreadable_snapshot();
    assert!(snapshot.lines.is_empty() && snapshot.profiles.is_empty());
    assert_eq!(snapshot.total_count, 0);
    assert!(!snapshot.is_scanning && snapshot.error.is_none());
}
