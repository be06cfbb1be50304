use oghab_vpn::platform::{probe_concurrency, Platform};
use oghab_vpn::scan::{ScanControl, ScanState, ServerProfile};
use oghab_vpn::scan_task::{
    drain_one_probe, sort_by_latency, ProbeOutcome, ScanAction, ScanTask,
};

fn profile(id: &str, latency_ms: u128) -> ServerProfile {
    ServerProfile {
        id: id.to_string(),
        uri: String::new(),
        label: String::new(),
        host: String::new(),
        port: 1,
        latency_ms,
        network: String::new(),
        security: String::new(),
    }
}

fn ids(profiles: &[ServerProfile]) -> Vec<&str> {
    profiles.iter().map(|profile| profile.id.as_str()).collect()
}

fn list(count: usize) -> String {
    (0..count).map(|number| format!("vless://{number}\n")).collect()
}

fn go() -> ScanControl {
    ScanControl { cancelled: false, paused: false }
}

#[test]
fn servers_are_sorted_by_latency_and_stable() {
    let given = vec![
        profile("a", 30),
        profile("b", 10),
        profile("c", 30),
        profile("d", 20),
        profile("e", 10),
    ];
    assert_eq!(ids(&sort_by_latency(&given)), vec!["b", "e", "d", "a", "c"]);
    assert!(sort_by_latency(&Vec::new()).is_empty());
}

#[test]
fn limits_of_the_platforms() {
    assert_eq!(probe_concurrency(Platform::Android), 1);
    assert_eq!(probe_concurrency(Platform::Windows), 12);
}

#[test]
fn beginning_is_logged() {
    let mut state = ScanState::default();
    let task = ScanTask::begin("vless://a\nx\nvless://b", 3, Platform::Windows, &mut state);
    assert_eq!(task.uris, vec!["vless://a", "vless://b"]);
    assert_eq!(state.total_count, 2);
    assert_eq!(state.source_count, 3);
    assert_eq!(
        state.lines,
        vec!["Loaded 2 VLESS URIs from 3 sources. Testing target: https://www.gstatic.com/generate_204"]
    );
}

#[test]
fn probes_run_in_order_and_not_too_many() {
    let mut state = ScanState::default();
    let mut task = ScanTask::begin(&list(14), 1, Platform::Windows, &mut state);
    for number in 0..12 {
        match task.step(&mut state, &go()) {
            ScanAction::Probe { index, uri } => {
                assert_eq!(index, number);
                assert_eq!(uri, format!("vless://{number}"));
            }
            _ => panic!("no probe"),
        }
    }
    assert!(matches!(task.step(&mut state, &go()), ScanAction::Join));
    assert_eq!(task.in_flight, 12);
    drain_one_probe(&mut task, &mut state, ProbeOutcome::NotWorking);
    assert!(matches!(task.step(&mut state, &go()), ScanAction::Probe { index: 12, .. }));
}

#[test]
fn finished_scan_is_complete() {
    let mut state = ScanState::default();
    let mut task = ScanTask::begin(&list(3), 1, Platform::Android, &mut state);
    let mut outcomes = vec![
        ProbeOutcome::Working(profile("slow", 90)),
        ProbeOutcome::Failed("e".to_string()),
        ProbeOutcome::Working(profile("fast", 9)),
    ];
    outcomes.reverse();
    let mut probed = Vec::new();
    loop {
        match task.step(&mut state, &go()) {
            ScanAction::Probe { index, .. } => probed.push(index),
            ScanAction::Join => {
                assert_eq!(task.in_flight, 1);
                drain_one_probe(&mut task, &mut state, outcomes.pop().unwrap());
            }
            ScanAction::Wait => panic!("not paused"),
            ScanAction::Finish(result) => {
                assert_eq!(result, Ok(()));
                break;
            }
        }
    }
    assert_eq!(probed, vec![0, 1, 2]);
    assert_eq!(ids(&state.profiles), vec!["fast", "slow"]);
    assert_eq!(state.working_count, 2);
    assert!(!state.is_scanning && state.error.is_none());
    assert_eq!(
        state.lines[1..],
        ["Probe error: e".to_string(), "Scan finished. 2 working servers found.".to_string()]
    );
}

#[test]
fn ends_of_probes_are_noted() {
    let mut state = ScanState::default();
    let mut task = ScanTask::begin(&list(3), 1, Platform::Windows, &mut state);
    drain_one_probe(&mut task, &mut state, ProbeOutcome::Broken("x".to_string()));
    assert_eq!(state.lines.len(), 1);
    task.step(&mut state, &go());
    task.step(&mut state, &go());
    drain_one_probe(&mut task, &mut state, ProbeOutcome::Broken("x".to_string()));
    assert_eq!(state.lines[1], "Probe task join error: x");
    drain_one_probe(&mut task, &mut state, ProbeOutcome::Working(profile("a", 5)));
    assert_eq!(ids(&state.profiles), vec!["a"]);
    assert_eq!(state.working_count, 1);
    assert_eq!(task.in_flight, 0);
}

#[test]
fn paused_scan_waits() {
    let mut state = ScanState::default();
    let mut task = ScanTask::begin(&list(2), 1, Platform::Windows, &mut state);
    let paused = ScanControl { cancelled: false, paused: true };
    assert!(matches!(task.step(&mut state, &paused), ScanAction::Wait));
    assert!(state.is_paused);
    assert!(matches!(task.step(&mut state, &go()), ScanAction::Probe { index: 0, .. }));
    assert!(!state.is_paused);
}

#[test]
fn stopped_scan_probes_no_more() {
    let mut state = ScanState::default();
    let stop = ScanControl { cancelled: true, paused: true };
    let mut task = ScanTask::begin(&list(2), 1, Platform::Windows, &mut state);
    task.step(&mut state, &go());
    assert!(matches!(
        task.step(&mut state, &stop),
        ScanAction::Finish(Err(error)) if error == "Scan stopped"
    ));
}

#[test]
fn stopped_scan_with_a_full_house_drains() {
    let mut state = ScanState::default();
    let stop = ScanControl { cancelled: true, paused: false };
    let mut task = ScanTask::begin(&list(3), 1, Platform::Android, &mut state);
    task.step(&mut state, &go());
    assert!(matches!(task.step(&mut state, &go()), ScanAction::Join));
    assert!(matches!(task.step(&mut state, &stop), ScanAction::Join));
    drain_one_probe(&mut task, &mut state, ProbeOutcome::NotWorking);
    assert!(matches!(task.step(&mut state, &stop), ScanAction::Finish(Ok(()))));
    assert_eq!(state.lines[1], "Scan finished. 0 working servers found.");
}

#[test]
fn scan_of_nothing_is_over_at_once() {
    let mut state = ScanState::default();
    let mut task = ScanTask::begin("", 1, Platform::Windows, &mut state);
    assert!(matches!(task.step(&mut state, &go()), ScanAction::Finish(Ok(()))));
}

#[test]
fn state_does_not_steer() {
    let mut plain = ScanState::default();
    let mut busy = ScanState::default();
    let mut first = ScanTask::begin(&list(2), 1, Platform::Android, &mut plain);
    let mut second = ScanTask::begin(&list(2), 1, Platform::Android, &mut busy);
    busy.lines.push("noise".to_string());
    busy.working_count = 9;
    busy.is_paused = true;
    busy.error = Some("old".to_string());
    for _ in 0..2 {
        let a = first.step(&mut plain, &go());
        let b = second.step(&mut busy, &go());
        match (a, b) {
            (ScanAction::Probe { index: 0, .. }, ScanAction::Probe { index: 0, .. }) => {}
            (ScanAction::Join, ScanAction::Join) => {}
            _ => panic!("steered apart"),
        }
    }
    assert_eq!(first.next, second.next);
}
