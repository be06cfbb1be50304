use oghab_vpn::platform::Platform;
use oghab_vpn::probe::{
    address_text, begin_probe, probe_port, probe_port_exists, tcp_connect_latency, test_profile,
    Answer, ExitReport, ProbeAction, ProbeEvent, ProbeTask, TcpOutcome,
};
use oghab_vpn::scan::{ScanState, ServerProfile};

const URI: &str = "vless://id@example.com:8443?type=ws&security=tls#One";

fn begin(index: usize, platform: Platform, state: &mut ScanState) -> ProbeTask {
    match test_profile(URI, index, platform, state) {
        (Some(task), ProbeAction::Connect { address, timeout_ms }) => {
            assert_eq!(address, "example.com:8443");
            let expected = match platform {
                Platform::Android => 1500,
                Platform::Windows => 3000,
            };
            assert_eq!(timeout_ms, expected);
            task
        }
        _ => panic!("no connection"),
    }
}

fn connected(index: usize, platform: Platform, state: &mut ScanState) -> (ProbeTask, ProbeAction) {
    let mut task = begin(index, platform, state);
    let action = task.step(state, ProbeEvent::Connected(Ok(40)), false);
    (task, action)
}

fn warm(state: &mut ScanState) -> ProbeTask {
    let (mut task, action) = connected(7, Platform::Windows, state);
    match action {
        ProbeAction::Prepare { tag, config } => {
            assert_eq!(tag, "probe-7");
            let config: serde_json::Value = serde_json::from_str(&config).unwrap();
            assert_eq!(config["inbounds"][0]["port"], 16087);
        }
        _ => panic!("no files"),
    }
    assert!(matches!(
        task.step(state, ProbeEvent::Prepared(Ok(())), false),
        ProbeAction::Spawn
    ));
    assert!(matches!(
        task.step(state, ProbeEvent::Spawned(Ok(())), false),
        ProbeAction::Sleep(100)
    ));
    for _ in 0..17 {
        assert!(matches!(
            task.step(state, ProbeEvent::Waited, false),
            ProbeAction::Sleep(100)
        ));
    }
    assert!(matches!(
        task.step(state, ProbeEvent::Waited, true),
        ProbeAction::CheckExit
    ));
    task
}

fn requesting(state: &mut ScanState) -> ProbeTask {
    let mut task = warm(state);
    match task.step(state, ProbeEvent::Checked(None), false) {
        ProbeAction::BuildClient { proxy_url } => {
            assert_eq!(proxy_url, "socks5h://127.0.0.1:16087")
        }
        _ => panic!("no client"),
    }
    match task.step(state, ProbeEvent::ClientBuilt, false) {
        ProbeAction::Request { url } => assert_eq!(url, "https://www.gstatic.com/generate_204"),
        _ => panic!("no request"),
    }
    task
}

fn requested(answer: Result<Answer, String>, latency_ms: u128, log: &str) -> ProbeEvent {
    ProbeEvent::Requested { answer, latency_ms, log: log.to_string() }
}

fn answer(code: u16, status: &str) -> Result<Answer, String> {
    Ok(Answer { code, status: status.to_string() })
}

fn not_working(action: ProbeAction) -> (bool, bool) {
    match action {
        ProbeAction::Finish { outcome: Ok(None), kill, remove_files } => (kill, remove_files),
        _ => panic!("not over"),
    }
}

fn working(action: ProbeAction) -> ServerProfile {
    match action {
        ProbeAction::Finish { outcome: Ok(Some(profile)), kill: false, remove_files: false } => {
            profile
        }
        _ => panic!("not over"),
    }
}

fn broken(action: ProbeAction) -> String {
    match action {
        ProbeAction::Finish { outcome: Err(error), kill: false, remove_files: false } => error,
        _ => panic!("not over"),
    }
}

#[test]
fn invalid_uri_is_skipped() {
    let mut state = ScanState::default();
    let (task, action) = test_profile("https://x", 3, Platform::Windows, &mut state);
    assert!(task.is_none());
    assert_eq!(not_working(action), (false, false));
    assert_eq!(
        state.lines,
        vec!["#3 skipped: invalid URI (Only vless:// URIs are supported)"]
    );
    assert_eq!(state.scanned_count, 1);
    assert_eq!(state.working_count, 0);
}

#[test]
fn outcome_of_parsing_is_taken_as_it_is() {
    let mut state = ScanState::default();
    let (task, action) = begin_probe(Err("e".to_string()), 0, Platform::Android, &mut state);
    assert!(task.is_none());
    assert_eq!(not_working(action), (false, false));
    assert_eq!(state.lines, vec!["#0 skipped: invalid URI (e)"]);
}

#[test]
fn latency_of_a_connection() {
    assert_eq!(tcp_connect_latency(TcpOutcome::Connected(5)), Ok(5));
    assert_eq!(
        tcp_connect_latency(TcpOutcome::TimedOut),
        Err("TCP connection timed out".to_string())
    );
    assert_eq!(
        tcp_connect_latency(TcpOutcome::Failed("refused".to_string())),
        Err("TCP connection failed: refused".to_string())
    );
    assert_eq!(address_text("[::1]", 80), "[::1]:80");
}

#[test]
fn refused_connection_is_logged() {
    let mut state = ScanState::default();
    let mut task = begin(2, Platform::Android, &mut state);
    let event = ProbeEvent::Connected(Err("TCP connection timed out".to_string()));
    assert_eq!(not_working(task.step(&mut state, event, false)), (false, false));
    assert_eq!(
        state.lines,
        vec!["#2 example.com:8443 skipped: TCP failed (TCP connection timed out)"]
    );
    assert_eq!(state.scanned_count, 1);
}

#[test]
fn android_probe_that_works() {
    let mut state = ScanState::default();
    let (mut task, action) = connected(1, Platform::Android, &mut state);
    match action {
        ProbeAction::Measure { config, url } => {
            assert_eq!(url, "https://www.gstatic.com/generate_204");
            let config: serde_json::Value = serde_json::from_str(&config).unwrap();
            assert_eq!(config["inbounds"][0]["port"], 20808);
            assert_eq!(config["inbounds"][0]["protocol"], "socks");
        }
        _ => panic!("nothing measured"),
    }
    assert_eq!(state.scanned_count, 0);
    let profile = working(task.step(&mut state, ProbeEvent::Measured(Ok(120)), false));
    assert_eq!(profile.id, "example.com-8443");
    assert_eq!(profile.uri, URI);
    assert_eq!(profile.label, "One");
    assert_eq!(profile.host, "example.com");
    assert_eq!(profile.port, 8443);
    assert_eq!(profile.latency_ms, 120);
    assert_eq!(profile.network, "ws");
    assert_eq!(profile.security, "tls");
    assert_eq!(state.lines, vec!["#1 example.com:8443 OK 120 ms [ws / tls]"]);
    assert_eq!(state.scanned_count, 1);
    assert_eq!(state.working_count, 1);
}

#[test]
fn latency_is_at_least_that_of_the_connection() {
    let mut state = ScanState::default();
    let (mut task, _) = connected(1, Platform::Android, &mut state);
    assert_eq!(working(task.step(&mut state, ProbeEvent::Measured(Ok(3)), false)).latency_ms, 40);
}

#[test]
fn android_probe_that_fails() {
    let mut state = ScanState::default();
    let (mut task, _) = connected(1, Platform::Android, &mut state);
    not_working(task.step(&mut state, ProbeEvent::Measured(Ok(-1)), false));
    assert_eq!(
        state.lines,
        vec!["#1 example.com:8443 failed: Android delay probe returned -1"]
    );
    let (mut task, _) = connected(1, Platform::Android, &mut state);
    not_working(task.step(&mut state, ProbeEvent::Measured(Ok(5)), true));
    assert_eq!(state.scanned_count, 1);
    let (mut task, _) = connected(1, Platform::Android, &mut state);
    let event = ProbeEvent::Measured(Err("no service".to_string()));
    assert_eq!(broken(task.step(&mut state, event, true)), "no service");
    let (mut task, _) = connected(1, Platform::Android, &mut state);
    let event = ProbeEvent::MeasureBroken("panic".to_string());
    assert_eq!(
        broken(task.step(&mut state, event, false)),
        "Android delay probe task failed: panic"
    );
    assert_eq!(state.scanned_count, 1);
}

#[test]
fn windows_probe_that_works() {
    let mut state = ScanState::default();
    let mut task = requesting(&mut state);
    assert!(state.lines.is_empty());
    let profile = working(task.step(&mut state, requested(answer(204, "204"), 90, ""), false));
    assert_eq!(profile.latency_ms, 90);
    assert_eq!(state.lines, vec!["#7 example.com:8443 OK 90 ms [ws / tls]"]);
    let mut task = requesting(&mut state);
    working(task.step(&mut state, requested(answer(302, "302 Found"), 1, ""), false));
    assert_eq!(state.working_count, 2);
}

#[test]
fn windows_probe_with_a_bad_answer() {
    let mut state = ScanState::default();
    let mut task = requesting(&mut state);
    let event = requested(answer(503, "503 Service Unavailable"), 9, "first\n last \n\n");
    assert_eq!(not_working(task.step(&mut state, event, false)), (false, false));
    let mut task = requesting(&mut state);
    let event = requested(Err("timeout".to_string()), 9, "");
    not_working(task.step(&mut state, event, false));
    let mut task = requesting(&mut state);
    not_working(task.step(&mut state, requested(answer(199, "199"), 9, ""), false));
    assert_eq!(
        state.lines,
        vec![
            "#7 example.com:8443 failed: Instagram returned 503 Service Unavailable (xray log: last)",
            "#7 example.com:8443 failed: Instagram probe error (timeout)",
            "#7 example.com:8443 failed: Instagram returned 199 (xray log: no Xray log output)",
        ]
    );
}

#[test]
fn windows_probe_whose_process_ends() {
    let mut state = ScanState::default();
    let mut task = warm(&mut state);
    let report = ExitReport { status: "exit code: 23".to_string(), log: "bad config".to_string() };
    let action = task.step(&mut state, ProbeEvent::Checked(Some(report)), false);
    assert_eq!(not_working(action), (false, true));
    assert_eq!(
        state.lines,
        vec!["#7 example.com:8443 failed: Xray exited with exit code: 23 (xray log: bad config)"]
    );
}

#[test]
fn cancelled_probe_is_cleared_away() {
    let mut state = ScanState::default();
    let (mut task, _) = connected(0, Platform::Windows, &mut state);
    task.step(&mut state, ProbeEvent::Prepared(Ok(())), false);
    let action = task.step(&mut state, ProbeEvent::Spawned(Ok(())), true);
    assert_eq!(not_working(action), (true, true));
    let (mut task, _) = connected(0, Platform::Windows, &mut state);
    task.step(&mut state, ProbeEvent::Prepared(Ok(())), false);
    task.step(&mut state, ProbeEvent::Spawned(Ok(())), false);
    let action = task.step(&mut state, ProbeEvent::Waited, true);
    assert_eq!(not_working(action), (true, true));
    assert_eq!(state.scanned_count, 0);
}

#[test]
fn probes_that_cannot_be_made() {
    let mut state = ScanState::default();
    let (mut task, _) = connected(0, Platform::Windows, &mut state);
    let event = ProbeEvent::Prepared(Err("disk full".to_string()));
    assert_eq!(broken(task.step(&mut state, event, false)), "disk full");
    let (mut task, _) = connected(0, Platform::Windows, &mut state);
    task.step(&mut state, ProbeEvent::Prepared(Ok(())), false);
    let event = ProbeEvent::Spawned(Err("Failed to start Xray: x".to_string()));
    assert_eq!(broken(task.step(&mut state, event, false)), "Failed to start Xray: x");
    let mut task = warm(&mut state);
    task.step(&mut state, ProbeEvent::Checked(None), false);
    let event = ProbeEvent::ProxyInvalid("p".to_string());
    assert_eq!(broken(task.step(&mut state, event, false)), "Invalid proxy: p");
    let mut task = warm(&mut state);
    task.step(&mut state, ProbeEvent::Checked(None), false);
    let event = ProbeEvent::ClientInvalid("c".to_string());
    assert_eq!(broken(task.step(&mut state, event, false)), "Failed to build probe client: c");
    let mut task = begin(0, Platform::Android, &mut state);
    let action = task.after_config(Err("Failed to serialize Xray config: x".to_string()));
    assert_eq!(broken(action), "Failed to serialize Xray config: x");
    assert_eq!(state.scanned_count, 0);
}

#[test]
fn ports_of_probes() {
    assert_eq!(probe_port(0), 16080);
    assert_eq!(probe_port(319), 16399);
    assert_eq!(probe_port(49455), 65535);
    assert!(probe_port_exists(49455));
    assert!(!probe_port_exists(49456));
    assert!(!probe_port_exists(65535));
    assert_eq!(probe_port(65536), 16080);
}

#[test]
fn probes_have_names_and_ports_of_their_own() {
    let mut state = ScanState::default();
    let mut tags = Vec::new();
    for index in [0, 1, 10, 11, 100] {
        match connected(index, Platform::Windows, &mut state).1 {
            ProbeAction::Prepare { tag, .. } => tags.push((tag, probe_port(index))),
            _ => panic!("no files"),
        }
    }
    for (number, one) in tags.iter().enumerate() {
        for other in &tags[number + 1..] {
            assert_ne!(one.0, other.0);
            assert_ne!(one.1, other.1);
        }
    }
}

#[test]
fn longest_probe_comes_to_its_end() {
    let mut state = ScanState::default();
    let mut task = begin(0, Platform::Windows, &mut state);
    let mut action = task.step(&mut state, ProbeEvent::Connected(Ok(1)), false);
    let mut steps = 1;
    loop {
        let event = match action {
            ProbeAction::Prepare { .. } => ProbeEvent::Prepared(Ok(())),
            ProbeAction::Spawn => ProbeEvent::Spawned(Ok(())),
            ProbeAction::Sleep(_) => ProbeEvent::Waited,
            ProbeAction::CheckExit => ProbeEvent::Checked(None),
            ProbeAction::BuildClient { .. } => ProbeEvent::ClientBuilt,
            ProbeAction::Request { .. } => requested(answer(204, "204 No Content"), 2, ""),
            ProbeAction::Finish { outcome, .. } => {
                assert!(matches!(outcome, Ok(Some(_))));
                break;
            }
            _ => panic!("an action of Android"),
        };
        action = task.step(&mut state, event, false);
        steps += 1;
    }
    assert_eq!(steps, 24);
    assert_eq!(state.scanned_count, 1);
}
