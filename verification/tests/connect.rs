use oghab_vpn::connect::{
    begin_connect, connect_profile, AssetPaths, ConnectAction, ConnectEvent, ConnectTask,
};
use oghab_vpn::manager::{RegistryValue, RegistryWrite, XrayManager};
use oghab_vpn::platform::Platform;
use oghab_vpn::probe::ExitReport;

const URI: &str = "vless://id@example.com";

fn begin(tunnel_mode: bool, platform: Platform) -> (ConnectTask, serde_json::Value) {
    match connect_profile(URI, tunnel_mode, platform) {
        (Some(task), ConnectAction::Prepare { tag, config }) => {
            assert_eq!(platform, Platform::Windows);
            assert_eq!(tag, "active");
            (task, serde_json::from_str(&config).unwrap())
        }
        (Some(task), ConnectAction::Call { config, tunnel_mode }) => {
            assert_eq!(platform, Platform::Android);
            assert!(tunnel_mode);
            (task, serde_json::from_str(&config).unwrap())
        }
        _ => panic!("not begun"),
    }
}

fn paths() -> AssetPaths {
    AssetPaths { config_path: "c".to_string(), log_path: "l".to_string() }
}

fn settled(tunnel_mode: bool, manager: &mut XrayManager) -> ConnectTask {
    let (mut task, _) = begin(tunnel_mode, Platform::Windows);
    assert!(matches!(
        task.step(manager, ConnectEvent::Prepared(Ok(paths()))),
        ConnectAction::Spawn
    ));
    match task.step(manager, ConnectEvent::Spawned(Ok(()))) {
        ConnectAction::Settle { ms, .. } => assert_eq!(ms, 1400),
        _ => panic!("not started"),
    }
    assert!(matches!(
        task.step(manager, ConnectEvent::Waited),
        ConnectAction::CheckExit
    ));
    task
}

fn route(tunnel_mode: bool, manager: &mut XrayManager) -> (ConnectTask, Vec<RegistryWrite>) {
    let mut task = settled(tunnel_mode, manager);
    match task.step(manager, ConnectEvent::Checked(None)) {
        ConnectAction::Route(writes) => (task, writes),
        _ => panic!("no route"),
    }
}

fn text_of(write: &RegistryWrite) -> &str {
    match &write.value {
        RegistryValue::Text(text) => text,
        RegistryValue::Number(_) => panic!("a number"),
    }
}

fn error_of(action: ConnectAction) -> String {
    match action {
        ConnectAction::Finish { outcome: Err(error), .. } => error,
        _ => panic!("no error"),
    }
}

fn succeeded(action: ConnectAction) -> bool {
    matches!(action, ConnectAction::Finish { outcome: Ok(()), stop: None })
}

#[test]
fn invalid_uri_is_refused() {
    let (task, action) = connect_profile("vless://h", false, Platform::Windows);
    assert!(task.is_none());
    assert_eq!(error_of(action), "Missing VLESS user id");
    let (task, action) =
        begin_connect(URI, Err("no config".to_string()), true, Platform::Android);
    assert!(task.is_none());
    assert_eq!(error_of(action), "no config");
}

#[test]
fn config_of_the_connection() {
    let (_, config) = begin(false, Platform::Windows);
    assert_eq!(config["inbounds"][0]["port"], 10808);
    let (_, config) = begin(true, Platform::Windows);
    assert_eq!(config["inbounds"][0]["settings"]["name"], "oghab-tun");
    let (_, config) = begin(false, Platform::Android);
    assert_eq!(config["inbounds"][0]["protocol"], "tun");
}

#[test]
fn connection_through_the_proxy() {
    let mut manager = XrayManager::default();
    let (mut task, writes) = route(false, &mut manager);
    assert!(matches!(writes[0].value, RegistryValue::Number(1)));
    assert_eq!(text_of(&writes[1]), "socks=127.0.0.1:10808");
    assert!(text_of(&writes[2]).starts_with("localhost;127.*;10.*;172.16.*;"));
    assert!(text_of(&writes[2]).ends_with(";172.31.*;192.168.*"));
    assert!(succeeded(task.step(&mut manager, ConnectEvent::Routed(Ok(())))));
    let status = manager.status(Platform::Windows);
    assert!(status.connected && !status.tunnel_mode);
    assert_eq!(status.connected_uri.as_deref(), Some(URI));
}

#[test]
fn connection_through_the_tunnel() {
    let mut manager = XrayManager::default();
    let (mut task, writes) = route(true, &mut manager);
    assert!(matches!(writes[0].value, RegistryValue::Number(0)));
    assert_eq!(text_of(&writes[1]), "");
    assert!(succeeded(task.step(&mut manager, ConnectEvent::Routed(Ok(())))));
    assert!(manager.status(Platform::Windows).tunnel_mode);
}

#[test]
fn connection_before_is_cleared_away() {
    let mut manager = XrayManager {
        child: true,
        config_path: Some("old.json".to_string()),
        log_path: Some("old.log".to_string()),
        connected_uri: Some("vless://old".to_string()),
        tunnel_mode: true,
    };
    let (mut task, _) = begin(false, Platform::Windows);
    task.step(&mut manager, ConnectEvent::Prepared(Ok(paths())));
    assert_eq!(manager.connected_uri.as_deref(), Some("vless://old"));
    match task.step(&mut manager, ConnectEvent::Spawned(Ok(()))) {
        ConnectAction::Settle { before, .. } => {
            assert!(before.kill_child);
            assert_eq!(before.remove_files, vec!["old.json", "old.log"]);
            assert_eq!(before.registry.len(), 3);
        }
        _ => panic!("not started"),
    }
    assert_eq!(manager.connected_uri.as_deref(), Some(URI));
    assert_eq!(manager.config_path.as_deref(), Some("c"));
    assert!(manager.child && !manager.tunnel_mode);
}

#[test]
fn process_that_ends() {
    let mut manager = XrayManager::default();
    let mut task = settled(false, &mut manager);
    let report = ExitReport { status: "exit code: 1".to_string(), log: "x\nbad\n".to_string() };
    match task.step(&mut manager, ConnectEvent::Checked(Some(report))) {
        ConnectAction::Finish { outcome: Err(error), stop: Some(plan) } => {
            assert_eq!(
                error,
                "Xray exited unexpectedly with status exit code: 1. xray log: bad"
            );
            assert!(plan.kill_child);
            assert_eq!(plan.remove_files, vec!["c", "l"]);
        }
        _ => panic!("not over"),
    }
    assert!(!manager.status(Platform::Windows).connected);
    assert!(manager.connected_uri.is_none());
}

#[test]
fn failures_on_windows() {
    let mut manager = XrayManager::default();
    let (mut task, _) = begin(false, Platform::Windows);
    let event = ConnectEvent::Prepared(Err("disk full".to_string()));
    assert_eq!(error_of(task.step(&mut manager, event)), "disk full");
    let (mut task, _) = begin(false, Platform::Windows);
    task.step(&mut manager, ConnectEvent::Prepared(Ok(paths())));
    let event = ConnectEvent::Spawned(Err("Failed to start Xray: x".to_string()));
    assert_eq!(error_of(task.step(&mut manager, event)), "Failed to start Xray: x");
    assert!(!manager.child);
    let (mut task, _) = route(false, &mut manager);
    let event = ConnectEvent::Routed(Err("denied".to_string()));
    assert_eq!(
        error_of(task.step(&mut manager, event)),
        "Failed to enable system proxy: denied"
    );
    assert!(manager.child);
    let (mut task, _) = route(true, &mut manager);
    let event = ConnectEvent::Routed(Err("denied".to_string()));
    assert_eq!(error_of(task.step(&mut manager, event)), "Failed to enable TUN route: denied");
}

#[test]
fn connection_on_android() {
    let mut manager = XrayManager::default();
    let (mut task, _) = begin(false, Platform::Android);
    assert!(matches!(
        task.step(&mut manager, ConnectEvent::Called(Ok(()))),
        ConnectAction::Poll
    ));
    for _ in 0..3 {
        assert!(matches!(
            task.step(&mut manager, ConnectEvent::Polled(Ok(false))),
            ConnectAction::Sleep(250)
        ));
        assert!(matches!(
            task.step(&mut manager, ConnectEvent::Waited),
            ConnectAction::Poll
        ));
    }
    assert!(!manager.status(Platform::Android).connected);
    assert!(succeeded(task.step(&mut manager, ConnectEvent::Polled(Ok(true)))));
    let status = manager.status(Platform::Android);
    assert!(status.connected && status.tunnel_mode);
    assert_eq!(status.connected_uri.as_deref(), Some(URI));
}

#[test]
fn service_that_does_not_start() {
    let mut manager = XrayManager::default();
    let (mut task, _) = begin(true, Platform::Android);
    let mut action = task.step(&mut manager, ConnectEvent::Called(Ok(())));
    let mut polls = 0;
    loop {
        action = match action {
            ConnectAction::Poll => {
                polls += 1;
                task.step(&mut manager, ConnectEvent::Polled(Ok(false)))
            }
            ConnectAction::Sleep(_) => task.step(&mut manager, ConnectEvent::Waited),
            other => {
                assert_eq!(
                    error_of(other),
                    "Android VPN permission was not granted or VPN service did not start"
                );
                break;
            }
        };
    }
    assert_eq!(polls, 180);
    assert!(manager.connected_uri.is_none());
}

#[test]
fn failures_on_android() {
    let mut manager = XrayManager::default();
    let (mut task, _) = begin(true, Platform::Android);
    let event = ConnectEvent::Called(Err("Android connect failed: x".to_string()));
    assert_eq!(error_of(task.step(&mut manager, event)), "Android connect failed: x");
    let (mut task, _) = begin(true, Platform::Android);
    task.step(&mut manager, ConnectEvent::Called(Ok(())));
    let event = ConnectEvent::Polled(Err("gone".to_string()));
    assert_eq!(error_of(task.step(&mut manager, event)), "gone");
    assert!(manager.connected_uri.is_none());
}
