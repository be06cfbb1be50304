use oghab_vpn::assets::{
    config_file_name, log_file_name, should_replace_binary, spawn_xray, xray_arguments,
    SpawnOutcome,
};
use oghab_vpn::manager::{
    disconnect_vpn, remove_tun_route, set_system_proxy, set_tun_route, vpn_status, RegistryValue,
    RegistryWrite, XrayManager,
};
use oghab_vpn::platform::Platform;
use oghab_vpn::xray_log::summarize_xray_log;

fn shown(writes: &[RegistryWrite]) -> Vec<String> {
    writes
        .iter()
        .map(|write| match &write.value {
            RegistryValue::Number(number) => format!("{}={number}", write.name),
            RegistryValue::Text(text) => format!("{}='{text}'", write.name),
        })
        .collect()
}

fn running() -> XrayManager {
    XrayManager {
        child: true,
        config_path: Some("c".to_string()),
        log_path: Some("l".to_string()),
        connected_uri: Some("vless://x".to_string()),
        tunnel_mode: true,
    }
}

#[test]
fn proxy_of_the_system() {
    assert_eq!(
        shown(&set_system_proxy(true, "socks=1", "a;b")),
        vec!["ProxyEnable=1", "ProxyServer='socks=1'", "ProxyOverride='a;b'"]
    );
    let off = vec!["ProxyEnable=0", "ProxyServer=''", "ProxyOverride=''"];
    assert_eq!(shown(&set_system_proxy(false, "", "")), off);
    assert_eq!(shown(&set_tun_route(true)), off);
    assert!(set_tun_route(false).is_empty());
    assert!(remove_tun_route().is_empty());
}

#[test]
fn stop_on_windows() {
    let mut manager = running();
    assert!(manager.status(Platform::Windows).connected);
    let plan = manager.stop(Platform::Windows);
    assert!(plan.kill_child);
    assert_eq!(plan.remove_files, vec!["c", "l"]);
    assert_eq!(
        shown(&plan.registry),
        vec!["ProxyEnable=0", "ProxyServer=''", "ProxyOverride=''"]
    );
    let status = manager.status(Platform::Windows);
    assert!(!status.connected && status.connected_uri.is_none() && !status.tunnel_mode);
    let again = manager.stop(Platform::Windows);
    assert!(!again.kill_child);
    assert!(again.remove_files.is_empty());
}

#[test]
fn stop_on_android() {
    let mut manager = XrayManager::default();
    assert!(!manager.status(Platform::Android).connected);
    manager.connected_uri = Some("vless://x".to_string());
    manager.tunnel_mode = true;
    assert!(manager.status(Platform::Android).connected);
    let plan = manager.stop(Platform::Android);
    assert!(!plan.kill_child && plan.remove_files.is_empty() && plan.registry.is_empty());
    assert!(!manager.status(Platform::Android).connected);
}

#[test]
fn status_follows_the_service() {
    for answer in [Ok(false), Err("no service".to_string())] {
        let mut manager = running();
        let status = vpn_status(&mut manager, Platform::Android, answer);
        assert!(!status.connected && status.connected_uri.is_none() && !status.tunnel_mode);
    }
    let mut manager = running();
    let status = vpn_status(&mut manager, Platform::Android, Ok(true));
    assert_eq!(status.connected_uri.as_deref(), Some("vless://x"));
    assert!(status.connected && status.tunnel_mode);
    let mut manager = running();
    assert!(vpn_status(&mut manager, Platform::Windows, Ok(false)).connected);
}

#[test]
fn disconnecting() {
    let mut manager = running();
    match disconnect_vpn(&mut manager, Platform::Android, Err("x".to_string())) {
        Err(error) => assert_eq!(error, "x"),
        Ok(_) => panic!("disconnected"),
    }
    assert!(manager.connected_uri.is_some());
    assert!(disconnect_vpn(&mut manager, Platform::Android, Ok(())).is_ok());
    assert!(manager.connected_uri.is_none());
    let mut manager = running();
    match disconnect_vpn(&mut manager, Platform::Windows, Err("x".to_string())) {
        Ok(plan) => assert!(plan.kill_child),
        Err(error) => panic!("{error}"),
    }
    assert!(!manager.child);
}

#[test]
fn files_of_a_process() {
    assert_eq!(config_file_name("active", 1700000000123), "active-1700000000123.json");
    assert_eq!(log_file_name("probe-3", 5), "probe-3-5.log");
    assert!(should_replace_binary(None, 10));
    assert!(should_replace_binary(Some(9), 10));
    assert!(!should_replace_binary(Some(10), 10));
    assert_eq!(xray_arguments("a.json"), vec!["run", "-c", "a.json"]);
}

#[test]
fn start_of_a_process() {
    assert_eq!(spawn_xray(SpawnOutcome::Started), Ok(()));
    assert_eq!(
        spawn_xray(SpawnOutcome::NoLogFile("e".to_string())),
        Err("Failed to create Xray log file: e".to_string())
    );
    assert_eq!(
        spawn_xray(SpawnOutcome::NoSharedLogFile("e".to_string())),
        Err("Failed to clone Xray log file: e".to_string())
    );
    assert_eq!(
        spawn_xray(SpawnOutcome::NotStarted("e".to_string())),
        Err("Failed to start Xray: e".to_string())
    );
}

#[test]
fn summary_of_a_log() {
    assert_eq!(summarize_xray_log("a\n b \r\n\t\n"), "xray log: b");
    assert_eq!(summarize_xray_log(" \n\n"), "xray log: no Xray log output");
    assert_eq!(summarize_xray_log(""), "xray log: no Xray log output");
}
