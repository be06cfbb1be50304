use oghab_vpn::bridge::{
    call_connect, call_disconnect, call_is_vpn_running, call_measure_delay, Bridge, BridgeAction,
    BridgeCall, BridgeEvent, BridgeReply, ReplyKind, BRIDGE_CLASS,
};

fn known() -> Bridge {
    Bridge { vm: true, class: true }
}

fn attached(call: &mut BridgeCall, bridge: &mut Bridge) -> BridgeAction {
    assert!(matches!(call.step(bridge, BridgeEvent::Begin), BridgeAction::Attach));
    call.step(bridge, BridgeEvent::Attached(Ok(())))
}

fn error_of(action: BridgeAction) -> String {
    match action {
        BridgeAction::Finish(Err(error)) => error,
        _ => panic!("no error"),
    }
}

fn failure() -> String {
    "x".to_string()
}

#[test]
fn first_virtual_machine_is_kept() {
    let mut bridge = Bridge::new();
    assert!(bridge.store_java_vm());
    assert!(!bridge.store_java_vm());
    assert!(bridge.vm && !bridge.class);
}

#[test]
fn first_class_is_kept() {
    let mut bridge = Bridge::new();
    assert!(!bridge.ensure_bridge_class_cached());
    bridge.store_java_vm();
    assert!(bridge.wants_class());
    assert!(bridge.ensure_bridge_class_cached());
    assert!(!bridge.store_bridge_class(false));
    assert!(bridge.wants_class());
    assert!(bridge.store_bridge_class(true));
    assert!(!bridge.wants_class());
    assert!(!bridge.store_bridge_class(true));
    assert!(!bridge.ensure_bridge_class_cached());
    assert_eq!(BRIDGE_CLASS, "com/taktaz208/oghabvpn/AndroidVpnBridge");
}

#[test]
fn methods_and_signatures() {
    let call = call_connect("cfg", true);
    assert_eq!((call.method.as_str(), call.signature.as_str()), ("connect", "(Ljava/lang/String;Z)V"));
    assert_eq!(call.flag, Some(1));
    assert_eq!(call_connect("cfg", false).flag, Some(0));
    let call = call_disconnect();
    assert_eq!((call.method.as_str(), call.signature.as_str()), ("disconnect", "()V"));
    assert!(call.texts.is_empty() && call.flag.is_none());
    let call = call_is_vpn_running();
    assert_eq!((call.method.as_str(), call.signature.as_str()), ("isVpnRunning", "()Z"));
    let call = call_measure_delay("cfg", "url");
    assert_eq!(call.method, "measureOutboundDelay");
    assert_eq!(call.signature, "(Ljava/lang/String;Ljava/lang/String;)J");
    assert_eq!(call.texts.len(), 2);
}

#[test]
fn connecting() {
    let mut bridge = known();
    let mut call = call_connect("cfg", true);
    match attached(&mut call, &mut bridge) {
        BridgeAction::MakeText(text) => assert_eq!(text, "cfg"),
        _ => panic!("no text"),
    }
    assert!(matches!(
        call.step(&mut bridge, BridgeEvent::Made(Ok(()))),
        BridgeAction::Invoke
    ));
    assert!(matches!(
        call.step(&mut bridge, BridgeEvent::Invoked(Ok(()))),
        BridgeAction::Finish(Ok(BridgeReply::Nothing))
    ));
}

#[test]
fn measuring() {
    let mut bridge = known();
    let mut call = call_measure_delay("cfg", "url");
    assert!(matches!(attached(&mut call, &mut bridge), BridgeAction::MakeText(text) if text == "cfg"));
    assert!(matches!(
        call.step(&mut bridge, BridgeEvent::Made(Ok(()))),
        BridgeAction::MakeText(text) if text == "url"
    ));
    call.step(&mut bridge, BridgeEvent::Made(Ok(())));
    assert!(matches!(
        call.step(&mut bridge, BridgeEvent::Invoked(Ok(()))),
        BridgeAction::Decode(ReplyKind::Number)
    ));
    assert!(matches!(
        call.step(&mut bridge, BridgeEvent::Decoded(Ok(BridgeReply::Number(7)))),
        BridgeAction::Finish(Ok(BridgeReply::Number(7)))
    ));
}

#[test]
fn asking_whether_it_runs() {
    let mut bridge = known();
    let mut call = call_is_vpn_running();
    assert!(matches!(attached(&mut call, &mut bridge), BridgeAction::Invoke));
    assert!(matches!(
        call.step(&mut bridge, BridgeEvent::Invoked(Ok(()))),
        BridgeAction::Decode(ReplyKind::Flag)
    ));
    assert!(matches!(
        call.step(&mut bridge, BridgeEvent::Decoded(Ok(BridgeReply::Flag(true)))),
        BridgeAction::Finish(Ok(BridgeReply::Flag(true)))
    ));
}

#[test]
fn class_is_looked_for() {
    let mut bridge = Bridge { vm: true, class: false };
    let mut call = call_disconnect();
    assert!(matches!(attached(&mut call, &mut bridge), BridgeAction::FindClass));
    assert!(matches!(
        call.step(&mut bridge, BridgeEvent::Found(true)),
        BridgeAction::Invoke
    ));
    assert!(bridge.class);
    let mut bridge = Bridge { vm: true, class: false };
    let mut call = call_disconnect();
    attached(&mut call, &mut bridge);
    assert_eq!(
        error_of(call.step(&mut bridge, BridgeEvent::Found(false))),
        "Android bridge class was not registered before native call"
    );
}

#[test]
fn failures_before_the_call() {
    let mut bridge = Bridge::new();
    assert_eq!(
        error_of(call_disconnect().step(&mut bridge, BridgeEvent::Begin)),
        "Android JVM not initialized"
    );
    let mut bridge = known();
    let mut call = call_disconnect();
    call.step(&mut bridge, BridgeEvent::Begin);
    assert_eq!(
        error_of(call.step(&mut bridge, BridgeEvent::Attached(Err(failure())))),
        "Failed to attach JNI thread: x"
    );
    let mut call = call_connect("cfg", false);
    attached(&mut call, &mut bridge);
    assert_eq!(
        error_of(call.step(&mut bridge, BridgeEvent::Made(Err(failure())))),
        "Failed to create config string: x"
    );
    let mut call = call_measure_delay("cfg", "url");
    attached(&mut call, &mut bridge);
    call.step(&mut bridge, BridgeEvent::Made(Ok(())));
    assert_eq!(
        error_of(call.step(&mut bridge, BridgeEvent::Made(Err(failure())))),
        "Failed to create probe url: x"
    );
}

#[test]
fn failures_of_the_call() {
    let expected = [
        (call_connect("c", true), 1, "Android connect failed: x"),
        (call_disconnect(), 0, "Android disconnect failed: x"),
        (call_is_vpn_running(), 0, "Android VPN status check failed: x"),
        (call_measure_delay("c", "u"), 2, "Android delay probe failed: x"),
    ];
    for (mut call, texts, message) in expected {
        let mut bridge = known();
        attached(&mut call, &mut bridge);
        for _ in 0..texts {
            call.step(&mut bridge, BridgeEvent::Made(Ok(())));
        }
        assert_eq!(error_of(call.step(&mut bridge, BridgeEvent::Invoked(Err(failure())))), message);
    }
}

#[test]
fn failures_of_the_reply() {
    let expected = [
        (call_is_vpn_running(), 0, "Android VPN status decode failed: x"),
        (call_measure_delay("c", "u"), 2, "Android delay result decode failed: x"),
    ];
    for (mut call, texts, message) in expected {
        let mut bridge = known();
        attached(&mut call, &mut bridge);
        for _ in 0..texts {
            call.step(&mut bridge, BridgeEvent::Made(Ok(())));
        }
        call.step(&mut bridge, BridgeEvent::Invoked(Ok(())));
        assert_eq!(error_of(call.step(&mut bridge, BridgeEvent::Decoded(Err(failure())))), message);
    }
}
