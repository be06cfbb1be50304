use oghab_vpn::config::{
    build_config_value, build_xray_config, config_from_text, ACTIVE_SOCKS_PORT,
    ACTIVE_TUN_INTERFACE, BROWSER_USER_AGENT,
};
use oghab_vpn::uri::{parse_vless_uri, ParsedVless};
use serde_json::Value;

fn parse(uri: &str) -> ParsedVless {
    match parse_vless_uri(uri) {
        Ok(parsed) => parsed,
        Err(error) => panic!("{error}"),
    }
}

fn config(uri: &str, tunnel_mode: bool) -> Value {
    let text = build_xray_config(&parse(uri), 10808, tunnel_mode, "tun0").unwrap();
    serde_json::from_str(&text).unwrap()
}

fn json(text: &str) -> Value {
    serde_json::from_str(text).unwrap()
}

fn stream(uri: &str) -> Value {
    config(uri, false)["outbounds"][0]["streamSettings"].clone()
}

#[test]
fn whole_config_with_socks_port() {
    let expected = json(
        r#"{
            "stats": {},
            "log": {"loglevel": "warning"},
            "policy": {
                "levels": {"8": {"handshake": 4, "connIdle": 300, "uplinkOnly": 1, "downlinkOnly": 1}},
                "system": {"statsOutboundUplink": true, "statsOutboundDownlink": true}
            },
            "inbounds": [{
                "tag": "socks", "listen": "127.0.0.1", "port": 10808, "protocol": "socks",
                "settings": {"auth": "noauth", "udp": true, "userLevel": 8},
                "sniffing": {"enabled": true, "destOverride": ["http", "tls", "quic"]}
            }],
            "outbounds": [{
                "tag": "proxy", "protocol": "vless",
                "settings": {"vnext": [{
                    "address": "example.com", "port": 8443,
                    "users": [{"id": "id", "encryption": "none", "level": 8, "flow": "vision"}]
                }]},
                "streamSettings": {
                    "network": "tcp", "security": "none",
                    "tcpSettings": {"header": {"type": "none"}}
                },
                "mux": {"enabled": false}
            }, {
                "tag": "direct", "protocol": "freedom",
                "streamSettings": {"sockopt": {"domainStrategy": "UseIP"}}
            }, {
                "tag": "block", "protocol": "blackhole",
                "settings": {"response": {"type": "http"}}
            }],
            "routing": {"domainStrategy": "AsIs", "rules": []},
            "dns": {"hosts": {}, "servers": []}
        }"#,
    );
    assert_eq!(config("vless://id@example.com:8443?flow=vision", false), expected);
    let value = build_config_value(&parse("vless://id@example.com:8443?flow=vision"), 10808, false, "x");
    assert_eq!(value, expected);
}

#[test]
fn tunnel_mode_uses_an_interface() {
    assert_eq!(
        config("vless://id@h", true)["inbounds"],
        json(
            r#"[{
                "tag": "tun", "protocol": "tun",
                "settings": {"name": "tun0", "MTU": 1500, "userLevel": 8},
                "sniffing": {"enabled": true, "destOverride": ["http", "tls", "quic"]}
            }]"#
        )
    );
}

#[test]
fn config_ignores_what_it_does_not_use() {
    let parsed = parse("vless://id@h");
    let a = build_xray_config(&parsed, 1, true, "x").unwrap();
    assert_eq!(a, build_xray_config(&parsed, 2, true, "x").unwrap());
    let b = build_xray_config(&parsed, 1, false, "x").unwrap();
    assert_eq!(b, build_xray_config(&parsed, 1, false, "y").unwrap());
    assert_ne!(a, b);
}

#[test]
fn config_ignores_the_label() {
    let a = build_xray_config(&parse("vless://id@h#one"), 1, false, "x");
    let b = build_xray_config(&parse("vless://id@h#two"), 1, false, "x");
    assert_eq!(a, b);
}

#[test]
fn text_of_config_is_pretty() {
    let text = build_xray_config(&parse("vless://id@h"), 1, false, "x").unwrap();
    assert!(text.starts_with("{\n  \"dns\": {\n    \"hosts\": {},\n    \"servers\": []\n  },\n"));
    assert!(text.ends_with("}"));
}

#[test]
fn user_without_flow() {
    let config = config("vless://id@h?encryption=aes", false);
    assert_eq!(
        config["outbounds"][0]["settings"]["vnext"][0]["users"],
        json(r#"[{"id": "id", "encryption": "aes", "level": 8}]"#)
    );
}

#[test]
fn tcp_with_http_header() {
    let stream = stream("vless://id@h?headerType=http&host=a.example,%20b.example,&path=/x,/y");
    let request = &stream["tcpSettings"]["header"]["request"];
    assert_eq!(stream["tcpSettings"]["header"]["type"], "http");
    assert_eq!(request["version"], "1.1");
    assert_eq!(request["method"], "GET");
    assert_eq!(request["path"], json(r#"["/x", "/y"]"#));
    assert_eq!(request["headers"]["Host"], json(r#"["a.example", "b.example"]"#));
    assert_eq!(request["headers"]["User-Agent"][0], BROWSER_USER_AGENT);
    assert_eq!(request["headers"]["Accept-Encoding"], json(r#"["gzip, deflate"]"#));
    assert_eq!(request["headers"]["Connection"], json(r#"["keep-alive"]"#));
    assert_eq!(request["headers"]["Pragma"], "no-cache");
}

#[test]
fn tcp_with_http_header_and_blank_lists() {
    let stream = stream("vless://id@h.example?headerType=http&host=,&path=,");
    let request = &stream["tcpSettings"]["header"]["request"];
    assert_eq!(request["path"], json(r#"["/"]"#));
    assert_eq!(request["headers"]["Host"], json(r#"["h.example"]"#));
}

#[test]
fn ws_settings() {
    assert_eq!(
        stream("vless://id@h?type=ws&path=/p&host=x")["wsSettings"],
        json(r#"{"path": "/p", "headers": {"Host": "x"}}"#)
    );
    assert_eq!(
        stream("vless://id@h?type=ws")["wsSettings"],
        json(r#"{"path": "/", "headers": {"Host": "h"}}"#)
    );
}

#[test]
fn grpc_settings() {
    assert_eq!(
        stream("vless://id@h?type=grpc&serviceName=s&authority=a")["grpcSettings"],
        json(r#"{"serviceName": "s", "authority": "a"}"#)
    );
    assert_eq!(
        stream("vless://id@h?type=grpc")["grpcSettings"],
        json(r#"{"serviceName": "", "authority": ""}"#)
    );
}

#[test]
fn httpupgrade_settings() {
    assert_eq!(
        stream("vless://id@h?type=httpupgrade&path=/p")["httpupgradeSettings"],
        json(r#"{"path": "/p", "host": "h"}"#)
    );
}

#[test]
fn xhttp_settings() {
    assert_eq!(
        stream("vless://id@h?type=xhttp")["xhttpSettings"],
        json(r#"{"host": "", "path": "/", "mode": "auto"}"#)
    );
    assert_eq!(
        stream("vless://id@h?type=xhttp&host=x&path=/p&mode=packet-up")["xhttpSettings"],
        json(r#"{"host": "x", "path": "/p", "mode": "packet-up"}"#)
    );
}

#[test]
fn http_is_h2() {
    let h2 = stream("vless://id@h?type=h2&host=a,b&path=/p");
    assert_eq!(h2, stream("vless://id@h?type=http&host=a,b&path=/p"));
    assert_eq!(h2["network"], "h2");
    assert_eq!(h2["httpSettings"], json(r#"{"host": ["a", "b"], "path": "/p"}"#));
}

#[test]
fn unknown_transport_has_no_settings() {
    assert_eq!(
        stream("vless://id@h?type=quic&security=odd"),
        json(r#"{"network": "quic", "security": "odd"}"#)
    );
}

#[test]
fn tls_settings() {
    assert_eq!(
        stream("vless://id@h?security=tls&sni=s&fp=chrome&alpn=h2,http/1.1")["tlsSettings"],
        json(
            r#"{"serverName": "s", "allowInsecure": false, "alpn": ["h2", "http/1.1"], "fingerprint": "chrome"}"#
        )
    );
    assert_eq!(
        stream("vless://id@h?security=tls&host=x")["tlsSettings"],
        json(r#"{"serverName": "x", "allowInsecure": false}"#)
    );
    assert_eq!(stream("vless://id@h?security=tls")["tlsSettings"]["serverName"], "h");
    assert!(stream("vless://id@h?security=tls").get("realitySettings").is_none());
}

#[test]
fn reality_settings() {
    assert_eq!(
        stream("vless://id@h?security=reality&host=x")["realitySettings"],
        json(
            r#"{"serverName": "h", "publicKey": "", "shortId": "", "fingerprint": "chrome", "show": false}"#
        )
    );
    assert_eq!(
        stream("vless://id@h?security=reality&sni=s&pbk=k&sid=1&fp=safari&alpn=h2&spx=/x")
            ["realitySettings"],
        json(
            r#"{"serverName": "s", "publicKey": "k", "shortId": "1", "fingerprint": "safari", "show": false, "alpn": ["h2"], "spiderX": "/x"}"#
        )
    );
    assert!(stream("vless://id@h?security=reality").get("tlsSettings").is_none());
}

#[test]
fn error_of_serialization() {
    assert_eq!(
        config_from_text(Err("x".to_string())),
        Err("Failed to serialize Xray config: x".to_string())
    );
    assert_eq!(config_from_text(Ok("{}".to_string())), Ok("{}".to_string()));
}

#[test]
fn constants_of_the_connection() {
    assert_eq!(ACTIVE_SOCKS_PORT, 10808);
    assert_eq!(ACTIVE_TUN_INTERFACE, "oghab-tun");
}
