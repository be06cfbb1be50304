use oghab_vpn::uri::{parse_vless_uri, vless_from_parts, ParsedVless, UrlParts};

fn parse(uri: &str) -> ParsedVless {
    match parse_vless_uri(uri) {
        Ok(parsed) => parsed,
        Err(error) => panic!("{error}"),
    }
}

fn error_of(uri: &str) -> String {
    match parse_vless_uri(uri) {
        Ok(_) => panic!("{uri} was accepted"),
        Err(error) => error,
    }
}

fn parts() -> UrlParts {
    UrlParts {
        scheme: "vless".to_string(),
        username: "id".to_string(),
        host: Some("h".to_string()),
        port: None,
        query: Vec::new(),
        fragment: None,
    }
}

#[test]
fn full_uri_is_read() {
    let uri = "vless://0b5e-42@example.com:8443?type=ws&security=tls&encryption=none&flow=xtls-rprx-vision&sni=s.example&fp=firefox&pbk=key&sid=ab&host=h.example&path=%2Fws%3Fed%3D1&serviceName=svc&authority=auth&mode=gun&headerType=http&spx=%2Fx&alpn=h2%2C%20http%2F1.1%2C#My+Server%20%231";
    let parsed = parse(uri);
    assert_eq!(parsed.uri, uri);
    assert_eq!(parsed.uuid, "0b5e-42");
    assert_eq!(parsed.host, "example.com");
    assert_eq!(parsed.port, 8443);
    assert_eq!(parsed.network, "ws");
    assert_eq!(parsed.security, "tls");
    assert_eq!(parsed.encryption, "none");
    assert_eq!(parsed.flow.as_deref(), Some("xtls-rprx-vision"));
    assert_eq!(parsed.sni.as_deref(), Some("s.example"));
    assert_eq!(parsed.fingerprint.as_deref(), Some("firefox"));
    assert_eq!(parsed.public_key.as_deref(), Some("key"));
    assert_eq!(parsed.short_id.as_deref(), Some("ab"));
    assert_eq!(parsed.host_header.as_deref(), Some("h.example"));
    assert_eq!(parsed.path.as_deref(), Some("/ws?ed=1"));
    assert_eq!(parsed.service_name.as_deref(), Some("svc"));
    assert_eq!(parsed.authority.as_deref(), Some("auth"));
    assert_eq!(parsed.mode.as_deref(), Some("gun"));
    assert_eq!(parsed.header_type.as_deref(), Some("http"));
    assert_eq!(parsed.spider_x.as_deref(), Some("/x"));
    assert_eq!(parsed.alpn, vec!["h2", "http/1.1"]);
    assert_eq!(parsed.label, "My Server #1");
}

#[test]
fn short_uri_has_defaults() {
    let parsed = parse("vless://id@example.com");
    assert_eq!(parsed.port, 443);
    assert_eq!(parsed.network, "tcp");
    assert_eq!(parsed.security, "none");
    assert_eq!(parsed.encryption, "none");
    assert_eq!(parsed.label, "example.com:443");
    assert!(parsed.flow.is_none());
    assert!(parsed.mode.is_none());
    assert!(parsed.spider_x.is_none());
    assert!(parsed.alpn.is_empty());
}

#[test]
fn second_names_of_keys() {
    let parsed = parse("vless://id@h?xmode=packet-up&spiderX=a");
    assert_eq!(parsed.mode.as_deref(), Some("packet-up"));
    assert_eq!(parsed.spider_x.as_deref(), Some("a"));
    let parsed = parse("vless://id@h?xmode=a&mode=b&spiderX=c&spx=d");
    assert_eq!(parsed.mode.as_deref(), Some("b"));
    assert_eq!(parsed.spider_x.as_deref(), Some("d"));
}

#[test]
fn last_value_of_a_key_counts() {
    let parsed = parse("vless://id@h?type=ws&type=grpc&security=tls&type=xhttp");
    assert_eq!(parsed.network, "xhttp");
    assert_eq!(parsed.security, "tls");
}

#[test]
fn labels() {
    assert_eq!(parse("vless://id@h:1#a+b").label, "a b");
    assert_eq!(parse("vless://id@h:1#a%2Bb").label, "a b");
    assert_eq!(parse("vless://id@h:1#").label, "h:1");
    assert_eq!(parse("vless://id@h:1#%E2%9C%93").label, "\u{2713}");
    assert_eq!(parse("vless://id@h:1#%FF+x").label, "%FF x");
    assert_eq!(parse("vless://id@[::1]:2").label, "[::1]:2");
}

#[test]
fn errors_of_parsing() {
    assert_eq!(error_of("no url"), "Invalid URL: relative URL without a base");
    assert_eq!(error_of("https://id@h"), "Only vless:// URIs are supported");
    assert_eq!(error_of("vless://example.com:443"), "Missing VLESS user id");
    assert_eq!(error_of("vless:rest"), "Missing VLESS user id");
    assert_eq!(error_of("vless://id@h:99999"), "Invalid URL: invalid port number");
}

#[test]
fn parts_without_host_are_refused() {
    let mut given = parts();
    given.host = None;
    assert!(matches!(
        vless_from_parts("u", &given, None),
        Err(error) if error == "Missing server host"
    ));
}

#[test]
fn parts_with_blank_user_are_refused() {
    let mut given = parts();
    given.username = " \t".to_string();
    assert!(matches!(
        vless_from_parts("u", &given, None),
        Err(error) if error == "Missing VLESS user id"
    ));
}

#[test]
fn user_is_trimmed() {
    let mut given = parts();
    given.username = " id ".to_string();
    match vless_from_parts("u", &given, None) {
        Ok(parsed) => assert_eq!(parsed.uuid, "id"),
        Err(error) => panic!("{error}"),
    }
}

#[test]
fn fragment_that_cannot_be_decoded_is_kept() {
    let mut given = parts();
    given.fragment = Some("%FF+a".to_string());
    match vless_from_parts("u", &given, None) {
        Ok(parsed) => assert_eq!(parsed.label, "%FF a"),
        Err(error) => panic!("{error}"),
    }
}
