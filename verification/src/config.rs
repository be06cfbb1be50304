//! The configuration that Xray is run with.

use crate::json::{
    json_bool, json_list, json_number, json_object, json_set, json_single, json_text, json_texts,
    json_to_string_pretty, no_fields, pretty_text, text_items, tree, JsonTree,
};
use crate::text::{clone_or, list_entries, list_of, same_text, text_or, texts};
use crate::uri::{first_of, ParsedVless, VlessModel};
use vstd::prelude::*;
use vstd::string::*;

verus! {

/// The user agent that requests are made with.
pub const BROWSER_USER_AGENT: &'static str = "Mozilla/5.0 (Windows NT 10.0; Win64; x64) AppleWebKit/537.36 (KHTML, like Gecko) Chrome/137.0.0.0 Safari/537.36";

/// The local port that the active connection is offered at.
pub const ACTIVE_SOCKS_PORT: u16 = 10808;

/// The name of the network interface of the active connection.
pub const ACTIVE_TUN_INTERFACE: &'static str = "oghab-tun";

/// The user of the server.
pub open spec fn user_tree(parsed: VlessModel) -> JsonTree {
    let user = no_fields()
        .with("id"@, JsonTree::Text(parsed.uuid))
        .with("encryption"@, JsonTree::Text(parsed.encryption))
        .with("level"@, JsonTree::Number(8));
    match parsed.flow {
        Some(flow) => user.with("flow"@, JsonTree::Text(flow)),
        None => user,
    }
}

/// The list, or the list of the fallback alone if the list is empty.
pub open spec fn list_or(list: Seq<Seq<char>>, fallback: Seq<char>) -> Seq<Seq<char>> {
    if list.len() == 0 {
        seq![fallback]
    } else {
        list
    }
}

/// The host that a request is made to: the host header, or the address of the server.
pub open spec fn request_host(parsed: VlessModel) -> Seq<char> {
    text_or(parsed.host_header, parsed.host)
}

/// The hosts of an HTTP header, at least one.
pub open spec fn request_hosts(parsed: VlessModel) -> Seq<Seq<char>> {
    list_or(list_of(request_host(parsed)), parsed.host)
}

/// The path that a request is made to.
pub open spec fn request_path(parsed: VlessModel) -> Seq<char> {
    text_or(parsed.path, "/"@)
}

/// The paths of an HTTP header, at least one.
pub open spec fn request_paths(parsed: VlessModel) -> Seq<Seq<char>> {
    list_or(list_of(request_path(parsed)), "/"@)
}

/// The settings of a TCP connection that is made to look like HTTP.
pub open spec fn http_header_tree(parsed: VlessModel) -> JsonTree {
    let headers = no_fields()
        .with("Host"@, text_items(request_hosts(parsed)))
        .with("User-Agent"@, JsonTree::List(seq![JsonTree::Text(BROWSER_USER_AGENT@)]))
        .with("Accept-Encoding"@, JsonTree::List(seq![JsonTree::Text("gzip, deflate"@)]))
        .with("Connection"@, JsonTree::List(seq![JsonTree::Text("keep-alive"@)]))
        .with("Pragma"@, JsonTree::Text("no-cache"@));
    let request = no_fields()
        .with("version"@, JsonTree::Text("1.1"@))
        .with("method"@, JsonTree::Text("GET"@))
        .with("path"@, text_items(request_paths(parsed)))
        .with("headers"@, headers);
    no_fields().with(
        "header"@,
        no_fields().with("type"@, JsonTree::Text("http"@)).with("request"@, request),
    )
}

/// The settings of the transport, under the name that they have in the stream settings; none
/// for a transport that is not known.
pub open spec fn transport_tree(parsed: VlessModel) -> Option<(Seq<char>, JsonTree)> {
    if parsed.network == "tcp"@ {
        Some(
            (
                "tcpSettings"@,
                if parsed.header_type == Some("http"@) {
                    http_header_tree(parsed)
                } else {
                    no_fields().with("header"@, no_fields().with("type"@, JsonTree::Text("none"@)))
                },
            ),
        )
    } else if parsed.network == "ws"@ {
        Some(
            (
                "wsSettings"@,
                no_fields()
                    .with("path"@, JsonTree::Text(request_path(parsed)))
                    .with(
                        "headers"@,
                        no_fields().with("Host"@, JsonTree::Text(request_host(parsed))),
                    ),
            ),
        )
    } else if parsed.network == "grpc"@ {
        Some(
            (
                "grpcSettings"@,
                no_fields()
                    .with("serviceName"@, JsonTree::Text(text_or(parsed.service_name, ""@)))
                    .with("authority"@, JsonTree::Text(text_or(parsed.authority, ""@))),
            ),
        )
    } else if parsed.network == "httpupgrade"@ {
        Some(
            (
                "httpupgradeSettings"@,
                no_fields()
                    .with("path"@, JsonTree::Text(request_path(parsed)))
                    .with("host"@, JsonTree::Text(request_host(parsed))),
            ),
        )
    } else if parsed.network == "xhttp"@ {
        Some(
            (
                "xhttpSettings"@,
                no_fields()
                    .with("host"@, JsonTree::Text(text_or(parsed.host_header, ""@)))
                    .with("path"@, JsonTree::Text(request_path(parsed)))
                    .with("mode"@, JsonTree::Text(text_or(parsed.mode, "auto"@))),
            ),
        )
    } else if parsed.network == "h2"@ || parsed.network == "http"@ {
        Some(
            (
                "httpSettings"@,
                no_fields()
                    .with("host"@, text_items(request_hosts(parsed)))
                    .with("path"@, JsonTree::Text(request_path(parsed))),
            ),
        )
    } else {
        None
    }
}

/// The name of the transport as Xray knows it.
pub open spec fn network_name(network: Seq<char>) -> Seq<char> {
    if network == "http"@ {
        "h2"@
    } else {
        network
    }
}

/// The object with the list of application protocols, if there are any.
pub open spec fn with_alpn(settings: JsonTree, parsed: VlessModel) -> JsonTree {
    if parsed.alpn.len() > 0 {
        settings.with("alpn"@, text_items(parsed.alpn))
    } else {
        settings
    }
}

/// The settings of TLS.
pub open spec fn tls_tree(parsed: VlessModel) -> JsonTree {
    let settings = with_alpn(
        no_fields()
            .with(
                "serverName"@,
                JsonTree::Text(text_or(first_of(parsed.sni, parsed.host_header), parsed.host)),
            )
            .with("allowInsecure"@, JsonTree::Bool(false)),
        parsed,
    );
    match parsed.fingerprint {
        Some(fingerprint) => settings.with("fingerprint"@, JsonTree::Text(fingerprint)),
        None => settings,
    }
}

/// The settings of REALITY.
pub open spec fn reality_tree(parsed: VlessModel) -> JsonTree {
    let settings = with_alpn(
        no_fields()
            .with("serverName"@, JsonTree::Text(text_or(parsed.sni, parsed.host)))
            .with("publicKey"@, JsonTree::Text(text_or(parsed.public_key, ""@)))
            .with("shortId"@, JsonTree::Text(text_or(parsed.short_id, ""@)))
            .with("fingerprint"@, JsonTree::Text(text_or(parsed.fingerprint, "chrome"@)))
            .with("show"@, JsonTree::Bool(false)),
        parsed,
    );
    match parsed.spider_x {
        Some(spider_x) => settings.with("spiderX"@, JsonTree::Text(spider_x)),
        None => settings,
    }
}

/// The settings of the connection to the server.
pub open spec fn stream_tree(parsed: VlessModel) -> JsonTree {
    let named = no_fields()
        .with("network"@, JsonTree::Text(network_name(parsed.network)))
        .with("security"@, JsonTree::Text(parsed.security));
    let carried = match transport_tree(parsed) {
        Some((name, settings)) => named.with(name, settings),
        None => named,
    };
    if parsed.security == "tls"@ {
        carried.with("tlsSettings"@, tls_tree(parsed))
    } else if parsed.security == "reality"@ {
        carried.with("realitySettings"@, reality_tree(parsed))
    } else {
        carried
    }
}

/// What Xray looks for in the traffic to learn where it goes.
pub open spec fn sniffing_tree() -> JsonTree {
    no_fields().with("enabled"@, JsonTree::Bool(true)).with(
        "destOverride"@,
        text_items(seq!["http"@, "tls"@, "quic"@]),
    )
}

/// Where the traffic comes from: a network interface in tunnel mode, a local SOCKS port
/// otherwise.
pub open spec fn inbound_tree(socks_port: u16, tunnel_mode: bool, tun_name: Seq<char>) -> JsonTree {
    if tunnel_mode {
        no_fields()
            .with("tag"@, JsonTree::Text("tun"@))
            .with("protocol"@, JsonTree::Text("tun"@))
            .with(
                "settings"@,
                no_fields()
                    .with("name"@, JsonTree::Text(tun_name))
                    .with("MTU"@, JsonTree::Number(1500))
                    .with("userLevel"@, JsonTree::Number(8)),
            )
            .with("sniffing"@, sniffing_tree())
    } else {
        no_fields()
            .with("tag"@, JsonTree::Text("socks"@))
            .with("listen"@, JsonTree::Text("127.0.0.1"@))
            .with("port"@, JsonTree::Number(socks_port as nat))
            .with("protocol"@, JsonTree::Text("socks"@))
            .with(
                "settings"@,
                no_fields()
                    .with("auth"@, JsonTree::Text("noauth"@))
                    .with("udp"@, JsonTree::Bool(true))
                    .with("userLevel"@, JsonTree::Number(8)),
            )
            .with("sniffing"@, sniffing_tree())
    }
}

/// The limits and counters of Xray.
pub open spec fn policy_tree() -> JsonTree {
    let level = no_fields()
        .with("handshake"@, JsonTree::Number(4))
        .with("connIdle"@, JsonTree::Number(300))
        .with("uplinkOnly"@, JsonTree::Number(1))
        .with("downlinkOnly"@, JsonTree::Number(1));
    let system = no_fields()
        .with("statsOutboundUplink"@, JsonTree::Bool(true))
        .with("statsOutboundDownlink"@, JsonTree::Bool(true));
    no_fields().with("levels"@, no_fields().with("8"@, level)).with("system"@, system)
}

/// The way out through the server.
pub open spec fn proxy_tree(parsed: VlessModel) -> JsonTree {
    let server = no_fields()
        .with("address"@, JsonTree::Text(parsed.host))
        .with("port"@, JsonTree::Number(parsed.port as nat))
        .with("users"@, JsonTree::List(seq![user_tree(parsed)]));
    no_fields()
        .with("tag"@, JsonTree::Text("proxy"@))
        .with("protocol"@, JsonTree::Text("vless"@))
        .with("settings"@, no_fields().with("vnext"@, JsonTree::List(seq![server])))
        .with("streamSettings"@, stream_tree(parsed))
        .with("mux"@, no_fields().with("enabled"@, JsonTree::Bool(false)))
}

/// The way out that does without the server.
pub open spec fn direct_tree() -> JsonTree {
    no_fields()
        .with("tag"@, JsonTree::Text("direct"@))
        .with("protocol"@, JsonTree::Text("freedom"@))
        .with(
            "streamSettings"@,
            no_fields().with(
                "sockopt"@,
                no_fields().with("domainStrategy"@, JsonTree::Text("UseIP"@)),
            ),
        )
}

/// The way out for traffic that is refused.
pub open spec fn block_tree() -> JsonTree {
    no_fields()
        .with("tag"@, JsonTree::Text("block"@))
        .with("protocol"@, JsonTree::Text("blackhole"@))
        .with(
            "settings"@,
            no_fields().with("response"@, no_fields().with("type"@, JsonTree::Text("http"@))),
        )
}

/// The whole configuration.
pub open spec fn config_tree(
    parsed: VlessModel,
    socks_port: u16,
    tunnel_mode: bool,
    tun_name: Seq<char>,
) -> JsonTree {
    no_fields()
        .with("stats"@, no_fields())
        .with("log"@, no_fields().with("loglevel"@, JsonTree::Text("warning"@)))
        .with("policy"@, policy_tree())
        .with(
            "inbounds"@,
            JsonTree::List(seq![inbound_tree(socks_port, tunnel_mode, tun_name)]),
        )
        .with(
            "outbounds"@,
            JsonTree::List(seq![proxy_tree(parsed), direct_tree(), block_tree()]),
        )
        .with(
            "routing"@,
            no_fields()
                .with("domainStrategy"@, JsonTree::Text("AsIs"@))
                .with("rules"@, JsonTree::List(seq![])),
        )
        .with(
            "dns"@,
            no_fields().with("hosts"@, no_fields()).with("servers"@, JsonTree::List(seq![])),
        )
}

/// The text of the whole configuration, or why there is none.
pub open spec fn config_text(
    parsed: VlessModel,
    socks_port: u16,
    tunnel_mode: bool,
    tun_name: Seq<char>,
) -> Result<Seq<char>, Seq<char>> {
    serialized(pretty_text(config_tree(parsed, socks_port, tunnel_mode, tun_name)))
}

/// The text that a configuration was turned into, or why it could not be.
pub open spec fn serialized(text: Result<Seq<char>, Seq<char>>) -> Result<Seq<char>, Seq<char>> {
    match text {
        Ok(text) => Ok(text),
        Err(error) => Err("Failed to serialize Xray config: "@ + error),
    }
}

/// The view of a text or of the message of an error.
pub open spec fn text_outcome(result: Result<String, String>) -> Result<Seq<char>, Seq<char>> {
    match result {
        Ok(text) => Ok(text@),
        Err(error) => Err(error@),
    }
}

/// The user of the server.
fn build_user(parsed: &ParsedVless) -> (user: serde_json::Value)
    ensures
        tree(user) == user_tree(parsed@),
{
    let mut user = json_object();
    json_set(&mut user, "id", json_text(parsed.uuid.as_str()));
    json_set(&mut user, "encryption", json_text(parsed.encryption.as_str()));
    json_set(&mut user, "level", json_number(8));
    if let Some(flow) = &parsed.flow {
        json_set(&mut user, "flow", json_text(flow.as_str()));
    }
    user
}

/// The hosts of an HTTP header, at least one.
fn build_hosts(parsed: &ParsedVless) -> (hosts: Vec<String>)
    ensures
        texts(hosts@) == request_hosts(parsed@),
{
    let mut hosts = list_entries(clone_or(&parsed.host_header, parsed.host.as_str()).as_str());
    assert(texts(hosts@).len() == hosts.len());
    if hosts.is_empty() {
        hosts.push(parsed.host.clone());
        assert(texts(hosts@) =~= seq![parsed.host@]);
    }
    hosts
}

/// The paths of an HTTP header, at least one.
fn build_paths(parsed: &ParsedVless) -> (paths: Vec<String>)
    ensures
        texts(paths@) == request_paths(parsed@),
{
    let mut paths = list_entries(clone_or(&parsed.path, "/").as_str());
    assert(texts(paths@).len() == paths.len());
    if paths.is_empty() {
        paths.push("/".to_owned());
        assert(texts(paths@) =~= seq!["/"@]);
    }
    paths
}

/// The settings of a TCP connection that is made to look like HTTP.
fn build_http_header(parsed: &ParsedVless) -> (settings: serde_json::Value)
    ensures
        tree(settings) == http_header_tree(parsed@),
{
    let mut headers = json_object();
    json_set(&mut headers, "Host", json_texts(&build_hosts(parsed)));
    json_set(&mut headers, "User-Agent", json_single(json_text(BROWSER_USER_AGENT)));
    json_set(&mut headers, "Accept-Encoding", json_single(json_text("gzip, deflate")));
    json_set(&mut headers, "Connection", json_single(json_text("keep-alive")));
    json_set(&mut headers, "Pragma", json_text("no-cache"));
    let mut request = json_object();
    json_set(&mut request, "version", json_text("1.1"));
    json_set(&mut request, "method", json_text("GET"));
    json_set(&mut request, "path", json_texts(&build_paths(parsed)));
    json_set(&mut request, "headers", headers);
    let mut header = json_object();
    json_set(&mut header, "type", json_text("http"));
    json_set(&mut header, "request", request);
    let mut settings = json_object();
    json_set(&mut settings, "header", header);
    settings
}

/// Adds the settings of the transport to the settings of the stream.
fn add_transport(stream: &mut serde_json::Value, parsed: &ParsedVless)
    requires
        tree(*old(stream)) is Object,
    ensures
        tree(*final(stream)) == match transport_tree(parsed@) {
            Some((name, settings)) => tree(*old(stream)).with(name, settings),
            None => tree(*old(stream)),
        },
{
    let network = parsed.network.as_str();
    let mut settings = json_object();
    if same_text(network, "tcp") {
        let http = match &parsed.header_type {
            Some(header_type) => same_text(header_type.as_str(), "http"),
            None => false,
        };
        if http {
            settings = build_http_header(parsed);
        } else {
            let mut header = json_object();
            json_set(&mut header, "type", json_text("none"));
            json_set(&mut settings, "header", header);
        }
        json_set(stream, "tcpSettings", settings);
    } else if same_text(network, "ws") {
        let mut headers = json_object();
        json_set(
            &mut headers,
            "Host",
            json_text(clone_or(&parsed.host_header, parsed.host.as_str()).as_str()),
        );
        json_set(&mut settings, "path", json_text(clone_or(&parsed.path, "/").as_str()));
        json_set(&mut settings, "headers", headers);
        json_set(stream, "wsSettings", settings);
    } else if same_text(network, "grpc") {
        json_set(
            &mut settings,
            "serviceName",
            json_text(clone_or(&parsed.service_name, "").as_str()),
        );
        json_set(&mut settings, "authority", json_text(clone_or(&parsed.authority, "").as_str()));
        json_set(stream, "grpcSettings", settings);
    } else if same_text(network, "httpupgrade") {
        json_set(&mut settings, "path", json_text(clone_or(&parsed.path, "/").as_str()));
        json_set(
            &mut settings,
            "host",
            json_text(clone_or(&parsed.host_header, parsed.host.as_str()).as_str()),
        );
        json_set(stream, "httpupgradeSettings", settings);
    } else if same_text(network, "xhttp") {
        json_set(&mut settings, "host", json_text(clone_or(&parsed.host_header, "").as_str()));
        json_set(&mut settings, "path", json_text(clone_or(&parsed.path, "/").as_str()));
        json_set(&mut settings, "mode", json_text(clone_or(&parsed.mode, "auto").as_str()));
        json_set(stream, "xhttpSettings", settings);
    } else if same_text(network, "h2") || same_text(network, "http") {
        json_set(&mut settings, "host", json_texts(&build_hosts(parsed)));
        json_set(&mut settings, "path", json_text(clone_or(&parsed.path, "/").as_str()));
        json_set(stream, "httpSettings", settings);
    }
}

/// The settings of TLS.
fn build_tls(parsed: &ParsedVless) -> (settings: serde_json::Value)
    ensures
        tree(settings) == tls_tree(parsed@),
{
    let named = clone_or(&parsed.host_header, parsed.host.as_str());
    let server_name = clone_or(&parsed.sni, named.as_str());
    let mut settings = json_object();
    json_set(&mut settings, "serverName", json_text(server_name.as_str()));
    json_set(&mut settings, "allowInsecure", json_bool(false));
    assert(texts(parsed.alpn@).len() == parsed.alpn.len());
    if !parsed.alpn.is_empty() {
        json_set(&mut settings, "alpn", json_texts(&parsed.alpn));
    }
    if let Some(fingerprint) = &parsed.fingerprint {
        json_set(&mut settings, "fingerprint", json_text(fingerprint.as_str()));
    }
    settings
}

/// The settings of REALITY.
fn build_reality(parsed: &ParsedVless) -> (settings: serde_json::Value)
    ensures
        tree(settings) == reality_tree(parsed@),
{
    let mut settings = json_object();
    json_set(
        &mut settings,
        "serverName",
        json_text(clone_or(&parsed.sni, parsed.host.as_str()).as_str()),
    );
    json_set(&mut settings, "publicKey", json_text(clone_or(&parsed.public_key, "").as_str()));
    json_set(&mut settings, "shortId", json_text(clone_or(&parsed.short_id, "").as_str()));
    json_set(
        &mut settings,
        "fingerprint",
        json_text(clone_or(&parsed.fingerprint, "chrome").as_str()),
    );
    json_set(&mut settings, "show", json_bool(false));
    assert(texts(parsed.alpn@).len() == parsed.alpn.len());
    if !parsed.alpn.is_empty() {
        json_set(&mut settings, "alpn", json_texts(&parsed.alpn));
    }
    if let Some(spider_x) = &parsed.spider_x {
        json_set(&mut settings, "spiderX", json_text(spider_x.as_str()));
    }
    settings
}

/// The settings of the connection to the server.
fn build_stream(parsed: &ParsedVless) -> (stream: serde_json::Value)
    ensures
        tree(stream) == stream_tree(parsed@),
{
    let network = parsed.network.as_str();
    let security = parsed.security.as_str();
    let mut stream = json_object();
    if same_text(network, "http") {
        json_set(&mut stream, "network", json_text("h2"));
    } else {
        json_set(&mut stream, "network", json_text(network));
    }
    json_set(&mut stream, "security", json_text(security));
    add_transport(&mut stream, parsed);
    if same_text(security, "tls") {
        json_set(&mut stream, "tlsSettings", build_tls(parsed));
    } else if same_text(security, "reality") {
        json_set(&mut stream, "realitySettings", build_reality(parsed));
    }
    stream
}

/// What Xray looks for in the traffic to learn where it goes.
fn build_sniffing() -> (sniffing: serde_json::Value)
    ensures
        tree(sniffing) == sniffing_tree(),
{
    let mut protocols: Vec<String> = Vec::new();
    protocols.push("http".to_owned());
    protocols.push("tls".to_owned());
    protocols.push("quic".to_owned());
    assert(texts(protocols@) =~= seq!["http"@, "tls"@, "quic"@]);
    let mut sniffing = json_object();
    json_set(&mut sniffing, "enabled", json_bool(true));
    json_set(&mut sniffing, "destOverride", json_texts(&protocols));
    sniffing
}

/// Where the traffic comes from.
fn build_inbound(socks_port: u16, tunnel_mode: bool, tun_name: &str) -> (inbound: serde_json::Value)
    ensures
        tree(inbound) == inbound_tree(socks_port, tunnel_mode, tun_name@),
{
    let mut settings = json_object();
    let mut inbound = json_object();
    if tunnel_mode {
        json_set(&mut settings, "name", json_text(tun_name));
        json_set(&mut settings, "MTU", json_number(1500));
        json_set(&mut settings, "userLevel", json_number(8));
        json_set(&mut inbound, "tag", json_text("tun"));
        json_set(&mut inbound, "protocol", json_text("tun"));
    } else {
        json_set(&mut settings, "auth", json_text("noauth"));
        json_set(&mut settings, "udp", json_bool(true));
        json_set(&mut settings, "userLevel", json_number(8));
        json_set(&mut inbound, "tag", json_text("socks"));
        json_set(&mut inbound, "listen", json_text("127.0.0.1"));
        json_set(&mut inbound, "port", json_number(socks_port));
        json_set(&mut inbound, "protocol", json_text("socks"));
    }
    json_set(&mut inbound, "settings", settings);
    json_set(&mut inbound, "sniffing", build_sniffing());
    inbound
}

/// The limits and counters of Xray.
fn build_policy() -> (policy: serde_json::Value)
    ensures
        tree(policy) == policy_tree(),
{
    let mut level = json_object();
    json_set(&mut level, "handshake", json_number(4));
    json_set(&mut level, "connIdle", json_number(300));
    json_set(&mut level, "uplinkOnly", json_number(1));
    json_set(&mut level, "downlinkOnly", json_number(1));
    let mut levels = json_object();
    json_set(&mut levels, "8", level);
    let mut system = json_object();
    json_set(&mut system, "statsOutboundUplink", json_bool(true));
    json_set(&mut system, "statsOutboundDownlink", json_bool(true));
    let mut policy = json_object();
    json_set(&mut policy, "levels", levels);
    json_set(&mut policy, "system", system);
    policy
}

/// The way out through the server.
fn build_proxy(parsed: &ParsedVless) -> (proxy: serde_json::Value)
    ensures
        tree(proxy) == proxy_tree(parsed@),
{
    let mut server = json_object();
    json_set(&mut server, "address", json_text(parsed.host.as_str()));
    json_set(&mut server, "port", json_number(parsed.port));
    json_set(&mut server, "users", json_single(build_user(parsed)));
    let mut settings = json_object();
    json_set(&mut settings, "vnext", json_single(server));
    let mut mux = json_object();
    json_set(&mut mux, "enabled", json_bool(false));
    let mut proxy = json_object();
    json_set(&mut proxy, "tag", json_text("proxy"));
    json_set(&mut proxy, "protocol", json_text("vless"));
    json_set(&mut proxy, "settings", settings);
    json_set(&mut proxy, "streamSettings", build_stream(parsed));
    json_set(&mut proxy, "mux", mux);
    proxy
}

/// The way out that does without the server.
fn build_direct() -> (direct: serde_json::Value)
    ensures
        tree(direct) == direct_tree(),
{
    let mut sockopt = json_object();
    json_set(&mut sockopt, "domainStrategy", json_text("UseIP"));
    let mut stream = json_object();
    json_set(&mut stream, "sockopt", sockopt);
    let mut direct = json_object();
    json_set(&mut direct, "tag", json_text("direct"));
    json_set(&mut direct, "protocol", json_text("freedom"));
    json_set(&mut direct, "streamSettings", stream);
    direct
}

/// The way out for traffic that is refused.
fn build_block() -> (block: serde_json::Value)
    ensures
        tree(block) == block_tree(),
{
    let mut response = json_object();
    json_set(&mut response, "type", json_text("http"));
    let mut settings = json_object();
    json_set(&mut settings, "response", response);
    let mut block = json_object();
    json_set(&mut block, "tag", json_text("block"));
    json_set(&mut block, "protocol", json_text("blackhole"));
    json_set(&mut block, "settings", settings);
    block
}

/// A list without items.
fn build_no_items() -> (list: serde_json::Value)
    ensures
        tree(list) == JsonTree::List(seq![]),
{
    let none: Vec<serde_json::Value> = Vec::new();
    assert(none@.map_values(|item: serde_json::Value| tree(item)) =~= seq![]);
    json_list(none)
}

/// The whole configuration, as a JSON value.
pub fn build_config_value(
    parsed: &ParsedVless,
    socks_port: u16,
    tunnel_mode: bool,
    tun_name: &str,
) -> (config: serde_json::Value)
    ensures
        tree(config) == config_tree(parsed@, socks_port, tunnel_mode, tun_name@),
{
    let mut log = json_object();
    json_set(&mut log, "loglevel", json_text("warning"));
    let proxy = build_proxy(parsed);
    let direct = build_direct();
    let block = build_block();
    let ghost ways = seq![tree(proxy), tree(direct), tree(block)];
    let mut outbounds: Vec<serde_json::Value> = Vec::new();
    outbounds.push(proxy);
    outbounds.push(direct);
    outbounds.push(block);
    assert(outbounds@.map_values(|item: serde_json::Value| tree(item)) =~= ways);
    let mut routing = json_object();
    json_set(&mut routing, "domainStrategy", json_text("AsIs"));
    json_set(&mut routing, "rules", build_no_items());
    let mut dns = json_object();
    json_set(&mut dns, "hosts", json_object());
    json_set(&mut dns, "servers", build_no_items());
    let mut config = json_object();
    json_set(&mut config, "stats", json_object());
    json_set(&mut config, "log", log);
    json_set(&mut config, "policy", build_policy());
    json_set(
        &mut config,
        "inbounds",
        json_single(build_inbound(socks_port, tunnel_mode, tun_name)),
    );
    json_set(&mut config, "outbounds", json_list(outbounds));
    json_set(&mut config, "routing", routing);
    json_set(&mut config, "dns", dns);
    config
}

/// The outcome of building a configuration, given the outcome of turning it into text.
pub fn config_from_text(text: Result<String, String>) -> (config: Result<String, String>)
    ensures
        text_outcome(config) == serialized(text_outcome(text)),
{
    match text {
        Ok(text) => Ok(text),
        Err(error) => {
            let mut message = "Failed to serialize Xray config: ".to_owned();
            message.append(error.as_str());
            Err(message)
        },
    }
}

/// The text of the configuration that reaches the server, from a local SOCKS port or, in
/// tunnel mode, from a network interface.
pub fn build_xray_config(
    parsed: &ParsedVless,
    socks_port: u16,
    tunnel_mode: bool,
    tun_name: &str,
) -> (config: Result<String, String>)
    ensures
        text_outcome(config) == config_text(parsed@, socks_port, tunnel_mode, tun_name@),
        config is Ok,
{
    let value = build_config_value(parsed, socks_port, tunnel_mode, tun_name);
    config_from_text(json_to_string_pretty(&value))
}

} // verus!
