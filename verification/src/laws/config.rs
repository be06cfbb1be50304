//! What holds of the configurations that Xray is run with.

use crate::config::{
    config_text, config_tree, inbound_tree, proxy_tree, stream_tree, transport_tree, user_tree,
};
use crate::json::{no_fields, pretty_text, JsonTree};
use crate::text::list_of;
use crate::uri::VlessModel;
use vstd::prelude::*;

verus! {

/// In tunnel mode the local port makes no difference; otherwise the name of the network
/// interface makes none.
pub proof fn law_config_ignores_what_it_does_not_use(
    parsed: VlessModel,
    a: u16,
    b: u16,
    name: Seq<char>,
    other: Seq<char>,
)
    ensures
        config_tree(parsed, a, true, name) == config_tree(parsed, b, true, name),
        config_tree(parsed, a, false, name) == config_tree(parsed, a, false, other),
{
}

/// The label of a server, and the spelling of its URI, make no difference to the configuration.
pub proof fn law_config_ignores_label(
    parsed: VlessModel,
    uri: Seq<char>,
    label: Seq<char>,
    socks_port: u16,
    tunnel_mode: bool,
    tun_name: Seq<char>,
)
    ensures
        config_tree(parsed, socks_port, tunnel_mode, tun_name) == config_tree(
            VlessModel { uri, label, ..parsed },
            socks_port,
            tunnel_mode,
            tun_name,
        ),
{
    let renamed = VlessModel { uri, label, ..parsed };
    assert(user_tree(parsed) == user_tree(renamed));
    assert(transport_tree(parsed) == transport_tree(renamed));
    assert(stream_tree(parsed) == stream_tree(renamed));
}

/// The transports `h2` and `http` are the same.
pub proof fn law_http_is_h2(
    parsed: VlessModel,
    socks_port: u16,
    tunnel_mode: bool,
    tun_name: Seq<char>,
)
    ensures
        config_tree(
            VlessModel { network: "http"@, ..parsed },
            socks_port,
            tunnel_mode,
            tun_name,
        ) == config_tree(
            VlessModel { network: "h2"@, ..parsed },
            socks_port,
            tunnel_mode,
            tun_name,
        ),
{
    reveal_strlit("http");
    reveal_strlit("h2");
    reveal_strlit("tcp");
    reveal_strlit("ws");
    reveal_strlit("grpc");
    reveal_strlit("httpupgrade");
    reveal_strlit("xhttp");
    let http = VlessModel { network: "http"@, ..parsed };
    let h2 = VlessModel { network: "h2"@, ..parsed };
    assert("http"@[0] != "grpc"@[0]);
    assert("h2"@[0] != "ws"@[0]);
    assert("http"@.len() == 4 && "h2"@.len() == 2 && "tcp"@.len() == 3);
    assert(transport_tree(http) == transport_tree(h2));
    assert(stream_tree(http) == stream_tree(h2));
}

/// The configuration offers a local port, or in tunnel mode a network interface, and nothing
/// else to come in by.
pub proof fn law_config_has_one_way_in(
    parsed: VlessModel,
    socks_port: u16,
    tunnel_mode: bool,
    tun_name: Seq<char>,
)
    ensures
        ({
            let config = config_tree(parsed, socks_port, tunnel_mode, tun_name);
            let inbound = inbound_tree(socks_port, tunnel_mode, tun_name);
            &&& config.has("inbounds"@)
            &&& config.field("inbounds"@) == JsonTree::List(seq![inbound])
            &&& tunnel_mode ==> inbound.field("protocol"@) == JsonTree::Text("tun"@)
                && inbound.field("settings"@).field("name"@) == JsonTree::Text(tun_name)
            &&& !tunnel_mode ==> inbound.field("protocol"@) == JsonTree::Text("socks"@)
                && inbound.field("port"@) == JsonTree::Number(socks_port as nat)
                && inbound.field("listen"@) == JsonTree::Text("127.0.0.1"@)
        }),
{
    lemma_config_keys();
}

/// Where the configuration sends traffic by default: to the address of the server, as its user.
pub proof fn law_config_reaches_server(
    parsed: VlessModel,
    socks_port: u16,
    tunnel_mode: bool,
    tun_name: Seq<char>,
)
    ensures
        ({
            let config = config_tree(parsed, socks_port, tunnel_mode, tun_name);
            let proxy = proxy_tree(parsed);
            let server = proxy.field("settings"@).field("vnext"@)->List_0[0];
            let user = server.field("users"@)->List_0[0];
            &&& config.has("outbounds"@)
            &&& config.field("outbounds"@) is List
            &&& config.field("outbounds"@)->List_0[0] == proxy
            &&& proxy.field("protocol"@) == JsonTree::Text("vless"@)
            &&& proxy.field("streamSettings"@) == stream_tree(parsed)
            &&& server.field("address"@) == JsonTree::Text(parsed.host)
            &&& server.field("port"@) == JsonTree::Number(parsed.port as nat)
            &&& user.field("id"@) == JsonTree::Text(parsed.uuid)
            &&& user.field("encryption"@) == JsonTree::Text(parsed.encryption)
            &&& user.has("flow"@) <==> parsed.flow is Some
        }),
{
    lemma_config_keys();
    lemma_server_keys();
}

/// The settings of TLS are there for TLS alone, those of REALITY for REALITY alone.
pub proof fn law_security_settings(parsed: VlessModel)
    ensures
        stream_tree(parsed).field("security"@) == JsonTree::Text(parsed.security),
        stream_tree(parsed).has("tlsSettings"@) <==> parsed.security == "tls"@,
        stream_tree(parsed).has("realitySettings"@) <==> parsed.security == "reality"@,
{
    lemma_stream_keys();
}

/// The first way out of a configuration.
pub open spec fn first_outbound(config: JsonTree) -> JsonTree {
    config.field("outbounds"@)->List_0[0]
}

/// The server that the first way out of a configuration goes to.
pub open spec fn outbound_server(config: JsonTree) -> JsonTree {
    first_outbound(config).field("settings"@).field("vnext"@)->List_0[0]
}

/// The user that the first way out of a configuration goes as.
pub open spec fn outbound_user(config: JsonTree) -> JsonTree {
    outbound_server(config).field("users"@)->List_0[0]
}

/// How the first way out of a configuration is connected.
pub open spec fn outbound_stream(config: JsonTree) -> JsonTree {
    first_outbound(config).field("streamSettings"@)
}

/// The way into a configuration.
pub open spec fn way_in(config: JsonTree) -> JsonTree {
    config.field("inbounds"@)->List_0[0]
}

/// Tells whether traffic goes to the address and the port of the server, as its user, by VLESS,
/// and to no other server.
pub open spec fn leads_to(config: JsonTree, parsed: VlessModel) -> bool {
    let vnext = first_outbound(config).field("settings"@).field("vnext"@);
    let users = outbound_server(config).field("users"@);
    &&& config.field("outbounds"@) is List
    &&& config.field("outbounds"@)->List_0.len() > 0
    &&& first_outbound(config).field("protocol"@) == JsonTree::Text("vless"@)
    &&& vnext is List
    &&& vnext->List_0.len() == 1
    &&& outbound_server(config).field("address"@) == JsonTree::Text(parsed.host)
    &&& outbound_server(config).field("port"@) == JsonTree::Number(parsed.port as nat)
    &&& users is List
    &&& users->List_0.len() == 1
    &&& outbound_user(config).field("id"@) == JsonTree::Text(parsed.uuid)
    &&& outbound_user(config).field("encryption"@) == JsonTree::Text(parsed.encryption)
    &&& outbound_user(config).field("level"@) == JsonTree::Number(8)
    &&& match parsed.flow {
        Some(flow) => outbound_user(config).has("flow"@) && outbound_user(config).field("flow"@)
            == JsonTree::Text(flow),
        None => !outbound_user(config).has("flow"@),
    }
}

/// Tells whether traffic comes in by the local port, and by no other way.
pub open spec fn offers_port(config: JsonTree, port: u16) -> bool {
    &&& config.field("inbounds"@) is List
    &&& config.field("inbounds"@)->List_0.len() == 1
    &&& way_in(config).field("protocol"@) == JsonTree::Text("socks"@)
    &&& way_in(config).field("listen"@) == JsonTree::Text("127.0.0.1"@)
    &&& way_in(config).field("port"@) == JsonTree::Number(port as nat)
    &&& way_in(config).field("settings"@).field("auth"@) == JsonTree::Text("noauth"@)
    &&& way_in(config).field("settings"@).field("udp"@) == JsonTree::Bool(true)
    &&& way_in(config).field("settings"@).field("userLevel"@) == JsonTree::Number(8)
    &&& way_in(config).field("tag"@) == JsonTree::Text("socks"@)
}

/// Tells whether traffic comes in by the network interface, and by no other way.
pub open spec fn offers_interface(config: JsonTree, name: Seq<char>) -> bool {
    &&& config.field("inbounds"@) is List
    &&& config.field("inbounds"@)->List_0.len() == 1
    &&& way_in(config).field("protocol"@) == JsonTree::Text("tun"@)
    &&& way_in(config).field("settings"@).field("name"@) == JsonTree::Text(name)
    &&& way_in(config).field("settings"@).field("MTU"@) == JsonTree::Number(1500)
    &&& way_in(config).field("settings"@).field("userLevel"@) == JsonTree::Number(8)
    &&& way_in(config).field("tag"@) == JsonTree::Text("tun"@)
}

/// Tells whether a value is the list of the given texts, in their order.
pub open spec fn is_list_of(value: JsonTree, items: Seq<Seq<char>>) -> bool {
    &&& value is List
    &&& value->List_0.len() == items.len()
    &&& forall|i: int|
        0 <= i < items.len() ==> #[trigger] value->List_0[i] == JsonTree::Text(items[i])
}

/// Tells whether a value is the list of the entries of a comma separated list, or of the
/// fallback where there are none.
pub open spec fn lists_or(value: JsonTree, list: Seq<char>, fallback: Seq<char>) -> bool {
    &&& list_of(list).len() > 0 ==> is_list_of(value, list_of(list))
    &&& list_of(list).len() == 0 ==> is_list_of(value, seq![fallback])
}

/// Whatever else it says, a configuration leads to the address, the port and the user of the
/// server, and is offered at the local port or, in tunnel mode, at the network interface.
pub proof fn law_config_leads_to_server(
    parsed: VlessModel,
    socks_port: u16,
    tunnel_mode: bool,
    tun_name: Seq<char>,
)
    ensures
        leads_to(config_tree(parsed, socks_port, tunnel_mode, tun_name), parsed),
        tunnel_mode ==> offers_interface(
            config_tree(parsed, socks_port, tunnel_mode, tun_name),
            tun_name,
        ),
        !tunnel_mode ==> offers_port(
            config_tree(parsed, socks_port, tunnel_mode, tun_name),
            socks_port,
        ),
        outbound_stream(config_tree(parsed, socks_port, tunnel_mode, tun_name)) == stream_tree(
            parsed,
        ),
{
    lemma_config_keys();
    lemma_server_keys();
    lemma_inbound_keys();
}

/// What traffic is looked into for, either way in: three protocols.
pub proof fn law_config_sniffs(
    parsed: VlessModel,
    socks_port: u16,
    tunnel_mode: bool,
    tun_name: Seq<char>,
)
    ensures
        ({
            let sniffing = way_in(config_tree(parsed, socks_port, tunnel_mode, tun_name)).field(
                "sniffing"@,
            );
            &&& sniffing.field("enabled"@) == JsonTree::Bool(true)
            &&& is_list_of(sniffing.field("destOverride"@), seq!["http"@, "tls"@, "quic"@])
        }),
{
    lemma_config_keys();
    lemma_inbound_keys();
}

/// The parts of a configuration that are the same for every server: the log, the limits, the
/// ways out beside the server, the routing and the name service.
pub proof fn law_config_fixed_parts(
    parsed: VlessModel,
    socks_port: u16,
    tunnel_mode: bool,
    tun_name: Seq<char>,
)
    ensures
        ({
            let config = config_tree(parsed, socks_port, tunnel_mode, tun_name);
            let ways = config.field("outbounds"@)->List_0;
            let level = config.field("policy"@).field("levels"@).field("8"@);
            let system = config.field("policy"@).field("system"@);
            &&& config.field("stats"@) == no_fields()
            &&& config.field("log"@).field("loglevel"@) == JsonTree::Text("warning"@)
            &&& level.field("handshake"@) == JsonTree::Number(4)
            &&& level.field("connIdle"@) == JsonTree::Number(300)
            &&& level.field("uplinkOnly"@) == JsonTree::Number(1)
            &&& level.field("downlinkOnly"@) == JsonTree::Number(1)
            &&& system.field("statsOutboundUplink"@) == JsonTree::Bool(true)
            &&& system.field("statsOutboundDownlink"@) == JsonTree::Bool(true)
            &&& ways.len() == 3
            &&& ways[0].field("tag"@) == JsonTree::Text("proxy"@)
            &&& ways[0].field("mux"@).field("enabled"@) == JsonTree::Bool(false)
            &&& ways[1].field("tag"@) == JsonTree::Text("direct"@)
            &&& ways[1].field("protocol"@) == JsonTree::Text("freedom"@)
            &&& ways[1].field("streamSettings"@).field("sockopt"@).field("domainStrategy"@)
                == JsonTree::Text("UseIP"@)
            &&& ways[2].field("tag"@) == JsonTree::Text("block"@)
            &&& ways[2].field("protocol"@) == JsonTree::Text("blackhole"@)
            &&& ways[2].field("settings"@).field("response"@).field("type"@) == JsonTree::Text(
                "http"@,
            )
            &&& config.field("routing"@).field("domainStrategy"@) == JsonTree::Text("AsIs"@)
            &&& config.field("routing"@).field("rules"@) == JsonTree::List(Seq::empty())
            &&& config.field("dns"@).field("hosts"@) == no_fields()
            &&& config.field("dns"@).field("servers"@) == JsonTree::List(Seq::empty())
        }),
{
    lemma_config_keys();
    lemma_inbound_keys();
    lemma_fixed_keys();
}

/// The name that TLS is made for is the one that the server gives for it; only without one is it
/// the host header, and only without both the address of the server. The certificate counts. The
/// application protocols and the fingerprint are those of the server, and are left out where it
/// has none.
pub proof fn law_tls_settings(
    parsed: VlessModel,
    socks_port: u16,
    tunnel_mode: bool,
    tun_name: Seq<char>,
)
    requires
        parsed.security == "tls"@,
    ensures
        ({
            let stream = outbound_stream(config_tree(parsed, socks_port, tunnel_mode, tun_name));
            let tls = stream.field("tlsSettings"@);
            let name = tls.field("serverName"@);
            &&& stream.has("tlsSettings"@)
            &&& parsed.sni is Some ==> name == JsonTree::Text(parsed.sni->Some_0)
            &&& parsed.sni is None && parsed.host_header is Some ==> name == JsonTree::Text(
                parsed.host_header->Some_0,
            )
            &&& parsed.sni is None && parsed.host_header is None ==> name == JsonTree::Text(
                parsed.host,
            )
            &&& tls.field("allowInsecure"@) == JsonTree::Bool(false)
            &&& tls.has("alpn"@) <==> parsed.alpn.len() > 0
            &&& parsed.alpn.len() > 0 ==> is_list_of(tls.field("alpn"@), parsed.alpn)
            &&& tls.has("fingerprint"@) <==> parsed.fingerprint is Some
            &&& parsed.fingerprint is Some ==> tls.field("fingerprint"@) == JsonTree::Text(
                parsed.fingerprint->Some_0,
            )
        }),
{
    law_config_leads_to_server(parsed, socks_port, tunnel_mode, tun_name);
    lemma_stream_keys();
    lemma_tls_keys();
}

/// The name that REALITY is made for is the one that the server gives for it, and otherwise its
/// address, whatever the host header is. Its keys are those of the server, or empty; the
/// fingerprint is that of the server, or that of Chrome.
pub proof fn law_reality_settings(
    parsed: VlessModel,
    socks_port: u16,
    tunnel_mode: bool,
    tun_name: Seq<char>,
)
    requires
        parsed.security == "reality"@,
    ensures
        ({
            let stream = outbound_stream(config_tree(parsed, socks_port, tunnel_mode, tun_name));
            let reality = stream.field("realitySettings"@);
            &&& stream.has("realitySettings"@)
            &&& parsed.sni is Some ==> reality.field("serverName"@) == JsonTree::Text(
                parsed.sni->Some_0,
            )
            &&& parsed.sni is None ==> reality.field("serverName"@) == JsonTree::Text(parsed.host)
            &&& parsed.public_key is Some ==> reality.field("publicKey"@) == JsonTree::Text(
                parsed.public_key->Some_0,
            )
            &&& parsed.public_key is None ==> reality.field("publicKey"@) == JsonTree::Text(""@)
            &&& parsed.short_id is Some ==> reality.field("shortId"@) == JsonTree::Text(
                parsed.short_id->Some_0,
            )
            &&& parsed.short_id is None ==> reality.field("shortId"@) == JsonTree::Text(""@)
            &&& parsed.fingerprint is Some ==> reality.field("fingerprint"@) == JsonTree::Text(
                parsed.fingerprint->Some_0,
            )
            &&& parsed.fingerprint is None ==> reality.field("fingerprint"@) == JsonTree::Text(
                "chrome"@,
            )
            &&& reality.field("show"@) == JsonTree::Bool(false)
            &&& reality.has("alpn"@) <==> parsed.alpn.len() > 0
            &&& parsed.alpn.len() > 0 ==> is_list_of(reality.field("alpn"@), parsed.alpn)
            &&& reality.has("spiderX"@) <==> parsed.spider_x is Some
            &&& parsed.spider_x is Some ==> reality.field("spiderX"@) == JsonTree::Text(
                parsed.spider_x->Some_0,
            )
        }),
{
    law_config_leads_to_server(parsed, socks_port, tunnel_mode, tun_name);
    lemma_stream_keys();
    lemma_reality_keys();
}

/// The settings of one security are not there for another; the connection says which security
/// and which transport it has.
pub proof fn law_stream_says_what_it_is(
    parsed: VlessModel,
    socks_port: u16,
    tunnel_mode: bool,
    tun_name: Seq<char>,
)
    ensures
        ({
            let stream = outbound_stream(config_tree(parsed, socks_port, tunnel_mode, tun_name));
            &&& stream.field("security"@) == JsonTree::Text(parsed.security)
            &&& parsed.network != "http"@ ==> stream.field("network"@) == JsonTree::Text(
                parsed.network,
            )
            &&& parsed.network == "http"@ ==> stream.field("network"@) == JsonTree::Text("h2"@)
            &&& stream.has("tlsSettings"@) <==> parsed.security == "tls"@
            &&& stream.has("realitySettings"@) <==> parsed.security == "reality"@
            &&& stream.has("tcpSettings"@) <==> parsed.network == "tcp"@
            &&& stream.has("wsSettings"@) <==> parsed.network == "ws"@
            &&& stream.has("grpcSettings"@) <==> parsed.network == "grpc"@
            &&& stream.has("httpupgradeSettings"@) <==> parsed.network == "httpupgrade"@
            &&& stream.has("xhttpSettings"@) <==> parsed.network == "xhttp"@
            &&& stream.has("httpSettings"@) <==> parsed.network == "h2"@ || parsed.network
                == "http"@
        }),
{
    law_config_leads_to_server(parsed, socks_port, tunnel_mode, tun_name);
    lemma_stream_keys();
    lemma_transport_keys();
    lemma_networks();
}

/// Over TCP, a server with an HTTP header gets requests that look like HTTP: for the hosts of
/// its host header, or its address, and for its paths, or the root. Any other gets plain TCP.
pub proof fn law_tcp_settings(
    parsed: VlessModel,
    socks_port: u16,
    tunnel_mode: bool,
    tun_name: Seq<char>,
)
    requires
        parsed.network == "tcp"@,
    ensures
        ({
            let stream = outbound_stream(config_tree(parsed, socks_port, tunnel_mode, tun_name));
            let header = stream.field("tcpSettings"@).field("header"@);
            let request = header.field("request"@);
            let headers = request.field("headers"@);
            &&& parsed.header_type != Some("http"@) ==> header.field("type"@) == JsonTree::Text(
                "none"@,
            ) && !header.has("request"@)
            &&& parsed.header_type == Some("http"@) ==> {
                &&& header.field("type"@) == JsonTree::Text("http"@)
                &&& request.field("version"@) == JsonTree::Text("1.1"@)
                &&& request.field("method"@) == JsonTree::Text("GET"@)
                &&& parsed.path is Some ==> lists_or(
                    request.field("path"@),
                    parsed.path->Some_0,
                    "/"@,
                )
                &&& parsed.path is None ==> lists_or(request.field("path"@), "/"@, "/"@)
                &&& parsed.host_header is Some ==> lists_or(
                    headers.field("Host"@),
                    parsed.host_header->Some_0,
                    parsed.host,
                )
                &&& parsed.host_header is None ==> lists_or(
                    headers.field("Host"@),
                    parsed.host,
                    parsed.host,
                )
                &&& is_list_of(headers.field("User-Agent"@), seq![browser()])
                &&& is_list_of(headers.field("Accept-Encoding"@), seq!["gzip, deflate"@])
                &&& is_list_of(headers.field("Connection"@), seq!["keep-alive"@])
                &&& headers.field("Pragma"@) == JsonTree::Text("no-cache"@)
            }
        }),
{
    law_config_leads_to_server(parsed, socks_port, tunnel_mode, tun_name);
    lemma_stream_keys();
    lemma_transport_keys();
    lemma_http_header_keys();
}

/// Over WebSocket and by HTTP upgrade, requests are for the path of the server, or the root, and
/// for its host header, or its address.
pub proof fn law_ws_and_upgrade_settings(
    parsed: VlessModel,
    socks_port: u16,
    tunnel_mode: bool,
    tun_name: Seq<char>,
)
    requires
        parsed.network == "ws"@ || parsed.network == "httpupgrade"@,
    ensures
        ({
            let stream = outbound_stream(config_tree(parsed, socks_port, tunnel_mode, tun_name));
            let settings = if parsed.network == "ws"@ {
                stream.field("wsSettings"@)
            } else {
                stream.field("httpupgradeSettings"@)
            };
            let host = if parsed.network == "ws"@ {
                settings.field("headers"@).field("Host"@)
            } else {
                settings.field("host"@)
            };
            &&& parsed.path is Some ==> settings.field("path"@) == JsonTree::Text(
                parsed.path->Some_0,
            )
            &&& parsed.path is None ==> settings.field("path"@) == JsonTree::Text("/"@)
            &&& parsed.host_header is Some ==> host == JsonTree::Text(parsed.host_header->Some_0)
            &&& parsed.host_header is None ==> host == JsonTree::Text(parsed.host)
        }),
{
    law_config_leads_to_server(parsed, socks_port, tunnel_mode, tun_name);
    lemma_stream_keys();
    lemma_transport_keys();
    lemma_networks();
    lemma_http_header_keys();
}

/// Over gRPC, the service and the authority are those of the server, or empty. Over XHTTP, the
/// host header is that of the server, or empty, its path that of the server, or the root, and
/// its mode that of the server, or automatic.
pub proof fn law_grpc_and_xhttp_settings(
    parsed: VlessModel,
    socks_port: u16,
    tunnel_mode: bool,
    tun_name: Seq<char>,
)
    ensures
        ({
            let stream = outbound_stream(config_tree(parsed, socks_port, tunnel_mode, tun_name));
            let grpc = stream.field("grpcSettings"@);
            let xhttp = stream.field("xhttpSettings"@);
            &&& parsed.network == "grpc"@ ==> {
                &&& parsed.service_name is Some ==> grpc.field("serviceName"@) == JsonTree::Text(
                    parsed.service_name->Some_0,
                )
                &&& parsed.service_name is None ==> grpc.field("serviceName"@) == JsonTree::Text(
                    ""@,
                )
                &&& parsed.authority is Some ==> grpc.field("authority"@) == JsonTree::Text(
                    parsed.authority->Some_0,
                )
                &&& parsed.authority is None ==> grpc.field("authority"@) == JsonTree::Text(""@)
            }
            &&& parsed.network == "xhttp"@ ==> {
                &&& parsed.host_header is Some ==> xhttp.field("host"@) == JsonTree::Text(
                    parsed.host_header->Some_0,
                )
                &&& parsed.host_header is None ==> xhttp.field("host"@) == JsonTree::Text(""@)
                &&& parsed.path is Some ==> xhttp.field("path"@) == JsonTree::Text(
                    parsed.path->Some_0,
                )
                &&& parsed.path is None ==> xhttp.field("path"@) == JsonTree::Text("/"@)
                &&& parsed.mode is Some ==> xhttp.field("mode"@) == JsonTree::Text(
                    parsed.mode->Some_0,
                )
                &&& parsed.mode is None ==> xhttp.field("mode"@) == JsonTree::Text("auto"@)
            }
        }),
{
    law_config_leads_to_server(parsed, socks_port, tunnel_mode, tun_name);
    lemma_stream_keys();
    lemma_transport_keys();
    lemma_networks();
    lemma_http_header_keys();
}

/// Over HTTP/2, requests are for the hosts of the host header, or the address of the server, and
/// for its path, or the root.
pub proof fn law_h2_settings(
    parsed: VlessModel,
    socks_port: u16,
    tunnel_mode: bool,
    tun_name: Seq<char>,
)
    requires
        parsed.network == "h2"@ || parsed.network == "http"@,
    ensures
        ({
            let stream = outbound_stream(config_tree(parsed, socks_port, tunnel_mode, tun_name));
            let settings = stream.field("httpSettings"@);
            &&& parsed.path is Some ==> settings.field("path"@) == JsonTree::Text(
                parsed.path->Some_0,
            )
            &&& parsed.path is None ==> settings.field("path"@) == JsonTree::Text("/"@)
            &&& parsed.host_header is Some ==> lists_or(
                settings.field("host"@),
                parsed.host_header->Some_0,
                parsed.host,
            )
            &&& parsed.host_header is None ==> lists_or(
                settings.field("host"@),
                parsed.host,
                parsed.host,
            )
        }),
{
    law_config_leads_to_server(parsed, socks_port, tunnel_mode, tun_name);
    lemma_stream_keys();
    lemma_transport_keys();
    lemma_networks();
    lemma_http_header_keys();
}

/// The text of a configuration is the text of a JSON value that leads to the server and is
/// offered where it was asked for.
pub proof fn law_config_text_leads_to_server(
    parsed: VlessModel,
    socks_port: u16,
    tunnel_mode: bool,
    tun_name: Seq<char>,
)
    ensures
        match config_text(parsed, socks_port, tunnel_mode, tun_name) {
            Ok(text) => exists|config: JsonTree|
                {
                    &&& #[trigger] pretty_text(config) == Ok::<Seq<char>, Seq<char>>(text)
                    &&& config == config_tree(parsed, socks_port, tunnel_mode, tun_name)
                    &&& leads_to(config, parsed)
                    &&& tunnel_mode ==> offers_interface(config, tun_name)
                    &&& !tunnel_mode ==> offers_port(config, socks_port)
                },
            Err(error) => pretty_text(config_tree(parsed, socks_port, tunnel_mode, tun_name)) matches
            Err(cause) && error == "Failed to serialize Xray config: "@ + cause,
        },
{
    law_config_leads_to_server(parsed, socks_port, tunnel_mode, tun_name);
}

/// The browser that requests are made to look like.
pub open spec fn browser() -> Seq<char> {
    "Mozilla/5.0 (Windows NT 10.0; Win64; x64) AppleWebKit/537.36 (KHTML, like Gecko) Chrome/137.0.0.0 Safari/537.36"@
}

/// Tells whether a value is an object with these fields and no others.
pub open spec fn has_only(value: JsonTree, keys: Set<Seq<char>>) -> bool {
    value is Object && value->Object_0.dom() == keys
}

/// A configuration, and each of its fixed parts, has the fields that it has for every server and
/// no others.
pub proof fn law_config_has_nothing_else(
    parsed: VlessModel,
    socks_port: u16,
    tunnel_mode: bool,
    tun_name: Seq<char>,
)
    ensures
        ({
            let config = config_tree(parsed, socks_port, tunnel_mode, tun_name);
            &&& has_only(
                config,
                set!["stats"@, "log"@, "policy"@, "inbounds"@, "outbounds"@, "routing"@, "dns"@],
            )
            &&& has_only(config.field("log"@), set!["loglevel"@])
            &&& has_only(config.field("policy"@), set!["levels"@, "system"@])
            &&& has_only(config.field("policy"@).field("levels"@), set!["8"@])
            &&& has_only(
                config.field("policy"@).field("levels"@).field("8"@),
                set!["handshake"@, "connIdle"@, "uplinkOnly"@, "downlinkOnly"@],
            )
            &&& has_only(
                config.field("policy"@).field("system"@),
                set!["statsOutboundUplink"@, "statsOutboundDownlink"@],
            )
            &&& has_only(config.field("routing"@), set!["domainStrategy"@, "rules"@])
            &&& has_only(config.field("dns"@), set!["hosts"@, "servers"@])
        }),
{
    lemma_fixed_keys();
    let config = config_tree(parsed, socks_port, tunnel_mode, tun_name);
    assert(config->Object_0.dom() =~= set![
        "stats"@,
        "log"@,
        "policy"@,
        "inbounds"@,
        "outbounds"@,
        "routing"@,
        "dns"@,
    ]);
    assert(config.field("log"@)->Object_0.dom() =~= set!["loglevel"@]);
    assert(config.field("policy"@)->Object_0.dom() =~= set!["levels"@, "system"@]);
    assert(config.field("policy"@).field("levels"@)->Object_0.dom() =~= set!["8"@]);
    assert(config.field("policy"@).field("levels"@).field("8"@)->Object_0.dom() =~= set![
        "handshake"@,
        "connIdle"@,
        "uplinkOnly"@,
        "downlinkOnly"@,
    ]);
    assert(config.field("policy"@).field("system"@)->Object_0.dom() =~= set![
        "statsOutboundUplink"@,
        "statsOutboundDownlink"@,
    ]);
    assert(config.field("routing"@)->Object_0.dom() =~= set!["domainStrategy"@, "rules"@]);
    assert(config.field("dns"@)->Object_0.dom() =~= set!["hosts"@, "servers"@]);
}

/// The way in and the ways out have the fields that are named of them and no others.
pub proof fn law_ways_have_nothing_else(
    parsed: VlessModel,
    socks_port: u16,
    tunnel_mode: bool,
    tun_name: Seq<char>,
)
    ensures
        ({
            let config = config_tree(parsed, socks_port, tunnel_mode, tun_name);
            let inbound = way_in(config);
            let ways = config.field("outbounds"@)->List_0;
            let user = if parsed.flow is Some {
                set!["id"@, "encryption"@, "level"@, "flow"@]
            } else {
                set!["id"@, "encryption"@, "level"@]
            };
            &&& tunnel_mode ==> has_only(
                inbound,
                set!["tag"@, "protocol"@, "settings"@, "sniffing"@],
            ) && has_only(inbound.field("settings"@), set!["name"@, "MTU"@, "userLevel"@])
            &&& !tunnel_mode ==> has_only(
                inbound,
                set!["tag"@, "listen"@, "port"@, "protocol"@, "settings"@, "sniffing"@],
            ) && has_only(inbound.field("settings"@), set!["auth"@, "udp"@, "userLevel"@])
            &&& has_only(inbound.field("sniffing"@), set!["enabled"@, "destOverride"@])
            &&& has_only(
                ways[0],
                set!["tag"@, "protocol"@, "settings"@, "streamSettings"@, "mux"@],
            )
            &&& has_only(ways[0].field("settings"@), set!["vnext"@])
            &&& has_only(ways[0].field("mux"@), set!["enabled"@])
            &&& has_only(outbound_server(config), set!["address"@, "port"@, "users"@])
            &&& has_only(outbound_user(config), user)
            &&& has_only(ways[1], set!["tag"@, "protocol"@, "streamSettings"@])
            &&& has_only(ways[1].field("streamSettings"@), set!["sockopt"@])
            &&& has_only(
                ways[1].field("streamSettings"@).field("sockopt"@),
                set!["domainStrategy"@],
            )
            &&& has_only(ways[2], set!["tag"@, "protocol"@, "settings"@])
            &&& has_only(ways[2].field("settings"@), set!["response"@])
            &&& has_only(ways[2].field("settings"@).field("response"@), set!["type"@])
        }),
{
    lemma_config_keys();
    lemma_server_keys();
    lemma_inbound_keys();
    lemma_fixed_keys();
    let config = config_tree(parsed, socks_port, tunnel_mode, tun_name);
    let inbound = way_in(config);
    let ways = config.field("outbounds"@)->List_0;
    if tunnel_mode {
        assert(inbound->Object_0.dom() =~= set!["tag"@, "protocol"@, "settings"@, "sniffing"@]);
        assert(inbound.field("settings"@)->Object_0.dom() =~= set![
            "name"@,
            "MTU"@,
            "userLevel"@,
        ]);
    } else {
        assert(inbound->Object_0.dom() =~= set![
            "tag"@,
            "listen"@,
            "port"@,
            "protocol"@,
            "settings"@,
            "sniffing"@,
        ]);
        assert(inbound.field("settings"@)->Object_0.dom() =~= set!["auth"@, "udp"@, "userLevel"@]);
    }
    assert(inbound.field("sniffing"@)->Object_0.dom() =~= set!["enabled"@, "destOverride"@]);
    assert(ways[0]->Object_0.dom() =~= set![
        "tag"@,
        "protocol"@,
        "settings"@,
        "streamSettings"@,
        "mux"@,
    ]);
    assert(ways[0].field("settings"@)->Object_0.dom() =~= set!["vnext"@]);
    assert(ways[0].field("mux"@)->Object_0.dom() =~= set!["enabled"@]);
    assert(outbound_server(config)->Object_0.dom() =~= set!["address"@, "port"@, "users"@]);
    if parsed.flow is Some {
        assert(outbound_user(config)->Object_0.dom() =~= set![
            "id"@,
            "encryption"@,
            "level"@,
            "flow"@,
        ]);
    } else {
        assert(outbound_user(config)->Object_0.dom() =~= set!["id"@, "encryption"@, "level"@]);
    }
    assert(ways[1]->Object_0.dom() =~= set!["tag"@, "protocol"@, "streamSettings"@]);
    assert(ways[1].field("streamSettings"@)->Object_0.dom() =~= set!["sockopt"@]);
    assert(ways[1].field("streamSettings"@).field("sockopt"@)->Object_0.dom() =~= set![
        "domainStrategy"@,
    ]);
    assert(ways[2]->Object_0.dom() =~= set!["tag"@, "protocol"@, "settings"@]);
    assert(ways[2].field("settings"@)->Object_0.dom() =~= set!["response"@]);
    assert(ways[2].field("settings"@).field("response"@)->Object_0.dom() =~= set!["type"@]);
}

/// The settings of a connection are those of its transport and of its security, and no others,
/// with no other fields than are named of them.
pub proof fn law_stream_has_nothing_else(
    parsed: VlessModel,
    socks_port: u16,
    tunnel_mode: bool,
    tun_name: Seq<char>,
)
    ensures
        ({
            let stream = outbound_stream(config_tree(parsed, socks_port, tunnel_mode, tun_name));
            &&& stream is Object
            &&& forall|key: Seq<char>| #[trigger]
                stream->Object_0.contains_key(key) ==> {
                    ||| key == "network"@
                    ||| key == "security"@
                    ||| key == "tcpSettings"@
                    ||| key == "wsSettings"@
                    ||| key == "grpcSettings"@
                    ||| key == "httpupgradeSettings"@
                    ||| key == "xhttpSettings"@
                    ||| key == "httpSettings"@
                    ||| key == "tlsSettings"@
                    ||| key == "realitySettings"@
                }
            &&& parsed.network == "tcp"@ ==> has_only(
                stream.field("tcpSettings"@),
                set!["header"@],
            ) && has_only(
                stream.field("tcpSettings"@).field("header"@),
                if parsed.header_type == Some("http"@) {
                    set!["type"@, "request"@]
                } else {
                    set!["type"@]
                },
            )
            &&& parsed.network == "tcp"@ && parsed.header_type == Some("http"@) ==> has_only(
                stream.field("tcpSettings"@).field("header"@).field("request"@),
                set!["version"@, "method"@, "path"@, "headers"@],
            ) && has_only(
                stream.field("tcpSettings"@).field("header"@).field("request"@).field("headers"@),
                set!["Host"@, "User-Agent"@, "Accept-Encoding"@, "Connection"@, "Pragma"@],
            )
            &&& parsed.network == "ws"@ ==> has_only(
                stream.field("wsSettings"@),
                set!["path"@, "headers"@],
            ) && has_only(stream.field("wsSettings"@).field("headers"@), set!["Host"@])
            &&& parsed.network == "grpc"@ ==> has_only(
                stream.field("grpcSettings"@),
                set!["serviceName"@, "authority"@],
            )
            &&& parsed.network == "httpupgrade"@ ==> has_only(
                stream.field("httpupgradeSettings"@),
                set!["path"@, "host"@],
            )
            &&& parsed.network == "xhttp"@ ==> has_only(
                stream.field("xhttpSettings"@),
                set!["host"@, "path"@, "mode"@],
            )
            &&& parsed.network == "h2"@ || parsed.network == "http"@ ==> has_only(
                stream.field("httpSettings"@),
                set!["host"@, "path"@],
            )
        }),
{
    law_config_leads_to_server(parsed, socks_port, tunnel_mode, tun_name);
    lemma_stream_keys();
    lemma_transport_keys();
    lemma_networks();
    lemma_http_header_keys();
    let stream = stream_tree(parsed);
    if parsed.network == "tcp"@ {
        let settings = stream.field("tcpSettings"@);
        let header = settings.field("header"@);
        assert(settings->Object_0.dom() =~= set!["header"@]);
        if parsed.header_type == Some("http"@) {
            assert(header->Object_0.dom() =~= set!["type"@, "request"@]);
            assert(header.field("request"@)->Object_0.dom() =~= set![
                "version"@,
                "method"@,
                "path"@,
                "headers"@,
            ]);
            assert(header.field("request"@).field("headers"@)->Object_0.dom() =~= set![
                "Host"@,
                "User-Agent"@,
                "Accept-Encoding"@,
                "Connection"@,
                "Pragma"@,
            ]);
        } else {
            assert(header->Object_0.dom() =~= set!["type"@]);
        }
    } else if parsed.network == "ws"@ {
        assert(stream.field("wsSettings"@)->Object_0.dom() =~= set!["path"@, "headers"@]);
        assert(stream.field("wsSettings"@).field("headers"@)->Object_0.dom() =~= set!["Host"@]);
    } else if parsed.network == "grpc"@ {
        assert(stream.field("grpcSettings"@)->Object_0.dom() =~= set![
            "serviceName"@,
            "authority"@,
        ]);
    } else if parsed.network == "httpupgrade"@ {
        assert(stream.field("httpupgradeSettings"@)->Object_0.dom() =~= set!["path"@, "host"@]);
    } else if parsed.network == "xhttp"@ {
        assert(stream.field("xhttpSettings"@)->Object_0.dom() =~= set![
            "host"@,
            "path"@,
            "mode"@,
        ]);
    } else if parsed.network == "h2"@ || parsed.network == "http"@ {
        assert(stream.field("httpSettings"@)->Object_0.dom() =~= set!["host"@, "path"@]);
    }
}

/// The settings of TLS and of REALITY have no other fields than are named of them.
pub proof fn law_security_has_nothing_else(
    parsed: VlessModel,
    socks_port: u16,
    tunnel_mode: bool,
    tun_name: Seq<char>,
)
    ensures
        ({
            let stream = outbound_stream(config_tree(parsed, socks_port, tunnel_mode, tun_name));
            &&& parsed.security == "tls"@ ==> forall|key: Seq<char>| #[trigger]
                stream.field("tlsSettings"@)->Object_0.contains_key(key) ==> {
                    ||| key == "serverName"@
                    ||| key == "allowInsecure"@
                    ||| key == "alpn"@
                    ||| key == "fingerprint"@
                }
            &&& parsed.security == "reality"@ ==> forall|key: Seq<char>| #[trigger]
                stream.field("realitySettings"@)->Object_0.contains_key(key) ==> {
                    ||| key == "serverName"@
                    ||| key == "publicKey"@
                    ||| key == "shortId"@
                    ||| key == "fingerprint"@
                    ||| key == "show"@
                    ||| key == "alpn"@
                    ||| key == "spiderX"@
                }
        }),
{
    law_config_leads_to_server(parsed, socks_port, tunnel_mode, tun_name);
    lemma_stream_keys();
}

/// The names of the parts of a configuration differ.
proof fn lemma_config_keys()
    ensures
        "inbounds"@ != "outbounds"@,
        "inbounds"@ != "routing"@,
        "inbounds"@ != "dns"@,
        "outbounds"@ != "routing"@,
        "outbounds"@ != "dns"@,
        "protocol"@ != "settings"@,
        "protocol"@ != "sniffing"@,
        "protocol"@ != "streamSettings"@,
        "protocol"@ != "mux"@,
        "settings"@ != "sniffing"@,
        "settings"@ != "streamSettings"@,
        "settings"@ != "mux"@,
        "streamSettings"@ != "mux"@,
        "name"@ != "MTU"@,
        "name"@ != "userLevel"@,
        "port"@ != "protocol"@,
        "port"@ != "settings"@,
        "port"@ != "sniffing"@,
        "listen"@ != "port"@,
        "listen"@ != "protocol"@,
        "listen"@ != "settings"@,
        "listen"@ != "sniffing"@,
{
    reveal_strlit("inbounds");
    reveal_strlit("outbounds");
    reveal_strlit("routing");
    reveal_strlit("dns");
    reveal_strlit("protocol");
    reveal_strlit("settings");
    reveal_strlit("sniffing");
    reveal_strlit("streamSettings");
    reveal_strlit("mux");
    reveal_strlit("name");
    reveal_strlit("MTU");
    reveal_strlit("userLevel");
    reveal_strlit("port");
    reveal_strlit("listen");
    assert("inbounds"@.len() == 8);
    assert("outbounds"@.len() == 9);
    assert("routing"@.len() == 7);
    assert("dns"@.len() == 3);
    assert("protocol"@.len() == 8);
    assert("settings"@.len() == 8);
    assert("sniffing"@.len() == 8);
    assert("streamSettings"@.len() == 14);
    assert("mux"@.len() == 3);
    assert("name"@.len() == 4);
    assert("MTU"@.len() == 3);
    assert("userLevel"@.len() == 9);
    assert("port"@.len() == 4);
    assert("listen"@.len() == 6);
    assert("protocol"@[0] != "settings"@[0]);
    assert("protocol"@[0] != "sniffing"@[0]);
    assert("settings"@[1] != "sniffing"@[1]);
}

/// The names of what is said of the server and its user differ.
proof fn lemma_server_keys()
    ensures
        "address"@ != "port"@,
        "address"@ != "users"@,
        "port"@ != "users"@,
        "id"@ != "encryption"@,
        "id"@ != "level"@,
        "id"@ != "flow"@,
        "encryption"@ != "level"@,
        "encryption"@ != "flow"@,
        "level"@ != "flow"@,
{
    reveal_strlit("address");
    reveal_strlit("port");
    reveal_strlit("users");
    reveal_strlit("id");
    reveal_strlit("encryption");
    reveal_strlit("level");
    reveal_strlit("flow");
    assert("address"@.len() == 7);
    assert("port"@.len() == 4);
    assert("users"@.len() == 5);
    assert("id"@.len() == 2);
    assert("encryption"@.len() == 10);
    assert("level"@.len() == 5);
    assert("flow"@.len() == 4);
}

/// The names of the settings of a connection differ.
proof fn lemma_stream_keys()
    ensures
        "tls"@ != "reality"@,
        "tlsSettings"@ != "network"@,
        "tlsSettings"@ != "security"@,
        "tlsSettings"@ != "tcpSettings"@,
        "tlsSettings"@ != "wsSettings"@,
        "tlsSettings"@ != "grpcSettings"@,
        "tlsSettings"@ != "httpupgradeSettings"@,
        "tlsSettings"@ != "xhttpSettings"@,
        "tlsSettings"@ != "httpSettings"@,
        "realitySettings"@ != "network"@,
        "realitySettings"@ != "security"@,
        "realitySettings"@ != "tcpSettings"@,
        "realitySettings"@ != "wsSettings"@,
        "realitySettings"@ != "grpcSettings"@,
        "realitySettings"@ != "httpupgradeSettings"@,
        "realitySettings"@ != "xhttpSettings"@,
        "realitySettings"@ != "httpSettings"@,
        "security"@ != "tcpSettings"@,
        "security"@ != "wsSettings"@,
        "security"@ != "grpcSettings"@,
        "security"@ != "httpupgradeSettings"@,
        "security"@ != "xhttpSettings"@,
        "security"@ != "httpSettings"@,
        "security"@ != "tlsSettings"@,
        "security"@ != "realitySettings"@,
        "tlsSettings"@ != "realitySettings"@,
        "network"@ != "security"@,
{
    reveal_strlit("tls");
    reveal_strlit("reality");
    reveal_strlit("tlsSettings");
    reveal_strlit("network");
    reveal_strlit("security");
    reveal_strlit("tcpSettings");
    reveal_strlit("wsSettings");
    reveal_strlit("grpcSettings");
    reveal_strlit("httpupgradeSettings");
    reveal_strlit("xhttpSettings");
    reveal_strlit("httpSettings");
    reveal_strlit("realitySettings");
    assert("tls"@.len() == 3);
    assert("reality"@.len() == 7);
    assert("tlsSettings"@.len() == 11);
    assert("network"@.len() == 7);
    assert("security"@.len() == 8);
    assert("tcpSettings"@.len() == 11);
    assert("wsSettings"@.len() == 10);
    assert("grpcSettings"@.len() == 12);
    assert("httpupgradeSettings"@.len() == 19);
    assert("xhttpSettings"@.len() == 13);
    assert("httpSettings"@.len() == 12);
    assert("realitySettings"@.len() == 15);
    assert("tlsSettings"@[1] != "tcpSettings"@[1]);
}

/// The names of what is said of the ways in and out differ.
proof fn lemma_inbound_keys()
    ensures
        "tag"@ != "listen"@,
        "tag"@ != "port"@,
        "tag"@ != "protocol"@,
        "tag"@ != "settings"@,
        "tag"@ != "sniffing"@,
        "listen"@ != "port"@,
        "listen"@ != "protocol"@,
        "listen"@ != "settings"@,
        "listen"@ != "sniffing"@,
        "port"@ != "protocol"@,
        "port"@ != "settings"@,
        "port"@ != "sniffing"@,
        "protocol"@ != "settings"@,
        "protocol"@ != "sniffing"@,
        "settings"@ != "sniffing"@,
        "tag"@ != "streamSettings"@,
        "tag"@ != "mux"@,
        "protocol"@ != "streamSettings"@,
        "protocol"@ != "mux"@,
        "settings"@ != "streamSettings"@,
        "settings"@ != "mux"@,
        "streamSettings"@ != "mux"@,
        "auth"@ != "udp"@,
        "auth"@ != "userLevel"@,
        "udp"@ != "userLevel"@,
        "name"@ != "MTU"@,
        "name"@ != "userLevel"@,
        "MTU"@ != "userLevel"@,
        "enabled"@ != "destOverride"@,
{
    reveal_strlit("tag");
    reveal_strlit("listen");
    reveal_strlit("port");
    reveal_strlit("protocol");
    reveal_strlit("settings");
    reveal_strlit("sniffing");
    reveal_strlit("streamSettings");
    reveal_strlit("mux");
    reveal_strlit("auth");
    reveal_strlit("udp");
    reveal_strlit("userLevel");
    reveal_strlit("name");
    reveal_strlit("MTU");
    reveal_strlit("enabled");
    reveal_strlit("destOverride");
    assert("tag"@.len() == 3);
    assert("listen"@.len() == 6);
    assert("port"@.len() == 4);
    assert("protocol"@.len() == 8);
    assert("settings"@.len() == 8);
    assert("sniffing"@.len() == 8);
    assert("streamSettings"@.len() == 14);
    assert("mux"@.len() == 3);
    assert("auth"@.len() == 4);
    assert("udp"@.len() == 3);
    assert("userLevel"@.len() == 9);
    assert("name"@.len() == 4);
    assert("MTU"@.len() == 3);
    assert("enabled"@.len() == 7);
    assert("destOverride"@.len() == 12);
    assert("protocol"@[0] != "settings"@[0]);
    assert("protocol"@[0] != "sniffing"@[0]);
    assert("settings"@[1] != "sniffing"@[1]);
    assert("tag"@[0] != "mux"@[0]);
}

/// The names of the fixed parts of a configuration differ.
proof fn lemma_fixed_keys()
    ensures
        "stats"@ != "log"@,
        "stats"@ != "policy"@,
        "stats"@ != "inbounds"@,
        "stats"@ != "outbounds"@,
        "stats"@ != "routing"@,
        "stats"@ != "dns"@,
        "log"@ != "policy"@,
        "log"@ != "inbounds"@,
        "log"@ != "outbounds"@,
        "log"@ != "routing"@,
        "log"@ != "dns"@,
        "policy"@ != "inbounds"@,
        "policy"@ != "outbounds"@,
        "policy"@ != "routing"@,
        "policy"@ != "dns"@,
        "inbounds"@ != "outbounds"@,
        "inbounds"@ != "routing"@,
        "inbounds"@ != "dns"@,
        "outbounds"@ != "routing"@,
        "outbounds"@ != "dns"@,
        "routing"@ != "dns"@,
        "levels"@ != "system"@,
        "handshake"@ != "connIdle"@,
        "handshake"@ != "uplinkOnly"@,
        "handshake"@ != "downlinkOnly"@,
        "connIdle"@ != "uplinkOnly"@,
        "connIdle"@ != "downlinkOnly"@,
        "uplinkOnly"@ != "downlinkOnly"@,
        "statsOutboundUplink"@ != "statsOutboundDownlink"@,
        "domainStrategy"@ != "rules"@,
        "hosts"@ != "servers"@,
{
    reveal_strlit("stats");
    reveal_strlit("log");
    reveal_strlit("policy");
    reveal_strlit("inbounds");
    reveal_strlit("outbounds");
    reveal_strlit("routing");
    reveal_strlit("dns");
    reveal_strlit("levels");
    reveal_strlit("system");
    reveal_strlit("handshake");
    reveal_strlit("connIdle");
    reveal_strlit("uplinkOnly");
    reveal_strlit("downlinkOnly");
    reveal_strlit("statsOutboundUplink");
    reveal_strlit("statsOutboundDownlink");
    reveal_strlit("domainStrategy");
    reveal_strlit("rules");
    reveal_strlit("hosts");
    reveal_strlit("servers");
    assert("stats"@.len() == 5);
    assert("log"@.len() == 3);
    assert("policy"@.len() == 6);
    assert("inbounds"@.len() == 8);
    assert("outbounds"@.len() == 9);
    assert("routing"@.len() == 7);
    assert("dns"@.len() == 3);
    assert("levels"@.len() == 6);
    assert("system"@.len() == 6);
    assert("handshake"@.len() == 9);
    assert("connIdle"@.len() == 8);
    assert("uplinkOnly"@.len() == 10);
    assert("downlinkOnly"@.len() == 12);
    assert("statsOutboundUplink"@.len() == 19);
    assert("statsOutboundDownlink"@.len() == 21);
    assert("domainStrategy"@.len() == 14);
    assert("rules"@.len() == 5);
    assert("hosts"@.len() == 5);
    assert("servers"@.len() == 7);
    assert("log"@[0] != "dns"@[0]);
    assert("levels"@[0] != "system"@[0]);
}

/// The names of the settings of TLS differ.
proof fn lemma_tls_keys()
    ensures
        "serverName"@ != "allowInsecure"@,
        "serverName"@ != "alpn"@,
        "serverName"@ != "fingerprint"@,
        "allowInsecure"@ != "alpn"@,
        "allowInsecure"@ != "fingerprint"@,
        "alpn"@ != "fingerprint"@,
{
    reveal_strlit("serverName");
    reveal_strlit("allowInsecure");
    reveal_strlit("alpn");
    reveal_strlit("fingerprint");
    assert("serverName"@.len() == 10);
    assert("allowInsecure"@.len() == 13);
    assert("alpn"@.len() == 4);
    assert("fingerprint"@.len() == 11);
}

/// The names of the settings of REALITY differ.
proof fn lemma_reality_keys()
    ensures
        "serverName"@ != "publicKey"@,
        "serverName"@ != "shortId"@,
        "serverName"@ != "fingerprint"@,
        "serverName"@ != "show"@,
        "serverName"@ != "alpn"@,
        "serverName"@ != "spiderX"@,
        "publicKey"@ != "shortId"@,
        "publicKey"@ != "fingerprint"@,
        "publicKey"@ != "show"@,
        "publicKey"@ != "alpn"@,
        "publicKey"@ != "spiderX"@,
        "shortId"@ != "fingerprint"@,
        "shortId"@ != "show"@,
        "shortId"@ != "alpn"@,
        "shortId"@ != "spiderX"@,
        "fingerprint"@ != "show"@,
        "fingerprint"@ != "alpn"@,
        "fingerprint"@ != "spiderX"@,
        "show"@ != "alpn"@,
        "show"@ != "spiderX"@,
        "alpn"@ != "spiderX"@,
{
    reveal_strlit("serverName");
    reveal_strlit("publicKey");
    reveal_strlit("shortId");
    reveal_strlit("fingerprint");
    reveal_strlit("show");
    reveal_strlit("alpn");
    reveal_strlit("spiderX");
    assert("serverName"@.len() == 10);
    assert("publicKey"@.len() == 9);
    assert("shortId"@.len() == 7);
    assert("fingerprint"@.len() == 11);
    assert("show"@.len() == 4);
    assert("alpn"@.len() == 4);
    assert("spiderX"@.len() == 7);
    assert("shortId"@[1] != "spiderX"@[1]);
    assert("show"@[0] != "alpn"@[0]);
}

/// The names of the settings of the transports differ.
proof fn lemma_transport_keys()
    ensures
        "network"@ != "security"@,
        "network"@ != "tcpSettings"@,
        "network"@ != "wsSettings"@,
        "network"@ != "grpcSettings"@,
        "network"@ != "httpupgradeSettings"@,
        "network"@ != "xhttpSettings"@,
        "network"@ != "httpSettings"@,
        "security"@ != "tcpSettings"@,
        "security"@ != "wsSettings"@,
        "security"@ != "grpcSettings"@,
        "security"@ != "httpupgradeSettings"@,
        "security"@ != "xhttpSettings"@,
        "security"@ != "httpSettings"@,
        "tcpSettings"@ != "wsSettings"@,
        "tcpSettings"@ != "grpcSettings"@,
        "tcpSettings"@ != "httpupgradeSettings"@,
        "tcpSettings"@ != "xhttpSettings"@,
        "tcpSettings"@ != "httpSettings"@,
        "wsSettings"@ != "grpcSettings"@,
        "wsSettings"@ != "httpupgradeSettings"@,
        "wsSettings"@ != "xhttpSettings"@,
        "wsSettings"@ != "httpSettings"@,
        "grpcSettings"@ != "httpupgradeSettings"@,
        "grpcSettings"@ != "xhttpSettings"@,
        "grpcSettings"@ != "httpSettings"@,
        "httpupgradeSettings"@ != "xhttpSettings"@,
        "httpupgradeSettings"@ != "httpSettings"@,
        "xhttpSettings"@ != "httpSettings"@,
{
    reveal_strlit("network");
    reveal_strlit("security");
    reveal_strlit("tcpSettings");
    reveal_strlit("wsSettings");
    reveal_strlit("grpcSettings");
    reveal_strlit("httpupgradeSettings");
    reveal_strlit("xhttpSettings");
    reveal_strlit("httpSettings");
    assert("network"@.len() == 7);
    assert("security"@.len() == 8);
    assert("tcpSettings"@.len() == 11);
    assert("wsSettings"@.len() == 10);
    assert("grpcSettings"@.len() == 12);
    assert("httpupgradeSettings"@.len() == 19);
    assert("xhttpSettings"@.len() == 13);
    assert("httpSettings"@.len() == 12);
    assert("grpcSettings"@[0] != "httpSettings"@[0]);
}

/// The names of the transports differ.
proof fn lemma_networks()
    ensures
        "tcp"@ != "ws"@,
        "tcp"@ != "grpc"@,
        "tcp"@ != "httpupgrade"@,
        "tcp"@ != "xhttp"@,
        "tcp"@ != "h2"@,
        "tcp"@ != "http"@,
        "ws"@ != "grpc"@,
        "ws"@ != "httpupgrade"@,
        "ws"@ != "xhttp"@,
        "ws"@ != "h2"@,
        "ws"@ != "http"@,
        "grpc"@ != "httpupgrade"@,
        "grpc"@ != "xhttp"@,
        "grpc"@ != "h2"@,
        "grpc"@ != "http"@,
        "httpupgrade"@ != "xhttp"@,
        "httpupgrade"@ != "h2"@,
        "httpupgrade"@ != "http"@,
        "xhttp"@ != "h2"@,
        "xhttp"@ != "http"@,
        "h2"@ != "http"@,
{
    reveal_strlit("tcp");
    reveal_strlit("ws");
    reveal_strlit("grpc");
    reveal_strlit("httpupgrade");
    reveal_strlit("xhttp");
    reveal_strlit("h2");
    reveal_strlit("http");
    assert("tcp"@.len() == 3);
    assert("ws"@.len() == 2);
    assert("grpc"@.len() == 4);
    assert("httpupgrade"@.len() == 11);
    assert("xhttp"@.len() == 5);
    assert("h2"@.len() == 2);
    assert("http"@.len() == 4);
    assert("ws"@[0] != "h2"@[0]);
    assert("grpc"@[0] != "http"@[0]);
}

/// The names of the settings within a transport differ.
proof fn lemma_http_header_keys()
    ensures
        "Host"@ != "User-Agent"@,
        "Host"@ != "Accept-Encoding"@,
        "Host"@ != "Connection"@,
        "Host"@ != "Pragma"@,
        "User-Agent"@ != "Accept-Encoding"@,
        "User-Agent"@ != "Connection"@,
        "User-Agent"@ != "Pragma"@,
        "Accept-Encoding"@ != "Connection"@,
        "Accept-Encoding"@ != "Pragma"@,
        "Connection"@ != "Pragma"@,
        "version"@ != "method"@,
        "version"@ != "path"@,
        "version"@ != "headers"@,
        "method"@ != "path"@,
        "method"@ != "headers"@,
        "path"@ != "headers"@,
        "type"@ != "request"@,
        "host"@ != "path"@,
        "host"@ != "mode"@,
        "path"@ != "mode"@,
        "serviceName"@ != "authority"@,
{
    reveal_strlit("Host");
    reveal_strlit("User-Agent");
    reveal_strlit("Accept-Encoding");
    reveal_strlit("Connection");
    reveal_strlit("Pragma");
    reveal_strlit("version");
    reveal_strlit("method");
    reveal_strlit("path");
    reveal_strlit("headers");
    reveal_strlit("type");
    reveal_strlit("request");
    reveal_strlit("host");
    reveal_strlit("mode");
    reveal_strlit("serviceName");
    reveal_strlit("authority");
    assert("Host"@.len() == 4);
    assert("User-Agent"@.len() == 10);
    assert("Accept-Encoding"@.len() == 15);
    assert("Connection"@.len() == 10);
    assert("Pragma"@.len() == 6);
    assert("version"@.len() == 7);
    assert("method"@.len() == 6);
    assert("path"@.len() == 4);
    assert("headers"@.len() == 7);
    assert("type"@.len() == 4);
    assert("request"@.len() == 7);
    assert("host"@.len() == 4);
    assert("mode"@.len() == 4);
    assert("serviceName"@.len() == 11);
    assert("authority"@.len() == 9);
    assert("User-Agent"@[0] != "Connection"@[0]);
    assert("version"@[0] != "headers"@[0]);
    assert("host"@[0] != "path"@[0]);
    assert("host"@[0] != "mode"@[0]);
    assert("path"@[0] != "mode"@[0]);
}

} // verus!
