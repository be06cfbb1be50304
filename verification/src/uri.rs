//! VLESS URIs: what they are made of and what they say about a server.

use crate::text::{
    decimal, decimal_text, list_entries, list_of, opt_text, plus_as_space, replace_plus,
    same_text, text_or, texts, trim, trimmed,
};
use vstd::prelude::*;
use vstd::string::*;

verus! {

/// The port of a server whose URI names none.
pub const DEFAULT_PORT: u16 = 443;

/// The components of a URL.
pub struct UrlParts {
    /// The scheme, in lower case.
    pub scheme: String,
    /// The user name, percent-encoded; empty if there is none.
    pub username: String,
    /// The host, if there is one.
    pub host: Option<String>,
    /// The port, if there is one.
    pub port: Option<u16>,
    /// The decoded key and value pairs of the query, in their order.
    pub query: Vec<(String, String)>,
    /// The fragment, if there is one, not decoded.
    pub fragment: Option<String>,
}

/// The components of a URL, as mathematical values.
pub struct UrlModel {
    pub scheme: Seq<char>,
    pub username: Seq<char>,
    pub host: Option<Seq<char>>,
    pub port: Option<u16>,
    pub query: Seq<(Seq<char>, Seq<char>)>,
    pub fragment: Option<Seq<char>>,
}

/// The views of key and value pairs.
pub open spec fn pairs(query: Seq<(String, String)>) -> Seq<(Seq<char>, Seq<char>)> {
    query.map_values(|pair: (String, String)| (pair.0@, pair.1@))
}

impl View for UrlParts {
    type V = UrlModel;

    open spec fn view(&self) -> UrlModel {
        UrlModel {
            scheme: self.scheme@,
            username: self.username@,
            host: opt_text(self.host),
            port: self.port,
            query: pairs(self.query@),
            fragment: opt_text(self.fragment),
        }
    }
}

/// The components that `url::Url` finds in a text, or the message of its error.
pub uninterp spec fn parsed_url(text: Seq<char>) -> Result<UrlModel, Seq<char>>;

/// What `urlencoding::decode` makes of a text, or nothing if the decoded bytes are no UTF-8.
pub uninterp spec fn percent_decoded(text: Seq<char>) -> Option<Seq<char>>;

/// `url::Url::parse` finds the components of a text, which `scheme`, `username`, `host_str`,
/// `port`, `query_pairs` and `fragment` of `url::Url` give out. They, or the message of the
/// error, depend on the text alone.
#[verifier::external_body]
fn parse_url(text: &str) -> (parts: Result<UrlParts, String>)
    ensures
        parsed_url(text@) == match parts {
            Ok(parts) => Ok::<UrlModel, Seq<char>>(parts@),
            Err(error) => Err(error@),
        },
{
    let url = url::Url::parse(text).map_err(|error| error.to_string())?;
    Ok(UrlParts {
        scheme: url.scheme().to_owned(),
        username: url.username().to_owned(),
        host: url.host_str().map(str::to_owned),
        port: url.port(),
        query: url.query_pairs().into_owned().collect(),
        fragment: url.fragment().map(str::to_owned),
    })
}

/// `urlencoding::decode` gives a result that depends on the text alone. A text without a
/// percent sign decodes to itself.
#[verifier::external_body]
fn decode_percent(text: &str) -> (decoded: Option<String>)
    ensures
        opt_text(decoded) == percent_decoded(text@),
        !text@.contains('%') ==> opt_text(decoded) == Some(text@),
{
    urlencoding::decode(text).ok().map(|decoded| decoded.into_owned())
}

/// A server as its VLESS URI describes it.
pub struct ParsedVless {
    pub uri: String,
    pub label: String,
    pub host: String,
    pub port: u16,
    pub network: String,
    pub security: String,
    pub uuid: String,
    pub flow: Option<String>,
    pub encryption: String,
    pub sni: Option<String>,
    pub fingerprint: Option<String>,
    pub public_key: Option<String>,
    pub short_id: Option<String>,
    pub host_header: Option<String>,
    pub path: Option<String>,
    pub service_name: Option<String>,
    pub authority: Option<String>,
    pub mode: Option<String>,
    pub header_type: Option<String>,
    pub spider_x: Option<String>,
    pub alpn: Vec<String>,
}

/// A server as its VLESS URI describes it, as mathematical values.
pub struct VlessModel {
    pub uri: Seq<char>,
    pub label: Seq<char>,
    pub host: Seq<char>,
    pub port: u16,
    pub network: Seq<char>,
    pub security: Seq<char>,
    pub uuid: Seq<char>,
    pub flow: Option<Seq<char>>,
    pub encryption: Seq<char>,
    pub sni: Option<Seq<char>>,
    pub fingerprint: Option<Seq<char>>,
    pub public_key: Option<Seq<char>>,
    pub short_id: Option<Seq<char>>,
    pub host_header: Option<Seq<char>>,
    pub path: Option<Seq<char>>,
    pub service_name: Option<Seq<char>>,
    pub authority: Option<Seq<char>>,
    pub mode: Option<Seq<char>>,
    pub header_type: Option<Seq<char>>,
    pub spider_x: Option<Seq<char>>,
    pub alpn: Seq<Seq<char>>,
}

impl View for ParsedVless {
    type V = VlessModel;

    open spec fn view(&self) -> VlessModel {
        VlessModel {
            uri: self.uri@,
            label: self.label@,
            host: self.host@,
            port: self.port,
            network: self.network@,
            security: self.security@,
            uuid: self.uuid@,
            flow: opt_text(self.flow),
            encryption: self.encryption@,
            sni: opt_text(self.sni),
            fingerprint: opt_text(self.fingerprint),
            public_key: opt_text(self.public_key),
            short_id: opt_text(self.short_id),
            host_header: opt_text(self.host_header),
            path: opt_text(self.path),
            service_name: opt_text(self.service_name),
            authority: opt_text(self.authority),
            mode: opt_text(self.mode),
            header_type: opt_text(self.header_type),
            spider_x: opt_text(self.spider_x),
            alpn: texts(self.alpn@),
        }
    }
}

/// The value that a query gives to a key: the last one, where the key occurs more than once.
pub open spec fn query_value(query: Seq<(Seq<char>, Seq<char>)>, key: Seq<char>) -> Option<
    Seq<char>,
>
    decreases query.len(),
{
    if query.len() == 0 {
        None
    } else if query.last().0 == key {
        Some(query.last().1)
    } else {
        query_value(query.drop_last(), key)
    }
}

/// The value that the query gives to the key.
fn find_value(query: &Vec<(String, String)>, key: &str) -> (value: Option<String>)
    ensures
        opt_text(value) == query_value(pairs(query@), key@),
{
    let mut i: usize = query.len();
    assert(pairs(query@).take(i as int) =~= pairs(query@));
    while i > 0
        invariant
            i <= query.len(),
            query_value(pairs(query@), key@) == query_value(pairs(query@).take(i as int), key@),
        decreases i,
    {
        let ghost known = pairs(query@).take(i as int);
        i -= 1;
        assert(known.last() == (query[i as int].0@, query[i as int].1@));
        assert(known.drop_last() =~= pairs(query@).take(i as int));
        if same_text(query[i].0.as_str(), key) {
            return Some(query[i].1.clone());
        }
    }
    None
}

/// The first of two texts that is there.
pub open spec fn first_of(first: Option<Seq<char>>, second: Option<Seq<char>>) -> Option<
    Seq<char>,
> {
    if first is Some {
        first
    } else {
        second
    }
}

/// The label of a server: its fragment, decoded if it can be, with spaces in the place of plus
/// signs, or its address if it has no fragment.
pub open spec fn label_of(
    fragment: Option<Seq<char>>,
    decoded: Option<Seq<char>>,
    host: Seq<char>,
    port: u16,
) -> Seq<char> {
    match fragment {
        Some(fragment) if fragment.len() > 0 => plus_as_space(text_or(decoded, fragment)),
        _ => host + ":"@ + decimal(port as nat),
    }
}

/// What a query says about a server, beside its address, its user and its label.
pub open spec fn vless_of_query(
    query: Seq<(Seq<char>, Seq<char>)>,
    uri: Seq<char>,
    label: Seq<char>,
    host: Seq<char>,
    port: u16,
    uuid: Seq<char>,
) -> VlessModel {
    VlessModel {
        uri,
        label,
        host,
        port,
        network: text_or(query_value(query, "type"@), "tcp"@),
        security: text_or(query_value(query, "security"@), "none"@),
        uuid,
        flow: query_value(query, "flow"@),
        encryption: text_or(query_value(query, "encryption"@), "none"@),
        sni: query_value(query, "sni"@),
        fingerprint: query_value(query, "fp"@),
        public_key: query_value(query, "pbk"@),
        short_id: query_value(query, "sid"@),
        host_header: query_value(query, "host"@),
        path: query_value(query, "path"@),
        service_name: query_value(query, "serviceName"@),
        authority: query_value(query, "authority"@),
        mode: first_of(query_value(query, "mode"@), query_value(query, "xmode"@)),
        header_type: query_value(query, "headerType"@),
        spider_x: first_of(query_value(query, "spx"@), query_value(query, "spiderX"@)),
        alpn: match query_value(query, "alpn"@) {
            Some(list) => list_of(list),
            None => Seq::empty(),
        },
    }
}

/// What the components of a URL say about a server, or why they describe none. `decoded` is
/// the decoded fragment.
pub open spec fn vless_of_url(
    uri: Seq<char>,
    url: UrlModel,
    decoded: Option<Seq<char>>,
) -> Result<VlessModel, Seq<char>> {
    let uuid = trimmed(url.username);
    let port = match url.port {
        Some(port) => port,
        None => DEFAULT_PORT,
    };
    if url.scheme != "vless"@ {
        Err("Only vless:// URIs are supported"@)
    } else if uuid.len() == 0 {
        Err("Missing VLESS user id"@)
    } else {
        match url.host {
            None => Err("Missing server host"@),
            Some(host) => Ok(
                vless_of_query(
                    url.query,
                    uri,
                    label_of(url.fragment, decoded, host, port),
                    host,
                    port,
                    uuid,
                ),
            ),
        }
    }
}

/// The decoded fragment, if there is one and it can be decoded.
pub open spec fn decoded_fragment(fragment: Option<Seq<char>>) -> Option<Seq<char>> {
    match fragment {
        Some(fragment) => percent_decoded(fragment),
        None => None,
    }
}

/// What a text says about a server, or why it describes none.
pub open spec fn vless_of(uri: Seq<char>) -> Result<VlessModel, Seq<char>> {
    match parsed_url(uri) {
        Err(error) => Err("Invalid URL: "@ + error),
        Ok(url) => vless_of_url(uri, url, decoded_fragment(url.fragment)),
    }
}

/// The view of the outcome of parsing.
pub open spec fn parse_outcome(result: Result<ParsedVless, String>) -> Result<
    VlessModel,
    Seq<char>,
> {
    match result {
        Ok(parsed) => Ok(parsed@),
        Err(error) => Err(error@),
    }
}

/// The text if there is one, and the fallback otherwise.
fn or_text(item: Option<String>, fallback: &str) -> (text: String)
    ensures
        text@ == text_or(opt_text(item), fallback@),
{
    match item {
        Some(text) => text,
        None => fallback.to_owned(),
    }
}

/// The first of two texts that is there.
fn or_else(first: Option<String>, second: Option<String>) -> (text: Option<String>)
    ensures
        opt_text(text) == first_of(opt_text(first), opt_text(second)),
{
    match first {
        Some(text) => Some(text),
        None => second,
    }
}

/// The label of a server.
fn make_label(
    fragment: &Option<String>,
    decoded: &Option<String>,
    host: &str,
    port: u16,
) -> (label: String)
    ensures
        label@ == label_of(opt_text(*fragment), opt_text(*decoded), host@, port),
{
    match fragment {
        Some(fragment) if !fragment.as_str().is_empty() => match decoded {
            Some(decoded) => replace_plus(decoded.as_str()),
            None => replace_plus(fragment.as_str()),
        },
        _ => {
            let mut label = host.to_owned();
            label.append(":");
            label.append(decimal_text(port as u128).as_str());
            label
        },
    }
}

/// Reads a server off the components of its URL. `decoded` is the decoded fragment, if it
/// could be decoded; it matters only where there is a fragment.
pub fn vless_from_parts(uri: &str, parts: &UrlParts, decoded: Option<String>) -> (parsed: Result<
    ParsedVless,
    String,
>)
    ensures
        parse_outcome(parsed) == vless_of_url(uri@, parts@, opt_text(decoded)),
{
    if !same_text(parts.scheme.as_str(), "vless") {
        return Err("Only vless:// URIs are supported".to_owned());
    }
    let uuid = trim(parts.username.as_str());
    if uuid.as_str().is_empty() {
        return Err("Missing VLESS user id".to_owned());
    }
    let host = match &parts.host {
        Some(host) => host.clone(),
        None => {
            return Err("Missing server host".to_owned());
        },
    };
    let query = &parts.query;
    let port: u16 = match parts.port {
        Some(port) => port,
        None => DEFAULT_PORT,
    };
    let label = make_label(&parts.fragment, &decoded, host.as_str(), port);
    let alpn = match find_value(query, "alpn") {
        Some(list) => list_entries(list.as_str()),
        None => {
            let none: Vec<String> = Vec::new();
            assert(texts(none@) =~= Seq::empty());
            none
        },
    };
    Ok(
        ParsedVless {
            uri: uri.to_owned(),
            label,
            host,
            port,
            network: or_text(find_value(query, "type"), "tcp"),
            security: or_text(find_value(query, "security"), "none"),
            uuid,
            flow: find_value(query, "flow"),
            encryption: or_text(find_value(query, "encryption"), "none"),
            sni: find_value(query, "sni"),
            fingerprint: find_value(query, "fp"),
            public_key: find_value(query, "pbk"),
            short_id: find_value(query, "sid"),
            host_header: find_value(query, "host"),
            path: find_value(query, "path"),
            service_name: find_value(query, "serviceName"),
            authority: find_value(query, "authority"),
            mode: or_else(find_value(query, "mode"), find_value(query, "xmode")),
            header_type: find_value(query, "headerType"),
            spider_x: or_else(find_value(query, "spx"), find_value(query, "spiderX")),
            alpn,
        },
    )
}

/// Reads a server off its VLESS URI. A fragment without percent signs is the label as it is, but
/// for its plus signs.
pub fn parse_vless_uri(uri: &str) -> (parsed: Result<ParsedVless, String>)
    ensures
        parse_outcome(parsed) == vless_of(uri@),
        parsed matches Ok(server) ==> (parsed_url(uri@)->Ok_0.fragment matches Some(fragment) ==> (
        fragment.len() > 0 && !fragment.contains('%') ==> server.label@ == plus_as_space(
            fragment,
        ))),
{
    match parse_url(uri) {
        Err(error) => {
            let mut message = "Invalid URL: ".to_owned();
            message.append(error.as_str());
            Err(message)
        },
        Ok(parts) => {
            let decoded = match &parts.fragment {
                Some(fragment) => decode_percent(fragment.as_str()),
                None => None,
            };
            vless_from_parts(uri, &parts, decoded)
        },
    }
}

} // verus!
