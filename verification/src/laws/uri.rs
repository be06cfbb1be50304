//! What holds of servers as their URIs describe them.

use crate::laws::text::{
    law_entries_are_trimmed, law_plus_becomes_space, law_trim_cuts_white_space,
    law_trim_is_idempotent, law_trim_keeps_trimmed,
};
use crate::text::{decimal, is_white, list_of, trimmed};
use crate::uri::{
    parsed_url, percent_decoded, query_value, vless_of, vless_of_url, UrlModel, VlessModel,
    DEFAULT_PORT,
};
use vstd::prelude::*;

verus! {

/// Where a key occurs more than once in a query, its last value counts; the values of other
/// keys are not touched.
pub proof fn law_last_value_counts(
    query: Seq<(Seq<char>, Seq<char>)>,
    key: Seq<char>,
    value: Seq<char>,
)
    ensures
        query_value(query.push((key, value)), key) == Some(value),
        forall|other: Seq<char>|
            other != key ==> #[trigger] query_value(query.push((key, value)), other) == query_value(
                query,
                other,
            ),
{
    assert(query.push((key, value)).drop_last() =~= query);
}

/// A key has a value exactly where it occurs in the query, and the value is one that it is
/// given there.
pub proof fn law_query_value_is_given(query: Seq<(Seq<char>, Seq<char>)>, key: Seq<char>)
    ensures
        query_value(query, key) is Some <==> exists|i: int|
            0 <= i < query.len() && (#[trigger] query[i]).0 == key,
        query_value(query, key) matches Some(value) ==> exists|i: int|
            0 <= i < query.len() && #[trigger] query[i] == (key, value),
    decreases query.len(),
{
    if query.len() > 0 {
        let fewer = query.drop_last();
        law_query_value_is_given(fewer, key);
        if query.last().0 == key {
            assert(query[query.len() - 1] == (key, query.last().1));
        } else if query_value(fewer, key) is Some {
            let value = query_value(fewer, key)->Some_0;
            let i = choose|i: int| 0 <= i < fewer.len() && #[trigger] fewer[i] == (key, value);
            assert(query[i] == (key, value));
        } else {
            assert forall|i: int| 0 <= i < query.len() implies (#[trigger] query[i]).0 != key by {
                if i < fewer.len() {
                    assert(fewer[i].0 != key);
                }
            }
        }
    }
}

/// A server that was read off a URI has a user, without white space around it, has the address
/// of the URI, and remembers the URI; its application protocols are not blank and have no white
/// space around them.
pub proof fn law_parsed_server(uri: Seq<char>, url: UrlModel, decoded: Option<Seq<char>>)
    ensures
        vless_of_url(uri, url, decoded) matches Ok(server) ==> {
            &&& server.uri == uri
            &&& server.uuid.len() > 0
            &&& trimmed(server.uuid) == server.uuid
            &&& url.host == Some(server.host)
            &&& server.port == match url.port {
                Some(port) => port,
                None => DEFAULT_PORT,
            }
            &&& forall|i: int|
                0 <= i < server.alpn.len() ==> {
                    let protocol = #[trigger] server.alpn[i];
                    protocol.len() > 0 && trimmed(protocol) == protocol
                }
        },
{
    law_trim_is_idempotent(url.username);
    match query_value(url.query, "alpn"@) {
        Some(list) => law_entries_are_trimmed(list),
        None => {},
    }
}

/// A URL describes a server exactly if its scheme is `vless` and it has a user and a host.
pub proof fn law_when_url_describes_server(
    uri: Seq<char>,
    url: UrlModel,
    decoded: Option<Seq<char>>,
)
    ensures
        vless_of_url(uri, url, decoded) is Ok <==> {
            &&& url.scheme == "vless"@
            &&& trimmed(url.username).len() > 0
            &&& url.host is Some
        },
{
}

/// The user id of a server is the user name of the URL with the white space around it cut off,
/// and nothing else; a user name that neither starts nor ends with white space is the user id
/// as it is, however long.
pub proof fn law_user_id_is_user_name(uri: Seq<char>, url: UrlModel, decoded: Option<Seq<char>>)
    ensures
        vless_of_url(uri, url, decoded) matches Ok(server) ==> {
            let name = url.username;
            &&& exists|from: int, to: int|
                #![trigger name.subrange(from, to)]
                {
                    &&& 0 <= from < to <= name.len()
                    &&& server.uuid == name.subrange(from, to)
                    &&& forall|i: int| 0 <= i < from ==> is_white(#[trigger] name[i])
                    &&& forall|i: int| to <= i < name.len() ==> is_white(#[trigger] name[i])
                }
            &&& server.uuid.len() > 0
            &&& !is_white(server.uuid[0])
            &&& !is_white(server.uuid.last())
            &&& name.len() > 0 && !is_white(name[0]) && !is_white(name.last()) ==> server.uuid
                == name
        },
{
    law_trim_cuts_white_space(url.username);
    if url.username.len() > 0 && !is_white(url.username[0]) && !is_white(url.username.last()) {
        law_trim_keeps_trimmed(url.username);
    }
}

/// A server without a label of its own is called after its address. Otherwise its label is the
/// fragment, decoded if it can be, with spaces in the place of plus signs.
pub proof fn law_label(uri: Seq<char>, url: UrlModel, decoded: Option<Seq<char>>)
    ensures
        vless_of_url(uri, url, decoded) matches Ok(server) ==> match url.fragment {
            Some(fragment) if fragment.len() > 0 => {
                let text = match decoded {
                    Some(text) => text,
                    None => fragment,
                };
                &&& server.label.len() == text.len()
                &&& forall|i: int|
                    0 <= i < text.len() ==> #[trigger] server.label[i] == if text[i] == '+' {
                        ' '
                    } else {
                        text[i]
                    }
            },
            _ => server.label == server.host + ":"@ + decimal(server.port as nat),
        },
{
    match vless_of_url(uri, url, decoded) {
        Ok(server) => match url.fragment {
            Some(fragment) if fragment.len() > 0 => {
                let text = match decoded {
                    Some(text) => text,
                    None => fragment,
                };
                law_plus_becomes_space(text);
            },
            _ => {},
        },
        Err(_) => {},
    }
}

/// What a URI says is what its components say, with the fragment decoded; what is no URL
/// describes no server.
pub proof fn law_uri_is_read_by_its_components(uri: Seq<char>)
    ensures
        match parsed_url(uri) {
            Err(error) => vless_of(uri) == Err::<VlessModel, Seq<char>>("Invalid URL: "@ + error),
            Ok(url) => vless_of(uri) == vless_of_url(
                uri,
                url,
                match url.fragment {
                    Some(fragment) => percent_decoded(fragment),
                    None => None,
                },
            ),
        },
{
}

/// A server that was read off a URI has the address, the port and the user of that URI.
pub proof fn law_server_is_that_of_the_uri(uri: Seq<char>)
    ensures
        vless_of(uri) matches Ok(server) ==> {
            &&& parsed_url(uri) is Ok
            &&& server.uri == uri
            &&& Some(server.host) == parsed_url(uri)->Ok_0.host
            &&& parsed_url(uri)->Ok_0.port matches Some(port) ==> server.port == port
            &&& parsed_url(uri)->Ok_0.port is None ==> server.port == 443
            &&& parsed_url(uri)->Ok_0.scheme == "vless"@
            &&& server.uuid == trimmed(parsed_url(uri)->Ok_0.username)
            &&& server.uuid.len() > 0
        },
{
}

/// Why a URL describes no server: the scheme is looked at first, then the user, then the host.
pub proof fn law_why_url_describes_no_server(
    uri: Seq<char>,
    url: UrlModel,
    decoded: Option<Seq<char>>,
)
    ensures
        url.scheme != "vless"@ ==> vless_of_url(uri, url, decoded) == Err::<VlessModel, Seq<char>>(
            "Only vless:// URIs are supported"@,
        ),
        url.scheme == "vless"@ && (forall|i: int|
            0 <= i < url.username.len() ==> is_white(#[trigger] url.username[i])) ==> vless_of_url(
            uri,
            url,
            decoded,
        ) == Err::<VlessModel, Seq<char>>("Missing VLESS user id"@),
        url.scheme == "vless"@ && url.host is None && (exists|i: int|
            0 <= i < url.username.len() && !is_white(#[trigger] url.username[i])) ==> vless_of_url(
            uri,
            url,
            decoded,
        ) == Err::<VlessModel, Seq<char>>("Missing server host"@),
{
    let name = url.username;
    law_trim_cuts_white_space(name);
    let (from, to) = choose|from: int, to: int|
        #![trigger name.subrange(from, to)]
        {
            &&& 0 <= from <= to <= name.len()
            &&& trimmed(name) == name.subrange(from, to)
            &&& forall|i: int| 0 <= i < from ==> is_white(#[trigger] name[i])
            &&& forall|i: int| to <= i < name.len() ==> is_white(#[trigger] name[i])
        };
    if forall|i: int| 0 <= i < name.len() ==> is_white(#[trigger] name[i]) {
        if trimmed(name).len() > 0 {
            assert(trimmed(name)[0] == name[from]);
        }
    } else {
        let i = choose|i: int| 0 <= i < name.len() && !is_white(#[trigger] name[i]);
        assert(from <= i < to);
    }
}

/// What a URL without a query says of a server.
pub proof fn law_server_without_query(uri: Seq<char>, url: UrlModel, decoded: Option<Seq<char>>)
    requires
        url.query.len() == 0,
    ensures
        vless_of_url(uri, url, decoded) matches Ok(server) ==> {
            &&& server.network == "tcp"@
            &&& server.security == "none"@
            &&& server.encryption == "none"@
            &&& server.flow is None
            &&& server.sni is None
            &&& server.fingerprint is None
            &&& server.public_key is None
            &&& server.short_id is None
            &&& server.host_header is None
            &&& server.path is None
            &&& server.service_name is None
            &&& server.authority is None
            &&& server.mode is None
            &&& server.header_type is None
            &&& server.spider_x is None
            &&& server.alpn.len() == 0
        },
{
}

/// Tells whether a query gives the key a value.
pub open spec fn gives(query: Seq<(Seq<char>, Seq<char>)>, key: Seq<char>) -> bool {
    exists|i: int| 0 <= i < query.len() && (#[trigger] query[i]).0 == key
}

/// The new value if the key is the one that was set, and the one before otherwise.
pub open spec fn set_by<T>(set: bool, new: T, before: T) -> T {
    if set {
        new
    } else {
        before
    }
}

/// One more pair in the query sets what its key stands for to its value, and nothing else; a key
/// that stands for nothing changes nothing. A second name of a key counts only where its first
/// name does not occur.
pub proof fn law_query_pair_sets_one_thing(
    uri: Seq<char>,
    url: UrlModel,
    decoded: Option<Seq<char>>,
    key: Seq<char>,
    value: Seq<char>,
)
    ensures
        ({
            let more = UrlModel { query: url.query.push((key, value)), ..url };
            let some = Some(value);
            match (vless_of_url(uri, url, decoded), vless_of_url(uri, more, decoded)) {
                (Ok(before), Ok(after)) => {
                    &&& after.uri == before.uri
                    &&& after.label == before.label
                    &&& after.host == before.host
                    &&& after.port == before.port
                    &&& after.uuid == before.uuid
                    &&& after.network == set_by(key == "type"@, value, before.network)
                    &&& after.security == set_by(key == "security"@, value, before.security)
                    &&& after.encryption == set_by(key == "encryption"@, value, before.encryption)
                    &&& after.flow == set_by(key == "flow"@, some, before.flow)
                    &&& after.sni == set_by(key == "sni"@, some, before.sni)
                    &&& after.fingerprint == set_by(key == "fp"@, some, before.fingerprint)
                    &&& after.public_key == set_by(key == "pbk"@, some, before.public_key)
                    &&& after.short_id == set_by(key == "sid"@, some, before.short_id)
                    &&& after.host_header == set_by(key == "host"@, some, before.host_header)
                    &&& after.path == set_by(key == "path"@, some, before.path)
                    &&& after.service_name == set_by(
                        key == "serviceName"@,
                        some,
                        before.service_name,
                    )
                    &&& after.authority == set_by(key == "authority"@, some, before.authority)
                    &&& after.mode == set_by(
                        key == "mode"@ || key == "xmode"@ && !gives(url.query, "mode"@),
                        some,
                        before.mode,
                    )
                    &&& after.header_type == set_by(key == "headerType"@, some, before.header_type)
                    &&& after.spider_x == set_by(
                        key == "spx"@ || key == "spiderX"@ && !gives(url.query, "spx"@),
                        some,
                        before.spider_x,
                    )
                    &&& after.alpn == set_by(key == "alpn"@, list_of(value), before.alpn)
                },
                (Err(before), Err(after)) => before == after,
                _ => false,
            }
        }),
{
    reveal_strlit("mode");
    reveal_strlit("xmode");
    reveal_strlit("spx");
    reveal_strlit("spiderX");
    assert("mode"@.len() == 4);
    assert("xmode"@.len() == 5);
    assert("spx"@.len() == 3);
    assert("spiderX"@.len() == 7);
    law_last_value_counts(url.query, key, value);
    law_query_value_is_given(url.query, "mode"@);
    law_query_value_is_given(url.query, "spx"@);
}

} // verus!
