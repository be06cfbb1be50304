//! The lists that server URIs are collected from.

use crate::text::{
    begins_with, lemma_texts_push, lines, lines_of, same_text, starts_with, texts, trim, trimmed,
};
use vstd::prelude::*;
use vstd::string::*;

verus! {

/// The list that is read if no list is given.
pub const SOURCE_URL: &'static str = "https://raw.githubusercontent.com/iboxz/free-v2ray-collector/main/main/vless.txt";

/// The second list that is read if no list is given.
pub const EXTRA_SOURCE_URL: &'static str = "https://raw.githubusercontent.com/NiREvil/vless/main/sub.txt";

/// The addresses without the white space around them, each once, where it comes first, and
/// without blank ones.
pub open spec fn unique_urls(urls: Seq<Seq<char>>) -> Seq<Seq<char>>
    decreases urls.len(),
{
    if urls.len() == 0 {
        Seq::empty()
    } else {
        let known = unique_urls(urls.drop_last());
        let url = trimmed(urls.last());
        if url.len() == 0 || known.contains(url) {
            known
        } else {
            known.push(url)
        }
    }
}

/// The addresses of the lists that are read if none is given.
pub open spec fn default_urls() -> Seq<Seq<char>> {
    seq![SOURCE_URL@, EXTRA_SOURCE_URL@]
}

/// The lists to read, for the addresses that were given.
pub open spec fn merged_urls(urls: Seq<Seq<char>>) -> Seq<Seq<char>> {
    unique_urls(
        if urls.len() == 0 {
            default_urls()
        } else {
            urls
        },
    )
}

/// Tells whether a text is in the list.
fn holds(list: &Vec<String>, wanted: &str) -> (found: bool)
    ensures
        found == texts(list@).contains(wanted@),
{
    let mut i: usize = 0;
    while i < list.len()
        invariant
            i <= list.len(),
            forall|j: int| 0 <= j < i ==> texts(list@)[j] != wanted@,
        decreases list.len() - i,
    {
        if same_text(list[i].as_str(), wanted) {
            assert(texts(list@)[i as int] == wanted@);
            return true;
        }
        i += 1;
    }
    false
}

/// The lists to read: the given ones without white space around them, without blank ones and
/// without repetitions, or the usual ones if none is given.
pub fn merge_source_urls(source_urls: Vec<String>) -> (merged: Vec<String>)
    ensures
        texts(merged@) == merged_urls(texts(source_urls@)),
{
    let mut sources = source_urls;
    assert(texts(sources@).len() == sources.len());
    if sources.is_empty() {
        sources.push(SOURCE_URL.to_owned());
        sources.push(EXTRA_SOURCE_URL.to_owned());
        assert(texts(sources@) =~= default_urls());
    }
    let ghost all = texts(sources@);
    let mut unique: Vec<String> = Vec::new();
    let mut i: usize = 0;
    assert(texts(unique@) =~= unique_urls(all.take(0)));
    while i < sources.len()
        invariant
            i <= sources.len(),
            all == texts(sources@),
            texts(unique@) == unique_urls(all.take(i as int)),
        decreases sources.len() - i,
    {
        let url = trim(sources[i].as_str());
        proof {
            lemma_texts_push(unique@, url);
            assert(all.take(i + 1).drop_last() =~= all.take(i as int));
            assert(all.take(i + 1).last() == sources[i as int]@);
        }
        if !url.as_str().is_empty() && !holds(&unique, url.as_str()) {
            unique.push(url);
        }
        i += 1;
    }
    assert(all.take(i as int) =~= all);
    unique
}

/// Tells whether a line names a VLESS server.
pub open spec fn names_server(line: Seq<char>) -> bool {
    line.len() > 0 && begins_with(line, "vless://"@)
}

/// The lines that name a VLESS server, without the white space around them.
pub open spec fn server_lines(found: Seq<Seq<char>>) -> Seq<Seq<char>> {
    found.map_values(|line: Seq<char>| trimmed(line)).filter(|line: Seq<char>| names_server(line))
}

/// One more line adds one URI, or none if it names no server.
pub proof fn lemma_server_lines_push(found: Seq<Seq<char>>, line: Seq<char>)
    ensures
        server_lines(found.push(line)) == if names_server(trimmed(line)) {
            server_lines(found).push(trimmed(line))
        } else {
            server_lines(found)
        },
{
    reveal(Seq::filter);
    let map = |line: Seq<char>| trimmed(line);
    assert(found.push(line).map_values(map).drop_last() =~= found.map_values(map));
}

/// The VLESS URIs of a list, one per line.
pub fn vless_uris(text: &str) -> (uris: Vec<String>)
    ensures
        texts(uris@) == server_lines(lines(text@)),
{
    let found = lines_of(text);
    let ghost all = texts(found@);
    let mut uris: Vec<String> = Vec::new();
    let mut i: usize = 0;
    proof {
        reveal(Seq::filter);
        assert(texts(uris@) =~= server_lines(all.take(0)));
    }
    while i < found.len()
        invariant
            i <= found.len(),
            all == texts(found@),
            texts(uris@) == server_lines(all.take(i as int)),
        decreases found.len() - i,
    {
        let line = trim(found[i].as_str());
        proof {
            lemma_texts_push(uris@, line);
            lemma_server_lines_push(all.take(i as int), all[i as int]);
            assert(all.take(i + 1) =~= all.take(i as int).push(all[i as int]));
        }
        if !line.as_str().is_empty() && starts_with(line.as_str(), "vless://") {
            uris.push(line);
        }
        i += 1;
    }
    assert(all.take(i as int) =~= all);
    uris
}

} // verus!
