//! What holds of the lists that are read and of the servers that they name.

use crate::fetch::{fetch_logged, fetched_text, read_all, FetchModel};
use crate::laws::text::{
    law_split_of_joined, law_split_of_one, law_trim_ignores_end, law_trim_is_idempotent,
    law_trim_keeps_trimmed,
};
use crate::scan::ScanModel;
use crate::scan_task::scanned_uris;
use crate::sources::{
    default_urls, lemma_server_lines_push, merged_urls, names_server, server_lines, unique_urls,
};
use crate::text::{lemma_split_not_empty, lines, split, trimmed, without_cr};
use vstd::prelude::*;

verus! {

/// Each address that is read was given and is not blank, has no white space around it, and is
/// read once; and each address that was given is read, unless it is blank.
pub proof fn law_unique_urls(urls: Seq<Seq<char>>)
    ensures
        unique_urls(urls).no_duplicates(),
        forall|url: Seq<char>| #[trigger]
            unique_urls(urls).contains(url) <==> url.len() > 0 && exists|i: int|
                0 <= i < urls.len() && trimmed(#[trigger] urls[i]) == url,
        forall|i: int|
            0 <= i < unique_urls(urls).len() ==> trimmed(#[trigger] unique_urls(urls)[i])
                == unique_urls(urls)[i],
    decreases urls.len(),
{
    if urls.len() > 0 {
        let fewer = urls.drop_last();
        let known = unique_urls(fewer);
        let last = trimmed(urls.last());
        let all = unique_urls(urls);
        law_unique_urls(fewer);
        law_trim_is_idempotent(urls.last());
        assert forall|url: Seq<char>| #[trigger] all.contains(url) implies url.len() > 0 && exists|
            i: int,
        | 0 <= i < urls.len() && trimmed(#[trigger] urls[i]) == url by {
            if known.contains(url) {
                let i = choose|i: int| 0 <= i < fewer.len() && trimmed(#[trigger] fewer[i]) == url;
                assert(trimmed(urls[i]) == url);
            } else {
                let at = choose|at: int| 0 <= at < all.len() && all[at] == url;
                if at < known.len() {
                    assert(known[at] == url);
                }
                assert(url == last);
                assert(trimmed(urls[urls.len() - 1]) == url);
            }
        }
        assert forall|url: Seq<char>|
            url.len() > 0 && (exists|i: int|
                0 <= i < urls.len() && trimmed(#[trigger] urls[i]) == url) implies #[trigger] all.contains(
        url) by {
            let i = choose|i: int| 0 <= i < urls.len() && trimmed(#[trigger] urls[i]) == url;
            if i < fewer.len() {
                assert(trimmed(fewer[i]) == url);
                assert(known.contains(url));
                let at = choose|at: int| 0 <= at < known.len() && known[at] == url;
                assert(all[at] == url);
            } else {
                assert(url == last);
                if !known.contains(url) {
                    assert(all[known.len() as int] == url);
                } else {
                    assert(all == known);
                }
            }
        }
        assert forall|i: int| 0 <= i < all.len() implies trimmed(#[trigger] all[i]) == all[i] by {
            if i < known.len() {
                assert(all[i] == known[i]);
            }
        }
        assert(all.no_duplicates()) by {
            assert forall|i: int, j: int|
                0 <= i < all.len() && 0 <= j < all.len() && i != j implies all[i] != all[j] by {
                if i < known.len() && j < known.len() {
                    assert(known[i] != known[j]);
                } else if i < known.len() {
                    assert(known.contains(known[i]));
                } else if j < known.len() {
                    assert(known.contains(known[j]));
                }
            }
        }
    }
}

/// The addresses are read in the order in which they were given: further addresses only come
/// behind those that were given before.
pub proof fn law_unique_urls_keep_order(urls: Seq<Seq<char>>, more: Seq<Seq<char>>)
    ensures
        unique_urls(urls).is_prefix_of(unique_urls(urls + more)),
    decreases more.len(),
{
    if more.len() == 0 {
        assert(urls + more =~= urls);
    } else {
        law_unique_urls_keep_order(urls, more.drop_last());
        assert((urls + more).drop_last() =~= urls + more.drop_last());
    }
}

/// Addresses that are not blank, have no white space around them and do not repeat are all
/// read, as they are.
pub proof fn law_unique_urls_keep_clean(urls: Seq<Seq<char>>)
    requires
        urls.no_duplicates(),
        forall|i: int|
            0 <= i < urls.len() ==> (#[trigger] urls[i]).len() > 0 && trimmed(urls[i]) == urls[i],
    ensures
        unique_urls(urls) == urls,
    decreases urls.len(),
{
    if urls.len() > 0 {
        let fewer = urls.drop_last();
        assert forall|i: int| 0 <= i < fewer.len() implies (#[trigger] fewer[i]).len() > 0
            && trimmed(fewer[i]) == fewer[i] by {
            assert(fewer[i] == urls[i]);
        }
        law_unique_urls_keep_clean(fewer);
        assert(urls[urls.len() - 1].len() > 0);
        assert(!fewer.contains(urls.last())) by {
            assert forall|i: int| 0 <= i < fewer.len() implies fewer[i] != urls.last() by {
                assert(urls[i] != urls[urls.len() - 1]);
            }
        }
        assert(unique_urls(urls) =~= urls);
    }
}

/// What is read stays the same if it is handed in again, where there is anything to read.
pub proof fn law_merge_is_idempotent(urls: Seq<Seq<char>>)
    requires
        merged_urls(urls).len() > 0,
    ensures
        merged_urls(merged_urls(urls)) == merged_urls(urls),
{
    let merged = merged_urls(urls);
    let given = if urls.len() == 0 {
        default_urls()
    } else {
        urls
    };
    law_unique_urls(given);
    assert forall|i: int| 0 <= i < merged.len() implies (#[trigger] merged[i]).len() > 0
        && trimmed(merged[i]) == merged[i] by {
        assert(merged.contains(merged[i]));
    }
    law_unique_urls_keep_clean(merged);
}

/// The usual lists are read if no list is given.
pub proof fn law_usual_lists()
    ensures
        merged_urls(Seq::empty()) == seq![
            "https://raw.githubusercontent.com/iboxz/free-v2ray-collector/main/main/vless.txt"@,
            "https://raw.githubusercontent.com/NiREvil/vless/main/sub.txt"@,
        ],
{
    let first = "https://raw.githubusercontent.com/iboxz/free-v2ray-collector/main/main/vless.txt"@;
    let second = "https://raw.githubusercontent.com/NiREvil/vless/main/sub.txt"@;
    reveal_strlit(
        "https://raw.githubusercontent.com/iboxz/free-v2ray-collector/main/main/vless.txt",
    );
    reveal_strlit("https://raw.githubusercontent.com/NiREvil/vless/main/sub.txt");
    assert(first.len() != second.len());
    law_trim_keeps_trimmed(first);
    law_trim_keeps_trimmed(second);
    law_unique_urls_keep_clean(default_urls());
}

/// The URIs that are scanned are the lines that name a server, without the white space around
/// them, in their order; each of them begins with the scheme.
pub proof fn law_scanned_uris(text: Seq<char>)
    ensures
        forall|i: int|
            0 <= i < scanned_uris(text).len() ==> {
                let uri = #[trigger] scanned_uris(text)[i];
                &&& names_server(uri)
                &&& trimmed(uri) == uri
            },
        forall|uri: Seq<char>| #[trigger]
            scanned_uris(text).contains(uri) <==> names_server(uri) && exists|i: int|
                0 <= i < lines(text).len() && trimmed(#[trigger] lines(text)[i]) == uri,
{
    lemma_server_lines(lines(text));
}

/// The lines that name a server.
proof fn lemma_server_lines(found: Seq<Seq<char>>)
    ensures
        forall|i: int|
            0 <= i < server_lines(found).len() ==> {
                let uri = #[trigger] server_lines(found)[i];
                &&& names_server(uri)
                &&& trimmed(uri) == uri
            },
        forall|uri: Seq<char>| #[trigger]
            server_lines(found).contains(uri) <==> names_server(uri) && exists|i: int|
                0 <= i < found.len() && trimmed(#[trigger] found[i]) == uri,
    decreases found.len(),
{
    reveal(Seq::filter);
    if found.len() > 0 {
        let fewer = found.drop_last();
        let last = found.last();
        let known = server_lines(fewer);
        let all = server_lines(found);
        lemma_server_lines(fewer);
        assert(fewer.push(last) =~= found);
        lemma_server_lines_push(fewer, last);
        law_trim_is_idempotent(last);
        assert forall|uri: Seq<char>| #[trigger] all.contains(uri) implies names_server(uri)
            && exists|i: int| 0 <= i < found.len() && trimmed(#[trigger] found[i]) == uri by {
            let at = choose|at: int| 0 <= at < all.len() && all[at] == uri;
            if at < known.len() {
                assert(known[at] == uri);
                assert(known.contains(uri));
                let i = choose|i: int| 0 <= i < fewer.len() && trimmed(#[trigger] fewer[i]) == uri;
                assert(trimmed(found[i]) == uri);
            } else {
                assert(trimmed(found[found.len() - 1]) == uri);
            }
        }
        assert forall|uri: Seq<char>|
            names_server(uri) && (exists|i: int|
                0 <= i < found.len() && trimmed(#[trigger] found[i]) == uri) implies #[trigger] all.contains(
        uri) by {
            let i = choose|i: int| 0 <= i < found.len() && trimmed(#[trigger] found[i]) == uri;
            if i < fewer.len() {
                assert(trimmed(fewer[i]) == uri);
                assert(known.contains(uri));
                let at = choose|at: int| 0 <= at < known.len() && known[at] == uri;
                assert(all[at] == uri);
            } else {
                assert(all[known.len() as int] == uri);
            }
        }
    }
}

/// The lines of two lists name the servers of the one and then those of the other.
proof fn lemma_server_lines_add(a: Seq<Seq<char>>, b: Seq<Seq<char>>)
    ensures
        server_lines(a + b) == server_lines(a) + server_lines(b),
    decreases b.len(),
{
    reveal(Seq::filter);
    if b.len() == 0 {
        assert(a + b =~= a);
        assert(server_lines(a + b) =~= server_lines(a) + server_lines(b));
    } else {
        let fewer = b.drop_last();
        lemma_server_lines_add(a, fewer);
        assert(a + b =~= (a + fewer).push(b.last()));
        assert(fewer.push(b.last()) =~= b);
        lemma_server_lines_push(a + fewer, b.last());
        lemma_server_lines_push(fewer, b.last());
        assert(server_lines(a + b) =~= server_lines(a) + server_lines(b));
    }
}

/// Carriage returns at the ends of lines make no difference to the servers that they name.
proof fn lemma_server_lines_without_cr(found: Seq<Seq<char>>)
    ensures
        server_lines(found.map_values(|line: Seq<char>| without_cr(line))) == server_lines(found),
    decreases found.len(),
{
    let strip = |line: Seq<char>| without_cr(line);
    if found.len() == 0 {
        assert(found.map_values(strip) =~= found);
    } else {
        let fewer = found.drop_last();
        let last = found.last();
        lemma_server_lines_without_cr(fewer);
        assert(fewer.push(last) =~= found);
        assert(found.map_values(strip) =~= fewer.map_values(strip).push(without_cr(last)));
        lemma_server_lines_push(fewer, last);
        lemma_server_lines_push(fewer.map_values(strip), without_cr(last));
        if last.len() > 0 && last.last() == '\r' {
            law_trim_ignores_end(last.drop_last(), '\r');
            assert(last.drop_last().push('\r') =~= last);
        }
    }
}

/// The servers that a text names are those that its pieces between line feeds name.
proof fn lemma_scanned_pieces(text: Seq<char>)
    ensures
        scanned_uris(text) == server_lines(split(text, '\n')),
{
    let pieces = split(text, '\n');
    let ended = pieces.drop_last().map_values(|piece: Seq<char>| without_cr(piece));
    lemma_split_not_empty(text, '\n');
    assert(pieces.drop_last().push(pieces.last()) =~= pieces);
    lemma_server_lines_without_cr(pieces.drop_last());
    lemma_server_lines_push(pieces.drop_last(), pieces.last());
    lemma_server_lines_push(ended, pieces.last());
    if pieces.last().len() == 0 {
        assert(trimmed(pieces.last()).len() == 0);
    }
}

/// Lists that are read one after the other, each with a line feed behind it, do not run into
/// each other: the servers of the one are scanned, then those of the other.
pub proof fn law_lists_do_not_run_together(a: Seq<char>, b: Seq<char>)
    ensures
        scanned_uris(a.push('\n') + b) == scanned_uris(a) + scanned_uris(b),
{
    lemma_scanned_pieces(a);
    lemma_scanned_pieces(b);
    lemma_scanned_pieces(a.push('\n') + b);
    law_split_of_joined(a, b, '\n');
    lemma_server_lines_add(split(a, '\n'), split(b, '\n'));
}

/// The servers of the lists that could be read, list by list.
pub open spec fn servers_of(outcomes: Seq<FetchModel>) -> Seq<Seq<char>>
    decreases outcomes.len(),
{
    if outcomes.len() == 0 {
        Seq::empty()
    } else {
        match outcomes.last() {
            FetchModel::Text(text) => servers_of(outcomes.drop_last()) + scanned_uris(text),
            _ => servers_of(outcomes.drop_last()),
        }
    }
}

/// What was collected from the lists is empty, or ends with a line feed.
proof fn lemma_collected_ends(outcomes: Seq<FetchModel>)
    ensures
        read_all(outcomes).collected.len() > 0 ==> read_all(outcomes).collected.last() == '\n',
    decreases outcomes.len(),
{
    if outcomes.len() > 0 {
        lemma_collected_ends(outcomes.drop_last());
    }
}

/// The servers that are scanned are those of all lists that could be read, in the order in which
/// the lists were read; a list that could not be read adds none and takes none away.
pub proof fn law_all_lists_are_scanned(outcomes: Seq<FetchModel>)
    ensures
        scanned_uris(read_all(outcomes).collected) == servers_of(outcomes),
        read_all(outcomes).any_ok == exists|i: int|
            0 <= i < outcomes.len() && #[trigger] outcomes[i] is Text,
    decreases outcomes.len(),
{
    let all = read_all(outcomes).collected;
    if outcomes.len() == 0 {
        lemma_scanned_pieces(all);
        let pieces = split(all, '\n');
        assert(pieces =~= Seq::empty().push(pieces[0]));
        lemma_server_lines_push(Seq::empty(), pieces[0]);
        assert(trimmed(pieces[0]).len() == 0);
        reveal(Seq::filter);
        assert(scanned_uris(all) =~= Seq::empty());
    } else {
        let fewer = outcomes.drop_last();
        let before = read_all(fewer).collected;
        law_all_lists_are_scanned(fewer);
        lemma_collected_ends(fewer);
        if outcomes.last() is Text {
            let text = outcomes.last()->Text_0;
            let empty = Seq::<char>::empty();
            assert(outcomes[outcomes.len() - 1] is Text);
            assert(all =~= (before + text).push('\n') + empty);
            law_lists_do_not_run_together(before + text, empty);
            law_all_lists_are_scanned(Seq::empty());
            assert(read_all(Seq::empty()).collected =~= empty);
            assert(scanned_uris(empty) =~= Seq::empty());
            assert(scanned_uris(all) =~= scanned_uris(before + text));
            if before.len() > 0 {
                let start = before.drop_last();
                assert(before + text =~= start.push('\n') + text);
                law_lists_do_not_run_together(start, text);
                law_lists_do_not_run_together(start, empty);
                assert(start.push('\n') + empty =~= before);
                assert(scanned_uris(before) =~= scanned_uris(start));
            } else {
                assert(before + text =~= text);
                assert(before =~= empty);
            }
            assert(scanned_uris(all) =~= servers_of(outcomes));
        } else {
            assert forall|i: int| 0 <= i < outcomes.len() && #[trigger] outcomes[i] is Text implies 0
                <= i < fewer.len() && fewer[i] is Text by {}
            if read_all(fewer).any_ok {
                let i = choose|i: int| 0 <= i < fewer.len() && #[trigger] fewer[i] is Text;
                assert(outcomes[i] is Text);
            }
        }
    }
}

/// Tells whether a text begins with the eight characters of the scheme `vless://`.
pub open spec fn has_scheme(text: Seq<char>) -> bool {
    &&& text.len() >= 8
    &&& text[0] == 'v'
    &&& text[1] == 'l'
    &&& text[2] == 'e'
    &&& text[3] == 's'
    &&& text[4] == 's'
    &&& text[5] == ':'
    &&& text[6] == '/'
    &&& text[7] == '/'
}

/// What a line adds to the servers that are scanned: itself without the white space around it,
/// if that begins with the scheme, whatever follows the scheme, and nothing otherwise.
pub open spec fn server_of_line(line: Seq<char>) -> Seq<Seq<char>> {
    if has_scheme(trimmed(line)) {
        seq![trimmed(line)]
    } else {
        Seq::empty()
    }
}

/// A line names a server exactly if it begins with the scheme.
proof fn lemma_names_server(line: Seq<char>)
    ensures
        names_server(line) == has_scheme(line),
{
    reveal_strlit("vless://");
    let scheme = "vless://"@;
    if has_scheme(line) {
        assert(line.take(8) =~= scheme);
    }
    if names_server(line) {
        assert(line.take(8) == scheme);
        assert forall|i: int| 0 <= i < 8 implies line[i] == scheme[i] by {
            assert(line.take(8)[i] == line[i]);
        }
    }
}

/// A line is scanned exactly if, without the white space around it, it begins with the eight
/// characters `vless://`; nothing that follows them makes a difference. So it is for the last
/// line of a list, and for the first one, behind which the other servers follow.
pub proof fn law_line_is_scanned_for_its_scheme(line: Seq<char>, rest: Seq<char>)
    requires
        !line.contains('\n'),
    ensures
        scanned_uris(line) == server_of_line(line),
        scanned_uris(line.push('\n') + rest) == server_of_line(line) + scanned_uris(rest),
{
    reveal(Seq::filter);
    let none = Seq::<Seq<char>>::empty();
    lemma_scanned_pieces(line);
    law_split_of_one(line, '\n');
    assert(split(line, '\n') =~= none.push(line));
    lemma_server_lines_push(none, line);
    assert(server_lines(none) =~= none);
    lemma_names_server(trimmed(line));
    assert(scanned_uris(line) =~= server_of_line(line));
    law_lists_do_not_run_together(line, rest);
}

/// A text is among the servers that are scanned exactly if it begins with the scheme and is a
/// line of the list without the white space around it.
pub proof fn law_scanned_servers_have_scheme(text: Seq<char>)
    ensures
        forall|uri: Seq<char>| #[trigger]
            scanned_uris(text).contains(uri) <==> has_scheme(uri) && exists|i: int|
                0 <= i < lines(text).len() && trimmed(#[trigger] lines(text)[i]) == uri,
{
    law_scanned_uris(text);
    assert forall|uri: Seq<char>| names_server(uri) == #[trigger] has_scheme(uri) by {
        lemma_names_server(uri);
    }
    assert forall|uri: Seq<char>| #[trigger]
        scanned_uris(text).contains(uri) <==> has_scheme(uri) && exists|i: int|
            0 <= i < lines(text).len() && trimmed(#[trigger] lines(text)[i]) == uri by {
        lemma_names_server(uri);
    }
}

/// Where lists are given, each is read that is not blank, without the white space around it,
/// once, in the order in which they were given; no other list is read.
pub proof fn law_given_lists_are_read(urls: Seq<Seq<char>>, more: Seq<Seq<char>>)
    requires
        urls.len() > 0,
    ensures
        merged_urls(urls).no_duplicates(),
        forall|url: Seq<char>| #[trigger]
            merged_urls(urls).contains(url) <==> url.len() > 0 && exists|i: int|
                0 <= i < urls.len() && trimmed(#[trigger] urls[i]) == url,
        merged_urls(urls).is_prefix_of(merged_urls(urls + more)),
{
    law_unique_urls(urls);
    law_unique_urls_keep_order(urls, more);
}

/// There is a text to scan exactly if any list could be read, and it names the servers of all
/// lists that could be read; otherwise the error says that there is none.
pub proof fn law_text_of_lists(outcomes: Seq<FetchModel>)
    ensures
        match fetched_text(read_all(outcomes)) {
            Ok(text) => {
                &&& exists|i: int| 0 <= i < outcomes.len() && #[trigger] outcomes[i] is Text
                &&& scanned_uris(text) == servers_of(outcomes)
            },
            Err(error) => {
                &&& forall|i: int| 0 <= i < outcomes.len() ==> !(#[trigger] outcomes[i] is Text)
                &&& error == "Failed to fetch any source list"@
            },
        },
{
    law_all_lists_are_scanned(outcomes);
}

/// A list that was read leaves no trace in the log; one that was not leaves one line, which
/// names the list and the error. Nothing else of the state changes.
pub proof fn law_failed_list_is_logged(state: ScanModel, url: Seq<char>, outcome: FetchModel)
    ensures
        ({
            let after = fetch_logged(state, url, outcome);
            &&& after == (ScanModel { lines: after.lines, ..state })
            &&& match outcome {
                FetchModel::Text(_) => after.lines == state.lines,
                FetchModel::Unreadable(error) => after.lines.last() == "Failed to read source "@
                    + url + ": "@ + error,
                FetchModel::Refused(error) => after.lines.last() == "Source request failed for "@
                    + url + ": "@ + error,
                FetchModel::Unanswered(error) => after.lines.last() == "Failed to fetch source "@
                    + url + ": "@ + error,
            }
        }),
{
}

} // verus!
