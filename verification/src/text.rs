//! Text handling shared by the rest of the library: white space, lines, comma separated
//! lists and decimal numbers.

use vstd::prelude::*;
use vstd::string::*;

verus! {

/// `String::push` appends one character to the text.
pub assume_specification[ String::push ](text: &mut String, c: char)
    ensures
        final(text)@ == old(text)@.push(c),
;

/// The characters with the Unicode property `White_Space`.
pub open spec fn is_white(c: char) -> bool {
    ||| '\u{9}' <= c <= '\u{D}'
    ||| c == ' '
    ||| c == '\u{85}'
    ||| c == '\u{A0}'
    ||| c == '\u{1680}'
    ||| '\u{2000}' <= c <= '\u{200A}'
    ||| c == '\u{2028}'
    ||| c == '\u{2029}'
    ||| c == '\u{202F}'
    ||| c == '\u{205F}'
    ||| c == '\u{3000}'
}

/// Tells whether a character is white space.
pub fn is_whitespace(c: char) -> (white: bool)
    ensures
        white == is_white(c),
{
    ('\u{9}' <= c && c <= '\u{D}') || c == ' ' || c == '\u{85}' || c == '\u{A0}' || c == '\u{1680}'
        || ('\u{2000}' <= c && c <= '\u{200A}') || c == '\u{2028}' || c == '\u{2029}' || c
        == '\u{202F}' || c == '\u{205F}' || c == '\u{3000}'
}

/// The characters of a text, one by one.
pub fn chars_of(text: &str) -> (chars: Vec<char>)
    ensures
        chars@ == text@,
{
    let mut chars: Vec<char> = Vec::new();
    for c in it: text.chars()
        invariant
            it.seq() == text@,
            chars@ == text@.take(it.index() as int),
    {
        chars.push(c);
        assert(text@.take(it.index() + 1) =~= text@.take(it.index() as int).push(c));
    }
    assert(text@.take(text@.len() as int) =~= text@);
    chars
}

/// The text made of the characters from `from` up to, not including, `to`.
pub fn text_between(chars: &Vec<char>, from: usize, to: usize) -> (text: String)
    requires
        from <= to <= chars.len(),
    ensures
        text@ == chars@.subrange(from as int, to as int),
{
    let mut text = String::new();
    let mut i: usize = from;
    while i < to
        invariant
            from <= i <= to <= chars.len(),
            text@ == chars@.subrange(from as int, i as int),
        decreases to - i,
    {
        text.push(chars[i]);
        assert(chars@.subrange(from as int, i + 1) =~= chars@.subrange(from as int, i as int).push(
            chars[i as int],
        ));
        i += 1;
    }
    text
}

/// Tells whether two texts are made of the same characters.
pub fn same_text(a: &str, b: &str) -> (same: bool)
    ensures
        same == (a@ == b@),
{
    a.to_owned() == b.to_owned()
}

/// The views of a list of texts.
pub open spec fn texts(items: Seq<String>) -> Seq<Seq<char>> {
    items.map_values(|item: String| item@)
}

/// The view of a text that may be missing.
pub open spec fn opt_text(item: Option<String>) -> Option<Seq<char>> {
    match item {
        Some(text) => Some(text@),
        None => None,
    }
}

/// A copy of a text that may be missing.
pub fn clone_opt(item: &Option<String>) -> (copy: Option<String>)
    ensures
        opt_text(copy) == opt_text(*item),
{
    match item {
        Some(text) => Some(text.clone()),
        None => None,
    }
}

/// The text if there is one, and the fallback otherwise.
pub open spec fn text_or(item: Option<Seq<char>>, fallback: Seq<char>) -> Seq<char> {
    match item {
        Some(text) => text,
        None => fallback,
    }
}

/// The text if there is one, and the fallback otherwise.
pub fn clone_or(item: &Option<String>, fallback: &str) -> (text: String)
    ensures
        text@ == text_or(opt_text(*item), fallback@),
{
    match item {
        Some(text) => text.clone(),
        None => fallback.to_owned(),
    }
}

/// A copy of a list of texts.
pub fn clone_texts(items: &Vec<String>) -> (copy: Vec<String>)
    ensures
        texts(copy@) == texts(items@),
{
    let mut copy: Vec<String> = Vec::new();
    let mut i: usize = 0;
    while i < items.len()
        invariant
            i <= items.len(),
            texts(copy@) == texts(items@).take(i as int),
        decreases items.len() - i,
    {
        let ghost before = copy@;
        copy.push(items[i].clone());
        proof {
            lemma_texts_push(before, copy@.last());
            assert(texts(items@).take(i + 1) =~= texts(items@).take(i as int).push(items[i as int]@));
        }
        i += 1;
    }
    assert(texts(items@).take(i as int) =~= texts(items@));
    copy
}

/// The view of a list grows by the view of what is pushed.
pub proof fn lemma_texts_push(items: Seq<String>, item: String)
    ensures
        texts(items.push(item)) == texts(items).push(item@),
{
    assert(texts(items.push(item)) =~= texts(items).push(item@));
}

/// A text without the white space it starts with.
pub open spec fn trimmed_start(s: Seq<char>) -> Seq<char>
    decreases s.len(),
{
    if s.len() > 0 && is_white(s[0]) {
        trimmed_start(s.skip(1))
    } else {
        s
    }
}

/// A text without the white space it ends with.
pub open spec fn trimmed_end(s: Seq<char>) -> Seq<char>
    decreases s.len(),
{
    if s.len() > 0 && is_white(s.last()) {
        trimmed_end(s.drop_last())
    } else {
        s
    }
}

/// A text without the white space around it.
pub open spec fn trimmed(s: Seq<char>) -> Seq<char> {
    trimmed_end(trimmed_start(s))
}

/// The text without the white space around it.
pub fn trim(text: &str) -> (inner: String)
    ensures
        inner@ == trimmed(text@),
{
    let chars = chars_of(text);
    let mut from: usize = 0;
    let mut to: usize = chars.len();
    assert(chars@.skip(0) =~= text@);
    while from < to && is_whitespace(chars[from])
        invariant
            from <= to == chars.len(),
            chars@ == text@,
            trimmed_start(text@) == trimmed_start(chars@.skip(from as int)),
        decreases to - from,
    {
        assert(chars@.skip(from as int).skip(1) =~= chars@.skip(from + 1));
        from += 1;
    }
    assert(chars@.skip(from as int) =~= chars@.subrange(from as int, to as int));
    assert(trimmed_start(text@) == chars@.subrange(from as int, to as int));
    while to > from && is_whitespace(chars[to - 1])
        invariant
            from <= to <= chars.len(),
            trimmed(text@) == trimmed_end(chars@.subrange(from as int, to as int)),
        decreases to - from,
    {
        assert(chars@.subrange(from as int, to as int).drop_last() =~= chars@.subrange(
            from as int,
            to - 1,
        ));
        to -= 1;
    }
    text_between(&chars, from, to)
}

/// The pieces of a text between the occurrences of a separator.
pub open spec fn split(s: Seq<char>, separator: char) -> Seq<Seq<char>>
    decreases s.len(),
{
    if s.len() == 0 {
        seq![Seq::empty()]
    } else {
        let pieces = split(s.drop_last(), separator);
        if s.last() == separator {
            pieces.push(Seq::empty())
        } else {
            pieces.drop_last().push(pieces.last().push(s.last()))
        }
    }
}

/// There is always a last piece, be it empty.
pub proof fn lemma_split_not_empty(s: Seq<char>, separator: char)
    ensures
        split(s, separator).len() > 0,
    decreases s.len(),
{
    if s.len() > 0 {
        lemma_split_not_empty(s.drop_last(), separator);
    }
}

/// The pieces of a text between the occurrences of a separator.
pub fn split_text(text: &str, separator: char) -> (pieces: Vec<String>)
    ensures
        texts(pieces@) == split(text@, separator),
{
    let chars = chars_of(text);
    let mut pieces: Vec<String> = Vec::new();
    let mut current = String::new();
    let mut i: usize = 0;
    assert(texts(pieces@).push(current@) =~= split(chars@.take(0), separator));
    while i < chars.len()
        invariant
            i <= chars.len(),
            split(chars@.take(i as int), separator) == texts(pieces@).push(current@),
        decreases chars.len() - i,
    {
        let c = chars[i];
        let ghost done = texts(pieces@);
        let ghost piece = current@;
        assert(chars@.take(i + 1).drop_last() =~= chars@.take(i as int));
        if c == separator {
            proof {
                lemma_texts_push(pieces@, current);
            }
            pieces.push(current);
            current = String::new();
            assert(split(chars@.take(i + 1), separator) =~= texts(pieces@).push(current@));
        } else {
            current.push(c);
            assert(done.push(piece).drop_last() =~= done);
            assert(split(chars@.take(i + 1), separator) =~= texts(pieces@).push(current@));
        }
        i += 1;
    }
    proof {
        lemma_texts_push(pieces@, current);
        assert(chars@.take(i as int) =~= text@);
    }
    pieces.push(current);
    pieces
}

/// A line without the carriage return that it ends with.
pub open spec fn without_cr(line: Seq<char>) -> Seq<char> {
    if line.len() > 0 && line.last() == '\r' {
        line.drop_last()
    } else {
        line
    }
}

/// The lines of a text. A line ends with a line feed, or with a carriage return and a line
/// feed; the last line may go without.
pub open spec fn lines(s: Seq<char>) -> Seq<Seq<char>> {
    let pieces = split(s, '\n');
    let ended = pieces.drop_last().map_values(|piece: Seq<char>| without_cr(piece));
    if pieces.last().len() == 0 {
        ended
    } else {
        ended.push(pieces.last())
    }
}

/// The line without the carriage return that it ends with.
fn strip_cr(line: &str) -> (stripped: String)
    ensures
        stripped@ == without_cr(line@),
{
    let chars = chars_of(line);
    let len = chars.len();
    if len > 0 && chars[len - 1] == '\r' {
        assert(chars@.subrange(0, len - 1) =~= chars@.drop_last());
        text_between(&chars, 0, len - 1)
    } else {
        line.to_owned()
    }
}

/// The lines of a text.
pub fn lines_of(text: &str) -> (found: Vec<String>)
    ensures
        texts(found@) == lines(text@),
{
    let pieces = split_text(text, '\n');
    let ghost all = split(text@, '\n');
    let ghost ended = all.drop_last().map_values(|piece: Seq<char>| without_cr(piece));
    proof {
        lemma_split_not_empty(text@, '\n');
        assert(texts(pieces@).len() == pieces@.len());
    }
    let last = pieces.len() - 1;
    let mut found: Vec<String> = Vec::new();
    let mut i: usize = 0;
    assert(texts(found@) =~= ended.take(0));
    while i < last
        invariant
            i <= last,
            last == pieces.len() - 1,
            all == texts(pieces@),
            ended == all.drop_last().map_values(|piece: Seq<char>| without_cr(piece)),
            texts(found@) == ended.take(i as int),
        decreases last - i,
    {
        let line = strip_cr(pieces[i].as_str());
        proof {
            lemma_texts_push(found@, line);
            assert(all[i as int] == pieces[i as int]@);
            assert(ended.take(i + 1) =~= ended.take(i as int).push(line@));
        }
        found.push(line);
        i += 1;
    }
    assert(ended.take(last as int) =~= ended);
    assert(all.last() == pieces[last as int]@);
    if !pieces[last].as_str().is_empty() {
        proof {
            lemma_texts_push(found@, pieces[last as int]);
        }
        found.push(pieces[last].clone());
        assert(texts(found@) =~= ended.push(all.last()));
    }
    found
}

/// The pieces that hold more than white space, without the white space around them.
pub open spec fn entries(pieces: Seq<Seq<char>>) -> Seq<Seq<char>> {
    pieces.map_values(|piece: Seq<char>| trimmed(piece)).filter(|piece: Seq<char>| piece.len() > 0)
}

/// One more piece adds one entry, or none if it is blank.
pub proof fn lemma_entries_push(pieces: Seq<Seq<char>>, piece: Seq<char>)
    ensures
        entries(pieces.push(piece)) == if trimmed(piece).len() > 0 {
            entries(pieces).push(trimmed(piece))
        } else {
            entries(pieces)
        },
{
    reveal(Seq::filter);
    let map = |piece: Seq<char>| trimmed(piece);
    assert(pieces.push(piece).map_values(map).drop_last() =~= pieces.map_values(map));
}

/// The entries of a comma separated list.
pub open spec fn list_of(s: Seq<char>) -> Seq<Seq<char>> {
    entries(split(s, ','))
}

/// The entries of a comma separated list, without the blank ones.
pub fn list_entries(text: &str) -> (found: Vec<String>)
    ensures
        texts(found@) == list_of(text@),
{
    let pieces = split_text(text, ',');
    let ghost all = texts(pieces@);
    let mut found: Vec<String> = Vec::new();
    let mut i: usize = 0;
    proof {
        reveal(Seq::filter);
        assert(texts(found@) =~= entries(all.take(0)));
    }
    while i < pieces.len()
        invariant
            i <= pieces.len(),
            all == texts(pieces@),
            texts(found@) == entries(all.take(i as int)),
        decreases pieces.len() - i,
    {
        let entry = trim(pieces[i].as_str());
        proof {
            lemma_texts_push(found@, entry);
            lemma_entries_push(all.take(i as int), all[i as int]);
            assert(all.take(i + 1) =~= all.take(i as int).push(all[i as int]));
        }
        if !entry.as_str().is_empty() {
            found.push(entry);
        }
        i += 1;
    }
    assert(all.take(i as int) =~= all);
    found
}

/// The text with a space in the place of each plus sign.
pub open spec fn plus_as_space(s: Seq<char>) -> Seq<char> {
    s.map_values(
        |c: char|
            if c == '+' {
                ' '
            } else {
                c
            },
    )
}

/// The text with a space in the place of each plus sign.
pub fn replace_plus(text: &str) -> (replaced: String)
    ensures
        replaced@ == plus_as_space(text@),
{
    let chars = chars_of(text);
    let mut replaced = String::new();
    let mut i: usize = 0;
    while i < chars.len()
        invariant
            i <= chars.len(),
            replaced@ == plus_as_space(chars@.take(i as int)),
        decreases chars.len() - i,
    {
        let c = chars[i];
        assert(plus_as_space(chars@.take(i + 1)) =~= plus_as_space(chars@.take(i as int)).push(
            if c == '+' {
                ' '
            } else {
                c
            },
        ));
        replaced.push(
            if c == '+' {
                ' '
            } else {
                c
            },
        );
        i += 1;
    }
    assert(chars@.take(i as int) =~= text@);
    replaced
}

/// Tells whether one text begins with another.
pub open spec fn begins_with(s: Seq<char>, start: Seq<char>) -> bool {
    start.len() <= s.len() && s.take(start.len() as int) == start
}

/// Tells whether one text begins with another.
pub fn starts_with(text: &str, start: &str) -> (begins: bool)
    ensures
        begins == begins_with(text@, start@),
{
    let chars = chars_of(text);
    let wanted = chars_of(start);
    if wanted.len() > chars.len() {
        return false;
    }
    let mut i: usize = 0;
    while i < wanted.len()
        invariant
            i <= wanted.len() <= chars.len(),
            chars@ == text@,
            wanted@ == start@,
            chars@.take(i as int) == wanted@.take(i as int),
        decreases wanted.len() - i,
    {
        if chars[i] != wanted[i] {
            assert(text@.take(start@.len() as int)[i as int] != start@[i as int]);
            return false;
        }
        assert(chars@.take(i + 1) =~= chars@.take(i as int).push(chars[i as int]));
        assert(wanted@.take(i + 1) =~= wanted@.take(i as int).push(wanted[i as int]));
        i += 1;
    }
    assert(wanted@.take(i as int) =~= start@);
    true
}

/// The decimal digit of a number below ten.
pub open spec fn digit(n: nat) -> char {
    (48 + n) as char
}

/// A number in decimal notation, without leading zeros.
pub open spec fn decimal(n: nat) -> Seq<char>
    decreases n,
{
    if n < 10 {
        seq![digit(n)]
    } else {
        decimal(n / 10).push(digit(n % 10))
    }
}

/// A number in decimal notation, with a minus sign in front if it is negative.
pub open spec fn signed_decimal(n: int) -> Seq<char> {
    if n < 0 {
        "-"@ + decimal((-n) as nat)
    } else {
        decimal(n as nat)
    }
}

/// The number in decimal notation.
pub fn decimal_text(n: u128) -> (text: String)
    ensures
        text@ == decimal(n as nat),
    decreases n,
{
    let last: u8 = (n % 10) as u8;
    if n < 10 {
        let mut text = String::new();
        text.push((48 + last) as char);
        assert(text@ =~= decimal(n as nat));
        text
    } else {
        let mut text = decimal_text(n / 10);
        text.push((48 + last) as char);
        text
    }
}

/// The signed number in decimal notation.
pub fn signed_decimal_text(n: i64) -> (text: String)
    ensures
        text@ == signed_decimal(n as int),
{
    if n < 0 {
        let size: i128 = -(n as i128);
        let mut text = "-".to_owned();
        text.append(decimal_text(size as u128).as_str());
        text
    } else {
        decimal_text(n as u128)
    }
}

/// The view of an outcome without a value.
pub open spec fn unit_outcome(result: Result<(), String>) -> Result<(), Seq<char>> {
    match result {
        Ok(_) => Ok(()),
        Err(error) => Err(error@),
    }
}

} // verus!
