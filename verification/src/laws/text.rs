//! What holds of trimming, splitting and decimal notation.

use crate::text::{
    begins_with, decimal, digit, entries, is_white, lemma_entries_push, lemma_split_not_empty,
    lines, list_of, plus_as_space, signed_decimal, split, trimmed, trimmed_end, trimmed_start,
    without_cr,
};
use vstd::prelude::*;

verus! {

/// What is cut off the start of a text is white space, and what is left starts without any.
proof fn lemma_trimmed_start(s: Seq<char>) -> (cut: int)
    ensures
        0 <= cut <= s.len(),
        trimmed_start(s) == s.skip(cut),
        forall|i: int| 0 <= i < cut ==> is_white(#[trigger] s[i]),
        trimmed_start(s).len() > 0 ==> !is_white(trimmed_start(s)[0]),
    decreases s.len(),
{
    if s.len() > 0 && is_white(s[0]) {
        let rest = s.skip(1);
        let cut = lemma_trimmed_start(rest);
        assert(rest.skip(cut) =~= s.skip(cut + 1));
        assert forall|i: int| 0 <= i < cut + 1 implies is_white(#[trigger] s[i]) by {
            if i > 0 {
                assert(is_white(rest[i - 1]));
            }
        }
        cut + 1
    } else {
        assert(s.skip(0) =~= s);
        0
    }
}

/// What is cut off the end of a text is white space, and what is left ends without any.
proof fn lemma_trimmed_end(s: Seq<char>) -> (kept: int)
    ensures
        0 <= kept <= s.len(),
        trimmed_end(s) == s.take(kept),
        forall|i: int| kept <= i < s.len() ==> is_white(#[trigger] s[i]),
        trimmed_end(s).len() > 0 ==> !is_white(trimmed_end(s).last()),
    decreases s.len(),
{
    if s.len() > 0 && is_white(s.last()) {
        let rest = s.drop_last();
        let kept = lemma_trimmed_end(rest);
        assert(rest.take(kept) =~= s.take(kept));
        assert forall|i: int| kept <= i < s.len() implies is_white(#[trigger] s[i]) by {
            if i < rest.len() {
                assert(is_white(rest[i]));
            }
        }
        kept
    } else {
        assert(s.take(s.len() as int) =~= s);
        s.len() as int
    }
}

/// Trimming cuts white space off both ends of a text and nothing else, and what is left neither
/// starts nor ends with any.
pub proof fn law_trim_cuts_white_space(s: Seq<char>)
    ensures
        exists|from: int, to: int|
            #![trigger s.subrange(from, to)]
            {
                &&& 0 <= from <= to <= s.len()
                &&& trimmed(s) == s.subrange(from, to)
                &&& forall|i: int| 0 <= i < from ==> is_white(#[trigger] s[i])
                &&& forall|i: int| to <= i < s.len() ==> is_white(#[trigger] s[i])
            },
        trimmed(s).len() > 0 ==> !is_white(trimmed(s)[0]) && !is_white(trimmed(s).last()),
{
    let from = lemma_trimmed_start(s);
    let rest = trimmed_start(s);
    let kept = lemma_trimmed_end(rest);
    let to = from + kept;
    assert(trimmed(s) =~= s.subrange(from, to));
    assert forall|i: int| to <= i < s.len() implies is_white(#[trigger] s[i]) by {
        assert(is_white(rest[i - from]));
    }
}

/// A text that neither starts nor ends with white space is left as it is.
pub proof fn law_trim_keeps_trimmed(s: Seq<char>)
    requires
        s.len() > 0 ==> !is_white(s[0]) && !is_white(s.last()),
    ensures
        trimmed(s) == s,
{
}

/// Trimming twice is the same as trimming once.
pub proof fn law_trim_is_idempotent(s: Seq<char>)
    ensures
        trimmed(trimmed(s)) == trimmed(s),
{
    law_trim_cuts_white_space(s);
    law_trim_keeps_trimmed(trimmed(s));
}

/// White space at the end of a text makes no difference once the text is trimmed.
pub proof fn law_trim_ignores_end(s: Seq<char>, c: char)
    requires
        is_white(c),
    ensures
        trimmed(s.push(c)) == trimmed(s),
    decreases s.len(),
{
    if s.len() > 0 && is_white(s[0]) {
        assert(s.push(c).skip(1) =~= s.skip(1).push(c));
        law_trim_ignores_end(s.skip(1), c);
    } else if s.len() == 0 {
        assert(s.push(c).skip(1) =~= s);
    } else {
        assert(s.push(c).drop_last() =~= s);
    }
}

/// The pieces, one after the other, with the separator between them.
pub open spec fn joined_by(pieces: Seq<Seq<char>>, separator: char) -> Seq<char>
    decreases pieces.len(),
{
    if pieces.len() == 0 {
        Seq::empty()
    } else if pieces.len() == 1 {
        pieces[0]
    } else {
        joined_by(pieces.drop_last(), separator).push(separator) + pieces.last()
    }
}

/// Splitting loses nothing: the pieces with the separator between them are the text again, and
/// no piece holds the separator.
pub proof fn law_split_loses_nothing(s: Seq<char>, separator: char)
    ensures
        joined_by(split(s, separator), separator) == s,
        forall|i: int|
            0 <= i < split(s, separator).len() ==> !(#[trigger] split(s, separator)[i]).contains(
                separator,
            ),
    decreases s.len(),
{
    if s.len() > 0 {
        let shorter = s.drop_last();
        let pieces = split(shorter, separator);
        let all = split(s, separator);
        law_split_loses_nothing(shorter, separator);
        lemma_split_not_empty(shorter, separator);
        if s.last() == separator {
            assert(all.drop_last() =~= pieces);
            assert(joined_by(all, separator) =~= s);
        } else {
            assert(all.drop_last() =~= pieces.drop_last());
            assert(joined_by(all, separator) =~= joined_by(pieces, separator).push(s.last()));
            assert(joined_by(all, separator) =~= s);
            assert forall|i: int| 0 <= i < all.len() implies !(#[trigger] all[i]).contains(
                separator,
            ) by {
                if i < pieces.len() - 1 {
                    assert(all[i] == pieces[i]);
                } else {
                    assert(all[i] == pieces.last().push(s.last()));
                    assert(!pieces[pieces.len() - 1].contains(separator));
                    assert forall|j: int| 0 <= j < all[i].len() implies all[i][j]
                        != separator by {
                        if j < pieces.last().len() {
                            assert(pieces.last()[j] == all[i][j]);
                            assert(pieces.last().contains(all[i][j]));
                        }
                    }
                }
            }
        }
    }
}

/// Splitting two texts with a separator between them is splitting each of them.
pub proof fn law_split_of_joined(a: Seq<char>, b: Seq<char>, separator: char)
    ensures
        split(a.push(separator) + b, separator) == split(a, separator) + split(b, separator),
    decreases b.len(),
{
    let whole = a.push(separator) + b;
    lemma_split_not_empty(b, separator);
    if b.len() == 0 {
        assert(whole =~= a.push(separator));
        assert(whole.drop_last() =~= a);
        assert(split(whole, separator) =~= split(a, separator) + split(b, separator));
    } else {
        law_split_of_joined(a, b.drop_last(), separator);
        lemma_split_not_empty(b.drop_last(), separator);
        assert(whole.drop_last() =~= a.push(separator) + b.drop_last());
        assert(whole.last() == b.last());
        assert(split(whole, separator) =~= split(a, separator) + split(b, separator));
    }
}

/// The entries of a list are not blank and have no white space around them.
pub proof fn law_entries_are_trimmed(s: Seq<char>)
    ensures
        forall|i: int|
            0 <= i < list_of(s).len() ==> {
                let entry = #[trigger] list_of(s)[i];
                entry.len() > 0 && trimmed(entry) == entry
            },
{
    lemma_entries_are_trimmed(split(s, ','));
}

/// The entries of pieces are not blank and have no white space around them.
proof fn lemma_entries_are_trimmed(pieces: Seq<Seq<char>>)
    ensures
        forall|i: int|
            0 <= i < entries(pieces).len() ==> {
                let entry = #[trigger] entries(pieces)[i];
                entry.len() > 0 && trimmed(entry) == entry
            },
    decreases pieces.len(),
{
    reveal(Seq::filter);
    if pieces.len() > 0 {
        let last = pieces.last();
        lemma_entries_are_trimmed(pieces.drop_last());
        assert(pieces.drop_last().push(last) =~= pieces);
        lemma_entries_push(pieces.drop_last(), last);
        law_trim_is_idempotent(last);
    }
}

/// The number that a sequence of digits stands for.
pub open spec fn value_of(digits: Seq<char>) -> nat
    decreases digits.len(),
{
    if digits.len() == 0 {
        0
    } else {
        (value_of(digits.drop_last()) * 10 + (digits.last() as nat - 48)) as nat
    }
}

/// The decimal notation of a number stands for the number, and so no two numbers have the same.
pub proof fn law_decimal_stands_for_number(n: nat)
    ensures
        value_of(decimal(n)) == n,
        decimal(n).len() > 0,
        forall|i: int| 0 <= i < decimal(n).len() ==> '0' <= #[trigger] decimal(n)[i] <= '9',
    decreases n,
{
    let last = digit(n % 10);
    assert(last as nat == 48 + n % 10);
    if n < 10 {
        assert(decimal(n) =~= seq![last]);
        assert(decimal(n).drop_last() =~= Seq::empty());
        assert(value_of(decimal(n).drop_last()) == 0);
    } else {
        law_decimal_stands_for_number(n / 10);
        assert(decimal(n).drop_last() =~= decimal(n / 10));
    }
}

/// A text without the separator is one piece.
pub proof fn law_split_of_one(s: Seq<char>, separator: char)
    requires
        !s.contains(separator),
    ensures
        split(s, separator) == seq![s],
    decreases s.len(),
{
    if s.len() == 0 {
        assert(s =~= Seq::empty());
        assert(split(s, separator) =~= seq![s]);
    } else {
        let shorter = s.drop_last();
        assert(s.contains(s[s.len() - 1]));
        assert forall|i: int| 0 <= i < shorter.len() implies shorter[i] != separator by {
            assert(s.contains(s[i]));
        }
        law_split_of_one(shorter, separator);
        assert(split(s, separator) =~= seq![shorter.push(s.last())]);
        assert(shorter.push(s.last()) =~= s);
    }
}

/// A text without a line feed is one line, or none if it is empty.
pub proof fn law_last_line(line: Seq<char>)
    requires
        !line.contains('\n'),
    ensures
        line.len() > 0 ==> lines(line) == seq![line],
        line.len() == 0 ==> lines(line).len() == 0,
{
    law_split_of_one(line, '\n');
    let pieces = split(line, '\n');
    assert(pieces.drop_last() =~= Seq::empty());
    if line.len() > 0 {
        assert(lines(line) =~= seq![line]);
    }
}

/// A line ends with a line feed, or with a carriage return and a line feed, which are not part
/// of it; the other lines are those of the rest of the text.
pub proof fn law_first_line(line: Seq<char>, rest: Seq<char>)
    requires
        !line.contains('\n'),
    ensures
        line.len() == 0 || line.last() != '\r' ==> lines(line.push('\n') + rest) == seq![line]
            + lines(rest),
        lines(line.push('\r').push('\n') + rest) == seq![line] + lines(rest),
{
    let strip = |piece: Seq<char>| without_cr(piece);
    lemma_split_not_empty(rest, '\n');
    law_split_of_one(line, '\n');
    law_split_of_joined(line, rest, '\n');
    let pieces = split(line.push('\n') + rest, '\n');
    assert(pieces.last() == split(rest, '\n').last());
    assert(pieces.drop_last() =~= seq![line] + split(rest, '\n').drop_last());
    if line.len() == 0 || line.last() != '\r' {
        assert(lines(line.push('\n') + rest) =~= seq![line] + lines(rest));
    }
    let longer = line.push('\r');
    assert forall|i: int| 0 <= i < longer.len() implies longer[i] != '\n' by {
        if i < line.len() {
            assert(line.contains(line[i]));
        }
    }
    law_split_of_one(longer, '\n');
    law_split_of_joined(longer, rest, '\n');
    let more = split(longer.push('\n') + rest, '\n');
    assert(more.last() == split(rest, '\n').last());
    assert(more.drop_last() =~= seq![longer] + split(rest, '\n').drop_last());
    assert(longer.drop_last() =~= line);
    assert(without_cr(longer) == line);
    assert(lines(longer.push('\n') + rest) =~= seq![line] + lines(rest));
}

/// Pieces one after the other have the entries of the one and then those of the other.
proof fn lemma_entries_add(a: Seq<Seq<char>>, b: Seq<Seq<char>>)
    ensures
        entries(a + b) == entries(a) + entries(b),
    decreases b.len(),
{
    reveal(Seq::filter);
    if b.len() == 0 {
        assert(a + b =~= a);
        assert(entries(a + b) =~= entries(a) + entries(b));
    } else {
        let fewer = b.drop_last();
        lemma_entries_add(a, fewer);
        assert(a + b =~= (a + fewer).push(b.last()));
        assert(fewer.push(b.last()) =~= b);
        lemma_entries_push(a + fewer, b.last());
        lemma_entries_push(fewer, b.last());
        assert(entries(a + b) =~= entries(a) + entries(b));
    }
}

/// A list without a comma has one entry, which is the list without the white space around it,
/// or none if it is blank.
pub proof fn law_list_of_one(s: Seq<char>)
    requires
        !s.contains(','),
    ensures
        trimmed(s).len() > 0 ==> list_of(s) == seq![trimmed(s)],
        trimmed(s).len() == 0 ==> list_of(s).len() == 0,
{
    reveal(Seq::filter);
    law_split_of_one(s, ',');
    let none = Seq::<Seq<char>>::empty();
    assert(split(s, ',') =~= none.push(s));
    lemma_entries_push(none, s);
    assert(entries(none) =~= none);
    if trimmed(s).len() > 0 {
        assert(list_of(s) =~= seq![trimmed(s)]);
    }
}

/// Two lists with a comma between them have the entries of the one and then those of the other.
pub proof fn law_list_of_joined(a: Seq<char>, b: Seq<char>)
    ensures
        list_of(a.push(',') + b) == list_of(a) + list_of(b),
{
    law_split_of_joined(a, b, ',');
    lemma_entries_add(split(a, ','), split(b, ','));
}

/// Only plus signs are replaced, each by one space.
pub proof fn law_plus_becomes_space(s: Seq<char>)
    ensures
        plus_as_space(s).len() == s.len(),
        forall|i: int|
            0 <= i < s.len() ==> #[trigger] plus_as_space(s)[i] == if s[i] == '+' {
                ' '
            } else {
                s[i]
            },
{
}

/// A text begins with another exactly if it is the other with something, or nothing, behind it.
pub proof fn law_begins_with(s: Seq<char>, start: Seq<char>)
    ensures
        begins_with(s, start) <==> exists|rest: Seq<char>| s == #[trigger] (start + rest),
{
    if begins_with(s, start) {
        assert(s =~= start + s.skip(start.len() as int));
    }
    if exists|rest: Seq<char>| s == #[trigger] (start + rest) {
        let rest = choose|rest: Seq<char>| s == #[trigger] (start + rest);
        assert(s.take(start.len() as int) =~= start);
    }
}

/// Decimal notation has no leading zero, but for zero itself, which is one digit.
pub proof fn law_decimal_has_no_leading_zero(n: nat)
    ensures
        n > 0 ==> decimal(n)[0] != '0',
        n < 10 ==> decimal(n).len() == 1,
    decreases n,
{
    if n >= 10 {
        law_decimal_stands_for_number(n / 10);
        law_decimal_has_no_leading_zero(n / 10);
        assert(decimal(n)[0] == decimal(n / 10)[0]);
    } else {
        assert(decimal(n)[0] as nat == 48 + n);
    }
}

/// A negative number has a minus sign in front of the notation of its amount; the others are
/// written as they are.
pub proof fn law_signed_decimal(n: int)
    ensures
        n >= 0 ==> value_of(signed_decimal(n)) == n && signed_decimal(n)[0] != '-',
        n < 0 ==> signed_decimal(n)[0] == '-' && value_of(signed_decimal(n).skip(1)) == -n
            && signed_decimal(n).skip(1)[0] != '0',
{
    reveal_strlit("-");
    if n >= 0 {
        law_decimal_stands_for_number(n as nat);
    } else {
        law_decimal_stands_for_number((-n) as nat);
        law_decimal_has_no_leading_zero((-n) as nat);
        assert(signed_decimal(n).skip(1) =~= decimal((-n) as nat));
    }
}

} // verus!
