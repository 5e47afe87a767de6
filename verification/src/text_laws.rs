//! Laws of the text functions.

use crate::text::{
    decimal, digit_char, first_line_feed, is_blank, is_white_space, joined, lines, replaced,
    trim_end, trim_start, trimmed,
};
use vstd::prelude::*;

verus! {

/// Whether a text stands, whole and in one piece, in another.
pub open spec fn shows(text: Seq<char>, part: Seq<char>) -> bool {
    exists|before: Seq<char>, after: Seq<char>| text == #[trigger] (before + part + after)
}

/// A text stands in itself, between any other texts, and in what shows a text
/// that shows it.
pub proof fn lemma_shows(text: Seq<char>, before: Seq<char>, part: Seq<char>, after: Seq<char>)
    requires
        text =~= before + part + after,
    ensures
        shows(text, part),
{
    assert(text == before + part + after);
}

pub proof fn lemma_shows_through(text: Seq<char>, middle: Seq<char>, part: Seq<char>)
    requires
        shows(text, middle),
        shows(middle, part),
    ensures
        shows(text, part),
{
    let (a, b) = choose|a: Seq<char>, b: Seq<char>| text == #[trigger] (a + middle + b);
    let (c, d) = choose|c: Seq<char>, d: Seq<char>| middle == #[trigger] (c + part + d);
    assert(text =~= (a + c) + part + (d + b));
}

// ---------------------------------------------------------------------------
// Trimming
// ---------------------------------------------------------------------------
proof fn lemma_trim_start(s: Seq<char>)
    ensures
        ({
            let k = s.len() - trim_start(s).len();
            &&& 0 <= k
            &&& trim_start(s) == s.skip(k)
            &&& forall|i: int| 0 <= i < k ==> is_white_space(#[trigger] s[i])
            &&& trim_start(s).len() > 0 ==> !is_white_space(trim_start(s)[0])
        }),
    decreases s.len(),
{
    if s.len() > 0 && is_white_space(s[0]) {
        let rest = s.drop_first();
        lemma_trim_start(rest);
        let k = s.len() - trim_start(s).len();
        assert(rest.skip(k - 1) =~= s.skip(k));
        assert forall|i: int| 0 <= i < k implies is_white_space(#[trigger] s[i]) by {
            if i > 0 {
                assert(s[i] == rest[i - 1]);
            }
        }
    } else {
        assert(s.skip(0) =~= s);
    }
}

proof fn lemma_trim_end(s: Seq<char>)
    ensures
        ({
            let n = trim_end(s).len() as int;
            &&& n <= s.len()
            &&& trim_end(s) == s.take(n)
            &&& forall|i: int| n <= i < s.len() ==> is_white_space(#[trigger] s[i])
            &&& n > 0 ==> !is_white_space(trim_end(s).last())
        }),
    decreases s.len(),
{
    if s.len() > 0 && is_white_space(s.last()) {
        let front = s.drop_last();
        lemma_trim_end(front);
        let n = trim_end(s).len() as int;
        assert(front.take(n) =~= s.take(n));
        assert forall|i: int| n <= i < s.len() implies is_white_space(#[trigger] s[i]) by {
            if i < front.len() {
                assert(s[i] == front[i]);
            }
        }
    } else {
        assert(s.take(s.len() as int) =~= s);
    }
}

/// Trimming takes the white space off both ends and nothing else: what is left
/// stands in the text in one piece, with only white space around it, and neither
/// starts nor ends with any.
pub proof fn law_trimming(s: Seq<char>)
    ensures
        exists|k: int|
            #![trigger s.skip(k)]
            {
                &&& 0 <= k
                &&& k + trimmed(s).len() <= s.len()
                &&& trimmed(s) == s.skip(k).take(trimmed(s).len() as int)
                &&& forall|i: int| 0 <= i < k ==> is_white_space(#[trigger] s[i])
                &&& forall|i: int|
                    k + trimmed(s).len() <= i < s.len() ==> is_white_space(#[trigger] s[i])
            },
        trimmed(s).len() > 0 ==> !is_white_space(trimmed(s)[0]) && !is_white_space(
            trimmed(s).last(),
        ),
        shows(s, trimmed(s)),
{
    lemma_trim_start(s);
    let start = trim_start(s);
    lemma_trim_end(start);
    let k = s.len() - start.len();
    let n = trimmed(s).len() as int;
    assert(trimmed(s) == s.skip(k).take(n));
    assert forall|i: int| k + n <= i < s.len() implies is_white_space(#[trigger] s[i]) by {
        assert(s[i] == start[i - k]);
    }
    lemma_shows(s, s.take(k), trimmed(s), s.skip(k + n));
}

/// A text is blank exactly where it holds nothing but white space.
pub proof fn law_blank_text(s: Seq<char>)
    ensures
        is_blank(s) <==> forall|i: int| 0 <= i < s.len() ==> is_white_space(#[trigger] s[i]),
{
    lemma_trim_start(s);
    let start = trim_start(s);
    lemma_trim_end(start);
    let k = s.len() - start.len();
    if is_blank(s) {
        assert forall|i: int| 0 <= i < s.len() implies is_white_space(#[trigger] s[i]) by {
            if i >= k {
                assert(s[i] == start[i - k]);
            }
        }
    } else {
        assert(start[0] == s[k]);
    }
}

/// A text without white space at its ends is trimmed already.
pub proof fn law_trimming_is_idempotent(s: Seq<char>)
    ensures
        trimmed(trimmed(s)) == trimmed(s),
{
    law_trimming(s);
}

// ---------------------------------------------------------------------------
// Joining
// ---------------------------------------------------------------------------
/// Joining one text more appends it behind the separator; a single text is
/// joined to itself, and no text to nothing.
pub proof fn law_joining(parts: Seq<Seq<char>>, part: Seq<char>, separator: Seq<char>)
    ensures
        joined(Seq::empty(), separator) == Seq::<char>::empty(),
        joined(seq![part], separator) == part,
        parts.len() > 0 ==> joined(parts.push(part), separator) == joined(parts, separator)
            + separator + part,
{
    assert(parts.push(part).drop_last() =~= parts);
}

/// Every joined text stands in the whole.
pub proof fn law_joined_texts_are_shown(parts: Seq<Seq<char>>, separator: Seq<char>, i: int)
    requires
        0 <= i < parts.len(),
    ensures
        shows(joined(parts, separator), parts[i]),
    decreases parts.len(),
{
    let whole = joined(parts, separator);
    if parts.len() == 1 {
        lemma_shows(whole, Seq::empty(), parts[i], Seq::empty());
    } else if i == parts.len() - 1 {
        let front = joined(parts.drop_last(), separator);
        lemma_shows(whole, front + separator, parts[i], Seq::empty());
    } else {
        let front = parts.drop_last();
        law_joined_texts_are_shown(front, separator, i);
        lemma_shows(whole, Seq::empty(), joined(front, separator), separator + parts.last());
        lemma_shows_through(whole, joined(front, separator), parts[i]);
    }
}

// ---------------------------------------------------------------------------
// Lines
// ---------------------------------------------------------------------------
proof fn lemma_first_line_feed(line: Seq<char>, rest: Seq<char>)
    requires
        !line.contains('\n'),
        rest.len() > 0 ==> rest[0] == '\n',
    ensures
        first_line_feed(line + rest) == line.len(),
    decreases line.len(),
{
    let s = line + rest;
    if line.len() > 0 {
        let tail = line.drop_first();
        assert(line.contains(line[0]));
        assert forall|c: char| tail.contains(c) implies line.contains(c) by {
            let i = tail.index_of(c);
            assert(line[i + 1] == c);
        }
        lemma_first_line_feed(tail, rest);
        assert(s.drop_first() =~= tail + rest);
        assert(s[0] == line[0]);
    } else if rest.len() > 0 {
        assert(s[0] == '\n');
    }
}

/// A line feed ends a line, and a carriage return in front of it is no part of
/// the line. A text without line feeds is one line, or none where it is empty.
pub proof fn law_lines_end_at_line_feeds(line: Seq<char>, rest: Seq<char>)
    requires
        !line.contains('\n'),
    ensures
        lines(Seq::empty()).len() == 0,
        line.len() > 0 ==> lines(line) == seq![line],
        line.len() == 0 || line.last() != '\r' ==> lines(line + seq!['\n'] + rest) == seq![line]
            + lines(rest),
        lines(line + seq!['\r', '\n'] + rest) == seq![line] + lines(rest),
{
    lemma_first_line_feed(line, Seq::empty());
    assert(line + Seq::<char>::empty() =~= line);
    let s = line + seq!['\n'] + rest;
    assert(s =~= line + (seq!['\n'] + rest));
    lemma_first_line_feed(line, seq!['\n'] + rest);
    assert(s.take(line.len() as int) =~= line);
    assert(s.skip(line.len() as int + 1) =~= rest);
    let ended = line.push('\r');
    if ended.contains('\n') {
        let i = ended.index_of('\n');
        assert(line[i] == '\n');
    }
    let t = line + seq!['\r', '\n'] + rest;
    assert(t =~= ended + (seq!['\n'] + rest));
    lemma_first_line_feed(ended, seq!['\n'] + rest);
    assert(t.take(ended.len() as int) =~= ended);
    assert(t.skip(ended.len() as int + 1) =~= rest);
    assert(ended.drop_last() =~= line);
}

// ---------------------------------------------------------------------------
// Numbers
// ---------------------------------------------------------------------------
/// The number that a row of decimal digits denotes.
pub open spec fn numeral_value(s: Seq<char>) -> int
    decreases s.len(),
{
    if s.len() == 0 {
        0
    } else {
        10 * numeral_value(s.drop_last()) + (s.last() as int - '0' as int)
    }
}

/// A number is written in decimal digits that denote it, without leading zeros.
pub proof fn law_decimal_denotes_its_number(n: nat)
    ensures
        numeral_value(decimal(n)) == n,
        forall|i: int| 0 <= i < decimal(n).len() ==> '0' <= #[trigger] decimal(n)[i] <= '9',
        decimal(n).len() > 0,
        n > 0 ==> decimal(n)[0] != '0',
        n == 0 ==> decimal(n).len() == 1,
    decreases n,
{
    if n < 10 {
        let s = seq![digit_char(n)];
        assert(s.drop_last() =~= Seq::empty());
        assert(numeral_value(s.drop_last()) == 0);
    } else {
        law_decimal_denotes_its_number(n / 10);
        let front = decimal(n / 10);
        let s = front.push(digit_char(n % 10));
        assert(s.drop_last() =~= front);
        assert forall|i: int| 0 <= i < s.len() implies '0' <= #[trigger] s[i] <= '9' by {
            if i < front.len() {
                assert(s[i] == front[i]);
            }
        }
        assert(s[0] == front[0]);
    }
}

/// Different numbers are written differently.
pub proof fn law_decimals_differ(m: nat, n: nat)
    requires
        decimal(m) == decimal(n),
    ensures
        m == n,
{
    law_decimal_denotes_its_number(m);
    law_decimal_denotes_its_number(n);
}

// ---------------------------------------------------------------------------
// Replacing
// ---------------------------------------------------------------------------
/// A stretch that does not hold the first character of the pattern stays as it
/// is, wherever it stands.
pub proof fn law_replacing_keeps_the_rest(
    head: Seq<char>,
    s: Seq<char>,
    from: Seq<char>,
    to: Seq<char>,
)
    requires
        from.len() > 0,
        !head.contains(from[0]),
    ensures
        replaced(head + s, from, to) == head + replaced(s, from, to),
    decreases head.len(),
{
    if head.len() == 0 {
        assert(head + s =~= s);
        assert(head + replaced(s, from, to) =~= replaced(s, from, to));
    } else {
        let whole = head + s;
        let rest = head.drop_first();
        assert(head.contains(head[0]));
        assert forall|c: char| rest.contains(c) implies head.contains(c) by {
            let i = rest.index_of(c);
            assert(head[i + 1] == c);
        }
        law_replacing_keeps_the_rest(rest, s, from, to);
        assert(whole.drop_first() =~= rest + s);
        if whole.len() < from.len() {
            assert(replaced(s, from, to) == s);
        } else {
            assert(whole.take(from.len() as int)[0] == head[0]);
            assert(seq![head[0]] + (rest + replaced(s, from, to)) =~= head + replaced(s, from, to));
        }
    }
}

/// An occurrence of the pattern gives way to the replacement.
pub proof fn law_replacing_takes_the_pattern(s: Seq<char>, from: Seq<char>, to: Seq<char>)
    requires
        from.len() > 0,
    ensures
        replaced(from + s, from, to) == to + replaced(s, from, to),
{
    let whole = from + s;
    assert(whole.take(from.len() as int) =~= from);
    assert(whole.skip(from.len() as int) =~= s);
}

/// A text without the pattern's first character is left alone.
pub proof fn law_replacing_without_pattern(s: Seq<char>, from: Seq<char>, to: Seq<char>)
    requires
        from.len() > 0,
        !s.contains(from[0]),
    ensures
        replaced(s, from, to) == s,
{
    law_replacing_keeps_the_rest(s, Seq::empty(), from, to);
    assert(s + Seq::<char>::empty() =~= s);
    assert(replaced(Seq::empty(), from, to) =~= Seq::empty());
    assert(s + replaced(Seq::empty(), from, to) =~= s);
}

} // verus!
