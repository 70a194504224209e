//! What holds of the operations on text.
use crate::text::{
    after_last_slash, decimal, digit, ends_token, has_suffix, is_white, lemma_pieces_nonempty,
    lower, occurs_at, pieces, replaced, token_at, trim_end, trim_end_of, trim_start, trimmed,
};
use vstd::prelude::*;

verus! {

/// White space is what Unicode calls white space: the control characters from
/// the tabulator to the carriage return, the space, the next line, and the
/// spaces and separators of the blocks further on.
pub proof fn law_white_space(c: char)
    ensures
        is_white(c) <==> (c == '\t' || c == '\n' || c == '\u{b}' || c == '\u{c}' || c == '\r' || c
            == ' ' || c == '\u{85}' || c == '\u{a0}' || c == '\u{1680}' || ('\u{2000}' <= c && c
            <= '\u{200a}') || c == '\u{2028}' || c == '\u{2029}' || c == '\u{202f}' || c
            == '\u{205f}' || c == '\u{3000}'),
{
}

proof fn lemma_trim_start(s: Seq<char>) -> (n: int)
    ensures
        0 <= n <= s.len(),
        trim_start(s) == s.subrange(n, s.len() as int),
        forall|k: int| 0 <= k < n ==> is_white(#[trigger] s[k]),
        n < s.len() ==> !is_white(s[n]),
    decreases s.len(),
{
    if s.len() > 0 && is_white(s[0]) {
        let m = lemma_trim_start(s.drop_first());
        assert(s.drop_first().subrange(m, s.len() - 1) =~= s.subrange(m + 1, s.len() as int));
        assert forall|k: int| 0 <= k < m + 1 implies is_white(#[trigger] s[k]) by {
            if k > 0 {
                assert(s.drop_first()[k - 1] == s[k]);
            }
        }
        m + 1
    } else {
        assert(s.subrange(0, s.len() as int) =~= s);
        0
    }
}

proof fn lemma_trim_end(s: Seq<char>) -> (n: int)
    ensures
        0 <= n <= s.len(),
        trim_end(s) == s.subrange(0, n),
        forall|k: int| n <= k < s.len() ==> is_white(#[trigger] s[k]),
        n > 0 ==> !is_white(s[n - 1]),
    decreases s.len(),
{
    if s.len() > 0 && is_white(s.last()) {
        let m = lemma_trim_end(s.drop_last());
        assert(s.drop_last().subrange(0, m) =~= s.subrange(0, m));
        assert forall|k: int| m <= k < s.len() implies is_white(#[trigger] s[k]) by {
            if k < s.len() - 1 {
                assert(s.drop_last()[k] == s[k]);
            }
        }
        m
    } else {
        assert(s.subrange(0, s.len() as int) =~= s);
        s.len() as int
    }
}

/// `t` is `s` without the white space around it.
pub open spec fn bare_of(s: Seq<char>, t: Seq<char>) -> bool {
    &&& t.len() > 0 ==> !is_white(t[0]) && !is_white(t.last())
    &&& exists|from: int, to: int|
        {
            &&& 0 <= from <= to <= s.len()
            &&& t == #[trigger] s.subrange(from, to)
            &&& forall|k: int| 0 <= k < from ==> is_white(#[trigger] s[k])
            &&& forall|k: int| to <= k < s.len() ==> is_white(#[trigger] s[k])
        }
}

/// Trimming takes away white space, all of it at both ends, and nothing else.
pub proof fn law_trimmed(s: Seq<char>)
    ensures
        bare_of(s, trimmed(s)),
        trimmed(s).len() == 0 <==> forall|k: int| 0 <= k < s.len() ==> is_white(#[trigger] s[k]),
{
    let n = lemma_trim_start(s);
    let t = trim_start(s);
    let m = lemma_trim_end(t);
    assert(t.subrange(0, m) =~= s.subrange(n, n + m));
    assert forall|k: int| n + m <= k < s.len() implies is_white(#[trigger] s[k]) by {
        assert(t[k - n] == s[k]);
    }
    if m > 0 {
        assert(trimmed(s)[0] == s[n]);
        assert(trimmed(s).last() == t[m - 1]);
    }
    if trimmed(s).len() == 0 {
        assert forall|k: int| 0 <= k < s.len() implies is_white(#[trigger] s[k]) by {}
    }
}

/// Trimming the characters `c` at the end takes away all of them there, and
/// nothing else.
pub proof fn law_trim_end_of(s: Seq<char>, c: char)
    ensures
        trim_end_of(s, c).len() > 0 ==> trim_end_of(s, c).last() != c,
        trim_end_of(s, c).len() <= s.len(),
        trim_end_of(s, c) == s.take(trim_end_of(s, c).len() as int),
        forall|k: int| trim_end_of(s, c).len() <= k < s.len() ==> #[trigger] s[k] == c,
    decreases s.len(),
{
    if s.len() > 0 && s.last() == c {
        let rest = s.drop_last();
        law_trim_end_of(rest, c);
        let n = trim_end_of(rest, c).len() as int;
        assert(rest.take(n) =~= s.take(n));
        assert forall|k: int| n <= k < s.len() implies #[trigger] s[k] == c by {
            if k < s.len() - 1 {
                assert(rest[k] == s[k]);
            }
        }
    } else {
        assert(s.take(s.len() as int) =~= s);
    }
}

/// A text in which the pattern stands first behind `head` keeps `head`, has the
/// replacement in place of the pattern, and goes on with the rest in which the
/// pattern is replaced too.
pub proof fn law_replaced(head: Seq<char>, pattern: Seq<char>, rest: Seq<char>, with: Seq<char>)
    requires
        pattern.len() > 0,
        forall|i: int|
            0 <= i < head.len() ==> !(#[trigger] occurs_at(head + pattern + rest, pattern, i)),
    ensures
        replaced(head + pattern + rest, pattern, with) == head + with + replaced(
            rest,
            pattern,
            with,
        ),
    decreases head.len(),
{
    let s = head + pattern + rest;
    if head.len() == 0 {
        assert(s.subrange(0, pattern.len() as int) =~= pattern);
        assert(occurs_at(s, pattern, 0));
        assert(s.skip(pattern.len() as int) =~= rest);
        assert(head + with =~= with);
    } else {
        assert(!occurs_at(s, pattern, 0));
        let tail = head.drop_first();
        assert(s.drop_first() =~= tail + pattern + rest);
        assert forall|i: int| 0 <= i < tail.len() implies !(#[trigger] occurs_at(
            tail + pattern + rest,
            pattern,
            i,
        )) by {
            if occurs_at(tail + pattern + rest, pattern, i) {
                assert(s.subrange(i + 1, i + 1 + pattern.len()) =~= (tail + pattern
                    + rest).subrange(i, i + pattern.len()));
                assert(occurs_at(s, pattern, i + 1));
            }
        }
        law_replaced(tail, pattern, rest, with);
        assert(seq![s[0]] + (tail + with + replaced(rest, pattern, with)) =~= head + with
            + replaced(rest, pattern, with));
    }
}

/// A text in which the pattern does not stand is not changed.
pub proof fn law_replaced_absent(s: Seq<char>, pattern: Seq<char>, with: Seq<char>)
    requires
        forall|i: int| !(#[trigger] occurs_at(s, pattern, i)),
    ensures
        replaced(s, pattern, with) == s,
    decreases s.len(),
{
    if pattern.len() > 0 && s.len() >= pattern.len() {
        assert(!occurs_at(s, pattern, 0));
        let rest = s.drop_first();
        assert forall|i: int| !(#[trigger] occurs_at(rest, pattern, i)) by {
            if occurs_at(rest, pattern, i) {
                assert(s.subrange(i + 1, i + 1 + pattern.len()) =~= rest.subrange(
                    i,
                    i + pattern.len(),
                ));
                assert(occurs_at(s, pattern, i + 1));
            }
        }
        law_replaced_absent(rest, pattern, with);
        assert(seq![s[0]] + rest =~= s);
    }
}

/// What a pattern is at a position: every character of it stands there.
pub proof fn law_occurs_at(s: Seq<char>, pattern: Seq<char>, i: int)
    ensures
        occurs_at(s, pattern, i) <==> 0 <= i && i + pattern.len() <= s.len() && forall|k: int|
            0 <= k < pattern.len() ==> s[i + k] == #[trigger] pattern[k],
        has_suffix(s, pattern) <==> pattern.len() <= s.len() && forall|k: int|
            0 <= k < pattern.len() ==> s[s.len() - pattern.len() + k] == #[trigger] pattern[k],
{
    lemma_occurs(s, pattern, i);
    lemma_occurs(s, pattern, s.len() - pattern.len());
}

proof fn lemma_occurs(s: Seq<char>, pattern: Seq<char>, i: int)
    ensures
        occurs_at(s, pattern, i) <==> 0 <= i && i + pattern.len() <= s.len() && forall|k: int|
            0 <= k < pattern.len() ==> s[i + k] == #[trigger] pattern[k],
{
    if 0 <= i && i + pattern.len() <= s.len() {
        let part = s.subrange(i, i + pattern.len());
        if occurs_at(s, pattern, i) {
            assert forall|k: int| 0 <= k < pattern.len() implies s[i + k]
                == #[trigger] pattern[k] by {
                assert(part[k] == s[i + k]);
            }
        }
        if forall|k: int| 0 <= k < pattern.len() ==> s[i + k] == #[trigger] pattern[k] {
            assert(part =~= pattern);
        }
    }
}

/// The number that a text of digits stands for.
pub open spec fn value(digits: Seq<char>) -> int
    decreases digits.len(),
{
    if digits.len() == 0 {
        0
    } else {
        10 * value(digits.drop_last()) + (digits.last() as u32 - '0' as u32)
    }
}

/// A written number is made of digits, stands for that number, and has no zero
/// in front unless it is zero.
pub proof fn law_decimal(n: nat)
    ensures
        value(decimal(n)) == n,
        forall|k: int|
            0 <= k < decimal(n).len() ==> '0' <= #[trigger] decimal(n)[k] && decimal(n)[k] <= '9',
        n > 0 ==> decimal(n)[0] != '0',
        n == 0 ==> decimal(n) == seq!['0'],
    decreases n,
{
    assert('0' as u32 == 48);
    assert(digit(n % 10) as u32 == 48 + n % 10);
    crate::text::lemma_decimal_digits(n);
    crate::text::lemma_decimal_len(n);
    if n >= 10 {
        law_decimal(n / 10);
        crate::text::lemma_decimal_len(n / 10);
        assert(decimal(n).drop_last() =~= decimal(n / 10));
        assert(decimal(n)[0] == decimal(n / 10)[0]);
    } else {
        assert(digit(n) as u32 == 48 + n);
        assert(seq![digit(n)].drop_last() =~= Seq::empty());
        reveal_with_fuel(value, 2);
        assert(value(seq![digit(n)]) == n);
        if n == 0 {
            assert(digit(0) == '0');
        }
    }
}

/// What stands behind the last slash is the end of the text, holds no slash, and
/// has one in front of it unless it is the whole text.
pub proof fn law_after_last_slash(s: Seq<char>)
    ensures
        after_last_slash(s).len() <= s.len(),
        after_last_slash(s) == s.skip(s.len() - after_last_slash(s).len()),
        forall|k: int|
            0 <= k < after_last_slash(s).len() ==> #[trigger] after_last_slash(s)[k] != '/',
        after_last_slash(s).len() < s.len() ==> s[s.len() - after_last_slash(s).len() - 1] == '/',
    decreases s.len(),
{
    if s.len() == 0 || s.last() == '/' {
        assert(s.skip(s.len() as int) =~= Seq::empty());
    } else {
        let rest = s.drop_last();
        law_after_last_slash(rest);
        let tail = after_last_slash(rest);
        assert(tail.push(s.last()) =~= s.skip(s.len() - (tail.len() + 1)));
    }
}

/// Lower case changes the capital ASCII letters, each to its small one, and no
/// other character.
pub proof fn law_lower(s: Seq<char>)
    ensures
        lower(s).len() == s.len(),
        forall|k: int|
            0 <= k < s.len() ==> (if 'A' <= #[trigger] s[k] && s[k] <= 'Z' {
                lower(s)[k] as u32 == s[k] as u32 + 32
            } else {
                lower(s)[k] == s[k]
            }),
{
}

/// The pieces in a row, with `c` between them.
pub open spec fn rejoined(list: Seq<Seq<char>>, c: char) -> Seq<char>
    decreases list.len(),
{
    if list.len() == 0 {
        Seq::empty()
    } else if list.len() == 1 {
        list[0]
    } else {
        rejoined(list.drop_last(), c).push(c) + list.last()
    }
}

proof fn lemma_rejoined_push(list: Seq<Seq<char>>, c: char, last: char)
    requires
        list.len() > 0,
    ensures
        rejoined(list.push(Seq::empty()), c) == rejoined(list, c).push(c),
        rejoined(list.drop_last().push(list.last().push(last)), c) == rejoined(list, c).push(last),
{
    assert(list.push(Seq::empty()).drop_last() =~= list);
    assert(rejoined(list, c).push(c) + Seq::<char>::empty() =~= rejoined(list, c).push(c));
    let longer = list.drop_last().push(list.last().push(last));
    if list.len() > 1 {
        assert(longer.drop_last() =~= list.drop_last());
        assert(rejoined(longer, c) =~= rejoined(list, c).push(last));
    } else {
        assert(longer =~= seq![list.last().push(last)]);
    }
}

/// The pieces with the separators between them are the text again, and no piece
/// holds a separator.
pub proof fn law_pieces(s: Seq<char>, c: char)
    ensures
        pieces(s, c).len() > 0,
        rejoined(pieces(s, c), c) == s,
        forall|p: int, k: int|
            0 <= p < pieces(s, c).len() && 0 <= k < pieces(s, c)[p].len() ==> #[trigger] pieces(
                s,
                c,
            )[p][k] != c,
    decreases s.len(),
{
    lemma_pieces_nonempty(s, c);
    if s.len() > 0 {
        let rest = s.drop_last();
        let head = pieces(rest, c);
        law_pieces(rest, c);
        lemma_rejoined_push(head, c, s.last());
        assert(rest.push(s.last()) =~= s);
        assert forall|p: int, k: int|
            0 <= p < pieces(s, c).len() && 0 <= k < pieces(s, c)[p].len() implies #[trigger] pieces(
            s,
            c,
        )[p][k] != c by {
            let piece = pieces(s, c)[p];
            if p < head.len() - 1 || (s.last() == c && p < head.len()) {
                assert(piece == head[p]);
                assert(head[p][k] != c);
            } else if s.last() != c {
                assert(piece == head.last().push(s.last()));
                if k < head.last().len() {
                    assert(head[head.len() - 1][k] != c);
                }
            }
        }
    } else {
        assert(pieces(s, c) == seq![Seq::<char>::empty()]);
    }
}

/// A character ends a token exactly when it is ASCII white space or one of
/// `:`, `=`, `,` and the quotes; a token that stands somewhere has such a
/// character, or an end of the text, on both sides and none inside.
pub proof fn law_token(s: Seq<char>, token: Seq<char>, i: int, c: char)
    ensures
        ends_token(c) <==> c == '\t' || c == '\n' || c == '\u{c}' || c == '\r' || c == ' ' || c
            == ':' || c == '=' || c == ',' || c == '"' || c == '\'',
        token_at(s, token, i) ==> {
            &&& 0 <= i && i + token.len() <= s.len()
            &&& forall|k: int| 0 <= k < token.len() ==> s[i + k] == #[trigger] token[k]
            &&& i > 0 ==> ends_token(s[i - 1])
            &&& i + token.len() < s.len() ==> ends_token(s[i + token.len()])
            &&& forall|k: int| 0 <= k < token.len() ==> !ends_token(#[trigger] token[k])
        },
        0 <= i && i + token.len() <= s.len() && (forall|k: int|
            0 <= k < token.len() ==> s[i + k] == #[trigger] token[k]) && (i == 0 || ends_token(
            s[i - 1],
        )) && (i + token.len() == s.len() || ends_token(s[i + token.len()])) && (forall|k: int|
            0 <= k < token.len() ==> !ends_token(#[trigger] token[k])) ==> token_at(s, token, i),
{
    lemma_occurs(s, token, i);
}

} // verus!
