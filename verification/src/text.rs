//! Text as a sequence of characters: trimming, searching, replacing and
//! decimal rendering.
use vstd::prelude::*;
use vstd::string::*;

verus! {

/// The characters with the Unicode property `White_Space`.
pub open spec fn is_white(c: char) -> bool {
    let u: u32 = c as u32;
    ||| 0x9 <= u <= 0xd
    ||| u == 0x20
    ||| u == 0x85
    ||| u == 0xa0
    ||| u == 0x1680
    ||| 0x2000 <= u <= 0x200a
    ||| u == 0x2028
    ||| u == 0x2029
    ||| u == 0x202f
    ||| u == 0x205f
    ||| u == 0x3000
}

/// `s` without its leading white space.
pub open spec fn trim_start(s: Seq<char>) -> Seq<char>
    decreases s.len(),
{
    if s.len() > 0 && is_white(s[0]) {
        trim_start(s.drop_first())
    } else {
        s
    }
}

/// `s` without its trailing white space.
pub open spec fn trim_end(s: Seq<char>) -> Seq<char>
    decreases s.len(),
{
    if s.len() > 0 && is_white(s.last()) {
        trim_end(s.drop_last())
    } else {
        s
    }
}

/// `s` without the white space at both ends.
pub open spec fn trimmed(s: Seq<char>) -> Seq<char> {
    trim_end(trim_start(s))
}

/// `s` without the characters `c` at its end.
pub open spec fn trim_end_of(s: Seq<char>, c: char) -> Seq<char>
    decreases s.len(),
{
    if s.len() > 0 && s.last() == c {
        trim_end_of(s.drop_last(), c)
    } else {
        s
    }
}

/// `pattern` stands in `s` at position `i`.
pub open spec fn occurs_at<T>(s: Seq<T>, pattern: Seq<T>, i: int) -> bool {
    0 <= i && i + pattern.len() <= s.len() && s.subrange(i, i + pattern.len()) == pattern
}

/// `pattern` stands somewhere in `s`.
pub open spec fn has_part(s: Seq<char>, pattern: Seq<char>) -> bool {
    exists|i: int| occurs_at(s, pattern, i)
}

/// `s` ends in `pattern`.
pub open spec fn has_suffix(s: Seq<char>, pattern: Seq<char>) -> bool {
    occurs_at(s, pattern, s.len() - pattern.len())
}

/// `s` with every occurrence of `pattern`, found from the left and without
/// overlap, replaced by `with`.
pub open spec fn replaced(s: Seq<char>, pattern: Seq<char>, with: Seq<char>) -> Seq<char>
    decreases s.len(),
{
    if pattern.len() == 0 || s.len() < pattern.len() {
        s
    } else if occurs_at(s, pattern, 0) {
        with + replaced(s.skip(pattern.len() as int), pattern, with)
    } else {
        seq![s[0]] + replaced(s.drop_first(), pattern, with)
    }
}

/// The decimal digits of `n`, without leading zeros.
pub open spec fn decimal(n: nat) -> Seq<char>
    decreases n,
{
    if n < 10 {
        seq![digit(n)]
    } else {
        decimal(n / 10).push(digit(n % 10))
    }
}

/// The character of one decimal digit.
pub open spec fn digit(d: nat) -> char {
    (('0' as u32) + d) as char
}

/// The character of a digit tells the digit.
proof fn lemma_digit(d: nat)
    requires
        d < 10,
    ensures
        digit(d) as u32 == 48 + d,
{
    assert('0' as u32 == 48);
}

/// Different numbers are written differently.
pub proof fn lemma_decimal_injective(a: nat, b: nat)
    requires
        decimal(a) == decimal(b),
    ensures
        a == b,
    decreases a + b,
{
    lemma_digit(a % 10);
    lemma_digit(b % 10);
    if a >= 10 && b >= 10 {
        assert(decimal(a).drop_last() =~= decimal(a / 10));
        assert(decimal(b).drop_last() =~= decimal(b / 10));
        lemma_decimal_injective(a / 10, b / 10);
        assert(decimal(a).last() == digit(a % 10));
        assert(decimal(b).last() == digit(b % 10));
    } else if a >= 10 {
        lemma_decimal_len(a / 10);
        assert(decimal(a).len() > 1);
    } else if b >= 10 {
        lemma_decimal_len(b / 10);
        assert(decimal(b).len() > 1);
    } else {
        assert(decimal(a)[0] == digit(a));
        assert(decimal(b)[0] == digit(b));
    }
}

/// A number is written with digits, at least one.
pub proof fn lemma_decimal_len(n: nat)
    ensures
        decimal(n).len() > 0,
        decimal(n)[0] != '/',
    decreases n,
{
    lemma_digit(n % 10);
    if n >= 10 {
        lemma_decimal_len(n / 10);
    } else {
        assert('/' as u32 == 47);
    }
}

/// Every character of a written number is a digit.
pub proof fn lemma_decimal_digits(n: nat)
    ensures
        forall|k: int|
            0 <= k < decimal(n).len() ==> '0' <= #[trigger] decimal(n)[k] && decimal(n)[k] <= '9',
    decreases n,
{
    lemma_digit(n % 10);
    if n >= 10 {
        lemma_decimal_digits(n / 10);
        assert forall|k: int| 0 <= k < decimal(n).len() implies '0' <= #[trigger] decimal(n)[k]
            && decimal(n)[k] <= '9' by {
            if k < decimal(n / 10).len() {
                assert(decimal(n)[k] == decimal(n / 10)[k]);
            }
        }
    }
}

/// The part of `s` behind its last `'/'`; all of `s` where it holds none.
pub open spec fn after_last_slash(s: Seq<char>) -> Seq<char>
    decreases s.len(),
{
    if s.len() == 0 || s.last() == '/' {
        Seq::empty()
    } else {
        after_last_slash(s.drop_last()).push(s.last())
    }
}

/// `c` in lower case, where it is an ASCII letter.
pub open spec fn lower_char(c: char) -> char {
    if 'A' <= c && c <= 'Z' {
        ((c as u32) + 32) as char
    } else {
        c
    }
}

/// `s` with its ASCII letters in lower case.
pub open spec fn lower(s: Seq<char>) -> Seq<char> {
    s.map_values(|c: char| lower_char(c))
}

/// The pieces of `s` between the characters `c`.
pub open spec fn pieces(s: Seq<char>, c: char) -> Seq<Seq<char>>
    decreases s.len(),
{
    if s.len() == 0 {
        seq![Seq::empty()]
    } else {
        let head = pieces(s.drop_last(), c);
        if s.last() == c {
            head.push(Seq::empty())
        } else {
            head.drop_last().push(head.last().push(s.last()))
        }
    }
}

/// There is always a piece.
pub proof fn lemma_pieces_nonempty(s: Seq<char>, c: char)
    ensures
        pieces(s, c).len() > 0,
    decreases s.len(),
{
    if s.len() > 0 {
        lemma_pieces_nonempty(s.drop_last(), c);
    }
}

/// The models of a list of texts.
pub open spec fn texts(list: Seq<String>) -> Seq<Seq<char>> {
    list.map_values(|s: String| s@)
}

/// `list` with one more text.
pub proof fn lemma_texts_push(list: Seq<String>, s: String)
    ensures
        texts(list.push(s)) == texts(list).push(s@),
{
    assert(texts(list.push(s)) =~= texts(list).push(s@));
}

/// A character that ends a token in the output of a program.
pub open spec fn ends_token(c: char) -> bool {
    ||| c == ' '
    ||| c == '\t'
    ||| c == '\n'
    ||| c == '\r'
    ||| c == '\x0c'
    ||| c == ':'
    ||| c == '='
    ||| c == ','
    ||| c == '"'
    ||| c == '\''
}

/// `token` stands in `s` at position `i` on its own: nothing of what is around
/// it belongs to it.
pub open spec fn token_at(s: Seq<char>, token: Seq<char>, i: int) -> bool {
    &&& occurs_at(s, token, i)
    &&& i > 0 ==> ends_token(s[i - 1])
    &&& i + token.len() < s.len() ==> ends_token(s[i + token.len()])
    &&& forall|k: int| 0 <= k < token.len() ==> !ends_token(#[trigger] token[k])
}

/// `std::string::String::push`: the character is appended and the rest of the
/// string stays as it is.
pub assume_specification[ String::push ](s: &mut String, c: char)
    ensures
        final(s)@ == old(s)@.push(c),
;

/// The characters of `s`.
pub fn chars_of(s: &str) -> (chars: Vec<char>)
    ensures
        chars@ == s@,
{
    let mut chars: Vec<char> = Vec::new();
    for c in iter: s.chars()
        invariant
            iter.seq() == s@,
            chars@ == s@.take(iter.index() as int),
    {
        chars.push(c);
        assert(s@.take(iter.index() + 1) =~= s@.take(iter.index() as int).push(s@[iter.index() as int]));
    }
    assert(s@.take(s@.len() as int) =~= s@);
    chars
}

/// The string of the characters `chars[from..to]`.
pub fn string_of(chars: &Vec<char>, from: usize, to: usize) -> (s: String)
    requires
        from <= to <= chars@.len(),
    ensures
        s@ == chars@.subrange(from as int, to as int),
{
    let mut s: String = String::new();
    let mut i: usize = from;
    while i < to
        invariant
            from <= i <= to <= chars@.len(),
            s@ == chars@.subrange(from as int, i as int),
        decreases to - i,
    {
        s.push(chars[i]);
        i = i + 1;
        assert(chars@.subrange(from as int, i as int) =~= chars@.subrange(
            from as int,
            i - 1,
        ).push(chars@[i - 1]));
    }
    s
}

/// Whether two texts hold the same characters.
pub fn text_eq(a: &str, b: &str) -> (same: bool)
    ensures
        same == (a@ == b@),
{
    a.to_owned() == b.to_owned()
}

/// Whether `c` is white space.
pub fn is_white_char(c: char) -> (white: bool)
    ensures
        white == is_white(c),
{
    let u: u32 = c as u32;
    (0x9 <= u && u <= 0xd) || u == 0x20 || u == 0x85 || u == 0xa0 || u == 0x1680 || (0x2000 <= u
        && u <= 0x200a) || u == 0x2028 || u == 0x2029 || u == 0x202f || u == 0x205f || u == 0x3000
}

/// `s` without the white space at both ends.
pub fn trim(s: &str) -> (r: String)
    ensures
        r@ == trimmed(s@),
{
    let chars: Vec<char> = chars_of(s);
    let mut from: usize = 0;
    assert(s@.skip(0) =~= s@);
    while from < chars.len() && is_white_char(chars[from])
        invariant
            chars@ == s@,
            from <= chars@.len(),
            trim_start(s@) == trim_start(s@.skip(from as int)),
        decreases chars@.len() - from,
    {
        assert(s@.skip(from as int).drop_first() =~= s@.skip(from + 1));
        from = from + 1;
    }
    let ghost body: Seq<char> = s@.skip(from as int);
    assert(trim_start(s@) == body);
    let mut to: usize = chars.len();
    assert(body.take(body.len() as int) =~= body);
    while to > from && is_white_char(chars[to - 1])
        invariant
            chars@ == s@,
            from <= to <= chars@.len(),
            body == s@.skip(from as int),
            trim_end(body) == trim_end(body.take(to - from)),
        decreases to,
    {
        assert(body.take(to - from).drop_last() =~= body.take(to - from - 1));
        to = to - 1;
    }
    assert(body.take(to - from) =~= s@.subrange(from as int, to as int));
    string_of(&chars, from, to)
}

/// `s` without the characters `c` at its end.
pub fn trim_end_matches(s: &str, c: char) -> (r: String)
    ensures
        r@ == trim_end_of(s@, c),
{
    let chars: Vec<char> = chars_of(s);
    let mut to: usize = chars.len();
    assert(s@.take(s@.len() as int) =~= s@);
    while to > 0 && chars[to - 1] == c
        invariant
            chars@ == s@,
            to <= chars@.len(),
            trim_end_of(s@, c) == trim_end_of(s@.take(to as int), c),
        decreases to,
    {
        assert(s@.take(to as int).drop_last() =~= s@.take(to - 1));
        to = to - 1;
    }
    assert(s@.take(to as int) =~= s@.subrange(0, to as int));
    string_of(&chars, 0, to)
}

/// Whether `pattern` stands in `chars` at position `i`.
fn matches_at(chars: &Vec<char>, pattern: &Vec<char>, i: usize) -> (found: bool)
    requires
        i <= chars@.len(),
    ensures
        found == occurs_at(chars@, pattern@, i as int),
{
    if chars.len() - i < pattern.len() {
        return false;
    }
    let mut k: usize = 0;
    let size: usize = chars.len();
    while k < pattern.len()
        invariant
            i + pattern@.len() <= chars@.len(),
            size == chars@.len(),
            k <= pattern@.len(),
            forall|m: int| 0 <= m < k ==> chars@[i + m] == pattern@[m],
        decreases pattern@.len() - k,
    {
        if chars[i + k] != pattern[k] {
            assert(chars@.subrange(i as int, i + pattern@.len())[k as int] != pattern@[k as int]);
            return false;
        }
        k = k + 1;
    }
    assert(chars@.subrange(i as int, i + pattern@.len()) =~= pattern@);
    true
}

/// `s` with its ASCII letters in lower case.
pub fn lower_text(s: &str) -> (r: String)
    ensures
        r@ == lower(s@),
{
    let chars: Vec<char> = chars_of(s);
    let mut r: String = String::new();
    let mut i: usize = 0;
    while i < chars.len()
        invariant
            chars@ == s@,
            i <= chars@.len(),
            r@ == lower(s@.take(i as int)),
        decreases chars@.len() - i,
    {
        let c: char = chars[i];
        let l: char = if 'A' <= c && c <= 'Z' {
            ((c as u8) + 32) as char
        } else {
            c
        };
        r.push(l);
        i = i + 1;
        assert(lower(s@.take(i as int)) =~= lower(s@.take(i - 1)).push(lower_char(c)));
    }
    assert(s@.take(s@.len() as int) =~= s@);
    r
}

/// The pieces of `s` between the characters `c`.
pub fn split_text(s: &str, c: char) -> (r: Vec<String>)
    ensures
        texts(r@) == pieces(s@, c),
        r@.len() > 0,
{
    let chars: Vec<char> = chars_of(s);
    let mut r: Vec<String> = Vec::new();
    let mut piece: String = String::new();
    let mut i: usize = 0;
    assert(texts(r@).push(piece@) =~= pieces(s@.take(0), c));
    while i < chars.len()
        invariant
            chars@ == s@,
            i <= chars@.len(),
            texts(r@).push(piece@) == pieces(s@.take(i as int), c),
        decreases chars@.len() - i,
    {
        let ghost next = s@.take(i + 1);
        assert(next.drop_last() =~= s@.take(i as int));
        let ghost head = texts(r@).push(piece@);
        assert(head.drop_last() =~= texts(r@));
        if chars[i] == c {
            proof {
                lemma_texts_push(r@, piece);
            }
            r.push(piece);
            piece = String::new();
            assert(piece@ =~= Seq::empty());
            assert(pieces(next, c) =~= texts(r@).push(piece@));
        } else {
            piece.push(chars[i]);
            assert(pieces(next, c) =~= texts(r@).push(piece@));
        }
        i = i + 1;
    }
    assert(s@.take(s@.len() as int) =~= s@);
    proof {
        lemma_texts_push(r@, piece);
    }
    r.push(piece);
    r
}

/// Whether `c` ends a token.
pub fn ends_token_char(c: char) -> (r: bool)
    ensures
        r == ends_token(c),
{
    c == ' ' || c == '\t' || c == '\n' || c == '\r' || c == '\x0c' || c == ':' || c == '=' || c
        == ',' || c == '"' || c == '\''
}

/// Whether `token` stands somewhere in `s` on its own.
pub fn has_token(s: &str, token: &str) -> (r: bool)
    ensures
        r == exists|i: int| token_at(s@, token@, i),
{
    let chars: Vec<char> = chars_of(s);
    let wanted: Vec<char> = chars_of(token);
    let mut k: usize = 0;
    while k < wanted.len()
        invariant
            wanted@ == token@,
            k <= wanted@.len(),
            forall|m: int| 0 <= m < k ==> !ends_token(#[trigger] token@[m]),
        decreases wanted@.len() - k,
    {
        if ends_token_char(wanted[k]) {
            assert(ends_token(token@[k as int]));
            return false;
        }
        k = k + 1;
    }
    let size: usize = chars.len();
    let width: usize = wanted.len();
    if size < width {
        return false;
    }
    let mut i: usize = size - width;
    loop
        invariant
            chars@ == s@,
            wanted@ == token@,
            size == chars@.len(),
            width == wanted@.len(),
            i + width <= size,
            forall|m: int| 0 <= m < token@.len() ==> !ends_token(#[trigger] token@[m]),
            forall|m: int| i < m ==> !token_at(s@, token@, m),
        decreases i,
    {
        let before: bool = i == 0 || ends_token_char(chars[i - 1]);
        let after: bool = i + width == size || ends_token_char(chars[i + width]);
        if before && after && matches_at(&chars, &wanted, i) {
            assert(token_at(s@, token@, i as int));
            return true;
        }
        assert(!token_at(s@, token@, i as int));
        if i == 0 {
            return false;
        }
        i = i - 1;
    }
}

/// Whether `pattern` stands somewhere in `s`.
pub fn contains(s: &str, pattern: &str) -> (found: bool)
    ensures
        found == has_part(s@, pattern@),
{
    let chars: Vec<char> = chars_of(s);
    let part: Vec<char> = chars_of(pattern);
    let mut i: usize = 0;
    while i < chars.len()
        invariant
            chars@ == s@,
            part@ == pattern@,
            i <= chars@.len(),
            forall|m: int| 0 <= m < i ==> !occurs_at(s@, pattern@, m),
        decreases chars@.len() - i,
    {
        if matches_at(&chars, &part, i) {
            return true;
        }
        i = i + 1;
    }
    let found: bool = matches_at(&chars, &part, i);
    assert(forall|m: int| m > s@.len() ==> !occurs_at(s@, pattern@, m));
    found
}

/// Whether `s` ends in `pattern`.
pub fn ends_with(s: &str, pattern: &str) -> (found: bool)
    ensures
        found == has_suffix(s@, pattern@),
{
    let chars: Vec<char> = chars_of(s);
    let part: Vec<char> = chars_of(pattern);
    if chars.len() < part.len() {
        return false;
    }
    matches_at(&chars, &part, chars.len() - part.len())
}

/// `s` with every occurrence of `pattern` replaced by `with`.
pub fn replace(s: &str, pattern: &str, with: &str) -> (r: String)
    requires
        pattern@.len() > 0,
    ensures
        r@ == replaced(s@, pattern@, with@),
{
    let chars: Vec<char> = chars_of(s);
    let part: Vec<char> = chars_of(pattern);
    let mut r: String = String::new();
    let mut i: usize = 0;
    assert(s@.skip(0) =~= s@);
    while part.len() <= chars.len() - i
        invariant
            chars@ == s@,
            part@ == pattern@,
            part@.len() > 0,
            i <= chars@.len(),
            r@ + replaced(s@.skip(i as int), pattern@, with@) == replaced(s@, pattern@, with@),
        decreases chars@.len() - i,
    {
        let ghost rest: Seq<char> = s@.skip(i as int);
        let ghost before: Seq<char> = r@;
        assert(rest.subrange(0, pattern@.len() as int) =~= s@.subrange(
            i as int,
            i + pattern@.len(),
        ));
        if matches_at(&chars, &part, i) {
            r.append(with);
            i = i + part.len();
            assert(rest.skip(pattern@.len() as int) =~= s@.skip(i as int));
            assert(before + (with@ + replaced(s@.skip(i as int), pattern@, with@)) =~= r@ + replaced(
                s@.skip(i as int),
                pattern@,
                with@,
            ));
        } else {
            r.push(chars[i]);
            i = i + 1;
            assert(rest.drop_first() =~= s@.skip(i as int));
            assert(before + (seq![rest[0]] + replaced(s@.skip(i as int), pattern@, with@)) =~= r@
                + replaced(s@.skip(i as int), pattern@, with@));
        }
    }
    let tail: String = string_of(&chars, i, chars.len());
    assert(tail@ =~= s@.skip(i as int));
    r.append(tail.as_str());
    r
}

/// The decimal digits of `n`.
pub fn decimal_text(n: u64) -> (r: String)
    ensures
        r@ == decimal(n as nat),
    decreases n,
{
    let d: u64 = n % 10;
    let c: char = (('0' as u8) + d as u8) as char;
    if n < 10 {
        let mut r: String = String::new();
        r.push(c);
        assert(r@ =~= seq![digit(n as nat)]);
        r
    } else {
        let mut r: String = decimal_text(n / 10);
        r.push(c);
        r
    }
}

/// The part of `s` behind its last `'/'`.
pub fn last_segment(s: &str) -> (r: String)
    ensures
        r@ == after_last_slash(s@),
{
    let chars: Vec<char> = chars_of(s);
    let mut from: usize = chars.len();
    assert(s@.take(s@.len() as int) =~= s@);
    assert(s@.skip(from as int) =~= Seq::<char>::empty());
    while from > 0 && chars[from - 1] != '/'
        invariant
            chars@ == s@,
            from <= chars@.len(),
            after_last_slash(s@) == after_last_slash(s@.take(from as int)) + s@.skip(from as int),
        decreases from,
    {
        let ghost head: Seq<char> = s@.take(from as int);
        assert(head.drop_last() =~= s@.take(from - 1));
        assert(after_last_slash(head.drop_last()).push(head.last()) + s@.skip(from as int)
            =~= after_last_slash(head.drop_last()) + s@.skip(from - 1));
        from = from - 1;
    }
    assert(after_last_slash(s@) =~= s@.subrange(from as int, s@.len() as int));
    string_of(&chars, from, chars.len())
}

/// The two texts one behind the other.
pub fn joined(a: &str, b: &str) -> (r: String)
    ensures
        r@ == a@ + b@,
{
    let mut r: String = a.to_owned();
    r.append(b);
    r
}

/// The three texts one behind the other.
pub fn joined3(a: &str, b: &str, c: &str) -> (r: String)
    ensures
        r@ == a@ + b@ + c@,
{
    let mut r: String = joined(a, b);
    r.append(c);
    r
}

} // verus!
