//! File-system paths as the bytes the kernel sees, with the lexical
//! operations on them. No function here touches the file system.
use vstd::prelude::*;
use vstd::string::*;
use vstd::utf8::*;

verus! {

/// A Unix path: any sequence of bytes.
#[derive(Debug, PartialEq, Eq, Hash)]
pub struct FsPath {
    pub bytes: Vec<u8>,
}

impl View for FsPath {
    type V = Seq<u8>;

    open spec fn view(&self) -> Seq<u8> {
        self.bytes@
    }
}

impl Clone for FsPath {
    fn clone(&self) -> (r: Self)
        ensures
            r@ == self@,
    {
        FsPath { bytes: copy_bytes(&self.bytes) }
    }
}

/// The byte `'/'`.
pub const SLASH: u8 = 0x2f;

/// The byte `'.'`.
pub const DOT: u8 = 0x2e;

/// The path begins at the root.
pub open spec fn is_absolute(p: Seq<u8>) -> bool {
    p.len() > 0 && p[0] == SLASH
}

/// `p` as seen from `base`: an absolute path stands for itself, a relative one
/// is appended with one separator in between.
pub open spec fn join(base: Seq<u8>, p: Seq<u8>) -> Seq<u8> {
    if is_absolute(p) {
        p
    } else if base.len() > 0 && base.last() != SLASH {
        base.push(SLASH) + p
    } else {
        base + p
    }
}

/// `base` joined with a name written as text.
pub open spec fn join_text(base: Seq<u8>, name: Seq<char>) -> Seq<u8> {
    join(base, encode_utf8(name))
}

/// The pieces of `p` between its separators.
pub open spec fn split(p: Seq<u8>) -> Seq<Seq<u8>>
    decreases p.len(),
{
    if p.len() == 0 {
        seq![Seq::empty()]
    } else {
        let head = split(p.drop_last());
        if p.last() == SLASH {
            head.push(Seq::empty())
        } else {
            head.drop_last().push(head.last().push(p.last()))
        }
    }
}

/// The segment `.`.
pub open spec fn cur_dir() -> Seq<u8> {
    seq![DOT]
}

/// The segment `..`.
pub open spec fn parent_dir() -> Seq<u8> {
    seq![DOT, DOT]
}

/// The component that stands for the root.
pub open spec fn root_dir() -> Seq<u8> {
    seq![SLASH]
}

/// A piece that counts as a component wherever it stands.
pub open spec fn is_named(piece: Seq<u8>) -> bool {
    piece.len() > 0 && piece != cur_dir()
}

/// The pieces that count as components.
pub open spec fn named(pieces: Seq<Seq<u8>>) -> Seq<Seq<u8>>
    decreases pieces.len(),
{
    if pieces.len() == 0 {
        Seq::empty()
    } else if is_named(pieces.last()) {
        named(pieces.drop_last()).push(pieces.last())
    } else {
        named(pieces.drop_last())
    }
}

/// What stands before the named pieces: the root of an absolute path, or the
/// leading `.` of a relative one.
pub open spec fn lead(p: Seq<u8>) -> Seq<Seq<u8>> {
    if is_absolute(p) {
        seq![root_dir()]
    } else if split(p)[0] == cur_dir() {
        seq![cur_dir()]
    } else {
        Seq::empty()
    }
}

/// The components of a path. Two spellings name the same path exactly when
/// their components are equal: repeated separators, trailing separators and
/// inner `.` pieces do not count.
pub open spec fn components(p: Seq<u8>) -> Seq<Seq<u8>> {
    lead(p) + named(split(p))
}

/// One step of lexical normalization: `.` is dropped, `..` takes back the
/// name before it and cannot leave the root.
pub open spec fn lexical_step(acc: Seq<Seq<u8>>, c: Seq<u8>) -> Seq<Seq<u8>> {
    if c == cur_dir() {
        acc
    } else if c != parent_dir() {
        acc.push(c)
    } else if acc.len() == 0 || acc.last() == parent_dir() {
        acc.push(c)
    } else if acc.last() == root_dir() {
        acc
    } else {
        acc.drop_last()
    }
}

/// The components `cs` after lexical normalization. That a `..` which nothing
/// precedes is kept, and one at the root is dropped, is a choice of this library.
pub open spec fn lexical(cs: Seq<Seq<u8>>) -> Seq<Seq<u8>>
    decreases cs.len(),
{
    if cs.len() == 0 {
        Seq::empty()
    } else {
        lexical_step(lexical(cs.drop_last()), cs.last())
    }
}

/// The path with the components `cs`.
pub open spec fn render(cs: Seq<Seq<u8>>) -> Seq<u8>
    decreases cs.len(),
{
    if cs.len() == 0 {
        Seq::empty()
    } else {
        join(render(cs.drop_last()), cs.last())
    }
}

/// `p` without the separators and `.` pieces at its end; the root and a
/// leading `.` stay.
pub open spec fn strip_tail(p: Seq<u8>) -> Seq<u8>
    decreases p.len(),
{
    if p.len() >= 2 && p.last() == SLASH {
        strip_tail(p.drop_last())
    } else if p.len() >= 2 && p.last() == DOT && p[p.len() - 2] == SLASH {
        strip_tail(p.drop_last())
    } else {
        p
    }
}

/// `p` up to and with its last separator.
pub open spec fn through_last_slash(p: Seq<u8>) -> Seq<u8>
    decreases p.len(),
{
    if p.len() == 0 || p.last() == SLASH {
        p
    } else {
        through_last_slash(p.drop_last())
    }
}

/// The path without its final component; the root and the empty path have
/// none.
pub open spec fn parent(p: Seq<u8>) -> Option<Seq<u8>> {
    let body = strip_tail(p);
    if body.len() == 0 || body == root_dir() {
        None
    } else {
        Some(strip_tail(through_last_slash(body)))
    }
}

/// The final component where it is a name.
pub open spec fn file_name(p: Seq<u8>) -> Option<Seq<u8>> {
    let body = strip_tail(p);
    let name = body.skip(through_last_slash(body).len() as int);
    if is_named(name) && name != parent_dir() {
        Some(name)
    } else {
        None
    }
}

/// `name` up to its last dot; nothing where it has none.
pub open spec fn before_last_dot(name: Seq<u8>) -> Seq<u8>
    decreases name.len(),
{
    if name.len() == 0 {
        name
    } else if name.last() == DOT {
        name.drop_last()
    } else {
        before_last_dot(name.drop_last())
    }
}

/// A file name without its extension. A dot at the front begins no extension.
pub open spec fn stem(name: Seq<u8>) -> Seq<u8> {
    if before_last_dot(name).len() == 0 {
        name
    } else {
        before_last_dot(name)
    }
}

/// `p` with the extension of its file name replaced by `extension`, or with
/// `extension` added where it has none. A path without a file name stays as it
/// is.
pub open spec fn with_extension(p: Seq<u8>, extension: Seq<char>) -> Seq<u8> {
    match file_name(p) {
        Some(name) => through_last_slash(strip_tail(p)) + stem(name) + seq![DOT] + encode_utf8(
            extension,
        ),
        None => p,
    }
}

/// What `String::from_utf8_lossy` makes of bytes that are not valid UTF-8.
pub uninterp spec fn lossy_repair(bytes: Seq<u8>) -> Seq<char>;

/// The bytes as text, where bytes that are no text are repaired.
pub open spec fn lossy_text(bytes: Seq<u8>) -> Seq<char> {
    if valid_utf8(bytes) {
        decode_utf8(bytes)
    } else {
        lossy_repair(bytes)
    }
}

/// `std::str::from_utf8`: it gives the text of the bytes exactly when they are
/// valid UTF-8.
#[verifier::external_body]
fn decode_bytes(bytes: &[u8]) -> (r: Option<&str>)
    ensures
        r is Some <==> valid_utf8(bytes@),
        r matches Some(s) ==> s@ == decode_utf8(bytes@),
{
    std::str::from_utf8(bytes).ok()
}

/// `String::from_utf8_lossy`: valid UTF-8 is decoded; what it makes of other
/// bytes depends on the bytes alone and is named `lossy_repair`.
#[verifier::external_body]
fn decode_bytes_lossy(bytes: &[u8]) -> (r: String)
    ensures
        valid_utf8(bytes@) ==> r@ == decode_utf8(bytes@),
        !valid_utf8(bytes@) ==> r@ == lossy_repair(bytes@),
{
    String::from_utf8_lossy(bytes).into_owned()
}

/// A copy of the bytes.
pub fn copy_bytes(bytes: &Vec<u8>) -> (r: Vec<u8>)
    ensures
        r@ == bytes@,
{
    bytes.clone()
}

/// Whether two byte strings are equal.
pub fn bytes_eq(a: &Vec<u8>, b: &Vec<u8>) -> (same: bool)
    ensures
        same == (a@ == b@),
{
    if a.len() != b.len() {
        return false;
    }
    let mut i: usize = 0;
    while i < a.len()
        invariant
            a@.len() == b@.len(),
            i <= a@.len(),
            forall|k: int| 0 <= k < i ==> a@[k] == b@[k],
        decreases a@.len() - i,
    {
        if a[i] != b[i] {
            return false;
        }
        i = i + 1;
    }
    assert(a@ =~= b@);
    true
}

/// Appends all of `tail` to `bytes`.
pub fn append_bytes(bytes: &mut Vec<u8>, tail: &Vec<u8>)
    ensures
        final(bytes)@ == old(bytes)@ + tail@,
{
    let mut i: usize = 0;
    while i < tail.len()
        invariant
            i <= tail@.len(),
            bytes@ == old(bytes)@ + tail@.take(i as int),
        decreases tail@.len() - i,
    {
        bytes.push(tail[i]);
        i = i + 1;
        assert(tail@.take(i as int) =~= tail@.take(i - 1).push(tail@[i - 1]));
    }
    assert(tail@.take(tail@.len() as int) =~= tail@);
}

/// The bytes `bytes[from..to]`.
pub fn slice_bytes(bytes: &Vec<u8>, from: usize, to: usize) -> (r: Vec<u8>)
    requires
        from <= to <= bytes@.len(),
    ensures
        r@ == bytes@.subrange(from as int, to as int),
{
    let mut r: Vec<u8> = Vec::new();
    let mut i: usize = from;
    while i < to
        invariant
            from <= i <= to <= bytes@.len(),
            r@ == bytes@.subrange(from as int, i as int),
        decreases to - i,
    {
        r.push(bytes[i]);
        i = i + 1;
        assert(bytes@.subrange(from as int, i as int) =~= bytes@.subrange(
            from as int,
            i - 1,
        ).push(bytes@[i - 1]));
    }
    r
}

proof fn lemma_first_byte(scalar: u32)
    requires
        scalar <= 0x10ffff,
    ensures
        encode_scalar(scalar).len() > 0,
        encode_scalar(scalar)[0] == SLASH <==> scalar == 0x2f,
{
    assert(scalar <= 0x7f ==> ((scalar & 0x7f) as u8 == 0x2f <==> scalar == 0x2f)) by (bit_vector);
    assert(0xc0 | (((scalar >> 6) & 0x1f) as u8) != 0x2f) by (bit_vector);
    assert(0xe0 | (((scalar >> 12) & 0x0f) as u8) != 0x2f) by (bit_vector);
    assert(0xf0 | (((scalar >> 18) & 0x07) as u8) != 0x2f) by (bit_vector);
}

proof fn lemma_first_char(c: char)
    ensures
        encode_scalar(c as u32).len() > 0,
        encode_scalar(c as u32)[0] == SLASH <==> c == '/',
{
    char_is_scalar(c);
    lemma_first_byte(c as u32);
}

/// A path written as text is absolute exactly when the text begins with `/`.
pub proof fn lemma_text_absolute(text: Seq<char>)
    ensures
        is_absolute(encode_utf8(text)) <==> text.len() > 0 && text[0] == '/',
{
    if text.len() > 0 {
        lemma_first_char(text[0]);
        assert(encode_utf8(text)[0] == encode_scalar(text[0] as u32)[0]);
    }
}

proof fn lemma_ascii_char(c: char)
    requires
        (c as u32) < 0x80,
    ensures
        encode_scalar(c as u32) == seq![c as u8],
{
    let u: u32 = c as u32;
    assert((u & 0x7f) as u8 == u as u8) by (bit_vector)
        requires
            u < 0x80,
    ;
}

/// Text of ASCII characters alone has one byte for each of them.
pub proof fn lemma_ascii_bytes(text: Seq<char>)
    requires
        forall|k: int| 0 <= k < text.len() ==> (#[trigger] text[k] as u32) < 0x80,
    ensures
        encode_utf8(text).len() == text.len(),
        forall|k: int| 0 <= k < text.len() ==> #[trigger] encode_utf8(text)[k] == text[k] as u8,
    decreases text.len(),
{
    if text.len() > 0 {
        let rest = text.drop_first();
        assert forall|k: int| 0 <= k < rest.len() implies (#[trigger] rest[k] as u32) < 0x80 by {
            assert(rest[k] == text[k + 1]);
        }
        lemma_ascii_bytes(rest);
        lemma_ascii_char(text[0]);
        assert forall|k: int| 0 <= k < text.len() implies #[trigger] encode_utf8(text)[k]
            == text[k] as u8 by {
            if k > 0 {
                assert(encode_utf8(text)[k] == encode_utf8(rest)[k - 1]);
                assert(rest[k - 1] == text[k]);
            }
        }
    }
}

/// The bytes of two texts in a row are the bytes of the one and of the other.
pub proof fn lemma_encode_concat(a: Seq<char>, b: Seq<char>)
    ensures
        encode_utf8(a + b) == encode_utf8(a) + encode_utf8(b),
    decreases a.len(),
{
    if a.len() == 0 {
        assert(a + b =~= b);
        assert(encode_utf8(a) + encode_utf8(b) =~= encode_utf8(b));
    } else {
        lemma_encode_concat(a.drop_first(), b);
        assert((a + b).drop_first() =~= a.drop_first() + b);
        assert(encode_utf8(a + b) =~= encode_utf8(a) + encode_utf8(b));
    }
}

/// Two names that begin without `/` and give the same path under one directory
/// are equal.
pub proof fn lemma_join_text_injective(base: Seq<u8>, a: Seq<char>, b: Seq<char>)
    requires
        a.len() > 0 && a[0] != '/',
        b.len() > 0 && b[0] != '/',
        join_text(base, a) == join_text(base, b),
    ensures
        a == b,
{
    lemma_text_absolute(a);
    lemma_text_absolute(b);
    let head = if base.len() > 0 && base.last() != SLASH {
        base.push(SLASH)
    } else {
        base
    };
    let pa = encode_utf8(a);
    let pb = encode_utf8(b);
    assert((head + pa).skip(head.len() as int) =~= pa);
    assert((head + pb).skip(head.len() as int) =~= pb);
    encode_utf8_decode_utf8(a);
    encode_utf8_decode_utf8(b);
}

/// The views of a list of byte strings.
pub open spec fn views(list: Seq<Vec<u8>>) -> Seq<Seq<u8>> {
    list.map_values(|v: Vec<u8>| v@)
}

proof fn lemma_views_push(list: Seq<Vec<u8>>, v: Vec<u8>)
    ensures
        views(list.push(v)) == views(list).push(v@),
{
    assert(views(list.push(v)) =~= views(list).push(v@));
}

/// Whether two lists of byte strings are equal.
pub fn lists_eq(a: &Vec<Vec<u8>>, b: &Vec<Vec<u8>>) -> (same: bool)
    ensures
        same == (views(a@) == views(b@)),
{
    if a.len() != b.len() {
        assert(views(a@).len() != views(b@).len());
        return false;
    }
    let mut i: usize = 0;
    while i < a.len()
        invariant
            a@.len() == b@.len(),
            i <= a@.len(),
            forall|k: int| 0 <= k < i ==> (#[trigger] a@[k])@ == b@[k]@,
        decreases a@.len() - i,
    {
        if !bytes_eq(&a[i], &b[i]) {
            assert(views(a@)[i as int] != views(b@)[i as int]);
            return false;
        }
        i = i + 1;
    }
    assert(views(a@) =~= views(b@));
    true
}

/// Whether `piece` is the segment `.`.
fn is_cur_dir(piece: &Vec<u8>) -> (r: bool)
    ensures
        r == (piece@ == cur_dir()),
{
    let r: bool = piece.len() == 1 && piece[0] == DOT;
    assert(r ==> piece@ =~= cur_dir());
    r
}

/// Whether `piece` is the segment `..`.
fn is_parent_dir(piece: &Vec<u8>) -> (r: bool)
    ensures
        r == (piece@ == parent_dir()),
{
    let r: bool = piece.len() == 2 && piece[0] == DOT && piece[1] == DOT;
    assert(r ==> piece@ =~= parent_dir());
    assert(!r ==> (piece@.len() == 2 ==> piece@ != parent_dir())) by {
        if piece@ == parent_dir() {
            assert(piece@[0] == DOT && piece@[1] == DOT);
        }
    }
    r
}

/// Whether `piece` is the root component.
fn is_root_dir(piece: &Vec<u8>) -> (r: bool)
    ensures
        r == (piece@ == root_dir()),
{
    let r: bool = piece.len() == 1 && piece[0] == SLASH;
    assert(r ==> piece@ =~= root_dir());
    r
}

impl FsPath {
    /// The pieces of the path between its separators.
    fn split(&self) -> (r: Vec<Vec<u8>>)
        ensures
            views(r@) == split(self@),
            r@.len() > 0,
    {
        let mut pieces: Vec<Vec<u8>> = Vec::new();
        let mut piece: Vec<u8> = Vec::new();
        let mut i: usize = 0;
        assert(views(pieces@).push(piece@) =~= split(self@.take(0)));
        while i < self.bytes.len()
            invariant
                i <= self@.len(),
                views(pieces@).push(piece@) == split(self@.take(i as int)),
            decreases self@.len() - i,
        {
            let b: u8 = self.bytes[i];
            let ghost next: Seq<u8> = self@.take(i + 1);
            assert(next.drop_last() =~= self@.take(i as int));
            let ghost head: Seq<Seq<u8>> = views(pieces@).push(piece@);
            assert(head.drop_last() =~= views(pieces@));
            if b == SLASH {
                proof {
                    lemma_views_push(pieces@, piece);
                }
                pieces.push(piece);
                piece = Vec::new();
                assert(split(next) =~= views(pieces@).push(piece@));
            } else {
                piece.push(b);
                assert(split(next) =~= views(pieces@).push(piece@));
            }
            i = i + 1;
        }
        assert(self@.take(self@.len() as int) =~= self@);
        proof {
            lemma_views_push(pieces@, piece);
        }
        pieces.push(piece);
        pieces
    }

    /// The components of the path.
    pub fn components(&self) -> (r: Vec<Vec<u8>>)
        ensures
            views(r@) == components(self@),
    {
        let pieces: Vec<Vec<u8>> = self.split();
        let mut r: Vec<Vec<u8>> = Vec::new();
        assert(views(pieces@)[0] == pieces@[0]@);
        if self.is_absolute() {
            let mut root: Vec<u8> = Vec::new();
            root.push(SLASH);
            assert(root@ =~= root_dir());
            r.push(root);
        } else if is_cur_dir(&pieces[0]) {
            r.push(copy_bytes(&pieces[0]));
        }
        assert(views(r@) =~= lead(self@));
        let mut i: usize = 0;
        assert(lead(self@) + named(views(pieces@).take(0)) =~= lead(self@));
        while i < pieces.len()
            invariant
                i <= pieces@.len(),
                views(pieces@) == split(self@),
                views(r@) == lead(self@) + named(views(pieces@).take(i as int)),
            decreases pieces@.len() - i,
        {
            let ghost seen: Seq<Seq<u8>> = views(pieces@).take(i + 1);
            assert(seen.drop_last() =~= views(pieces@).take(i as int));
            assert(seen.last() == pieces@[i as int]@);
            if pieces[i].len() > 0 && !is_cur_dir(&pieces[i]) {
                let piece: Vec<u8> = copy_bytes(&pieces[i]);
                proof {
                    lemma_views_push(r@, piece);
                }
                r.push(piece);
                assert(views(r@) =~= lead(self@) + named(seen));
            }
            i = i + 1;
        }
        assert(views(pieces@).take(pieces@.len() as int) =~= views(pieces@));
        r
    }

    /// The components of the path after lexical normalization.
    pub fn lexical_components(&self) -> (r: Vec<Vec<u8>>)
        ensures
            views(r@) == lexical(components(self@)),
    {
        let all: Vec<Vec<u8>> = self.components();
        let mut r: Vec<Vec<u8>> = Vec::new();
        let mut i: usize = 0;
        assert(views(r@) =~= lexical(views(all@).take(0)));
        while i < all.len()
            invariant
                i <= all@.len(),
                views(r@) == lexical(views(all@).take(i as int)),
            decreases all@.len() - i,
        {
            let ghost seen: Seq<Seq<u8>> = views(all@).take(i + 1);
            assert(seen.drop_last() =~= views(all@).take(i as int));
            assert(seen.last() == all@[i as int]@);
            let c: Vec<u8> = copy_bytes(&all[i]);
            let size: usize = r.len();
            proof {
                lemma_views_push(r@, c);
                if size > 0 {
                    assert(views(r@).last() == r@.last()@);
                    assert(views(r@.drop_last()) =~= views(r@).drop_last());
                }
            }
            if is_cur_dir(&c) {
            } else if !is_parent_dir(&c) {
                r.push(c);
            } else if size == 0 || is_parent_dir(&r[size - 1]) {
                r.push(c);
            } else if !is_root_dir(&r[size - 1]) {
                let _ = r.pop();
            }
            assert(views(r@) =~= lexical(seen));
            i = i + 1;
        }
        assert(views(all@).take(all@.len() as int) =~= views(all@));
        r
    }

    /// The path with the components `parts`.
    fn rendered(parts: &Vec<Vec<u8>>) -> (r: FsPath)
        ensures
            r@ == render(views(parts@)),
    {
        let mut r: FsPath = FsPath { bytes: Vec::new() };
        let mut i: usize = 0;
        assert(r@ =~= render(views(parts@).take(0)));
        while i < parts.len()
            invariant
                i <= parts@.len(),
                r@ == render(views(parts@).take(i as int)),
            decreases parts@.len() - i,
        {
            let ghost seen: Seq<Seq<u8>> = views(parts@).take(i + 1);
            assert(seen.drop_last() =~= views(parts@).take(i as int));
            assert(seen.last() == parts@[i as int]@);
            r = r.join(&FsPath { bytes: copy_bytes(&parts[i]) });
            i = i + 1;
        }
        assert(views(parts@).take(parts@.len() as int) =~= views(parts@));
        r
    }

    /// The path with `.` and `..` resolved by spelling alone.
    pub fn lexically_normalized(&self) -> (r: FsPath)
        ensures
            r@ == render(lexical(components(self@))),
    {
        FsPath::rendered(&self.lexical_components())
    }

    /// The one spelling that all paths with the same components share.
    pub fn canonical_spelling(&self) -> (r: FsPath)
        ensures
            r@ == render(components(self@)),
    {
        FsPath::rendered(&self.components())
    }

    /// How many bytes are left without the separators and `.` pieces at the
    /// end of the first `size` bytes.
    fn stripped_len(&self, size: usize) -> (r: usize)
        requires
            size <= self@.len(),
        ensures
            r <= size,
            self@.take(r as int) == strip_tail(self@.take(size as int)),
    {
        let mut r: usize = size;
        while r >= 2 && (self.bytes[r - 1] == SLASH || (self.bytes[r - 1] == DOT && self.bytes[r
            - 2] == SLASH))
            invariant
                r <= size <= self@.len(),
                strip_tail(self@.take(r as int)) == strip_tail(self@.take(size as int)),
            decreases r,
        {
            assert(self@.take(r as int).drop_last() =~= self@.take(r - 1));
            r = r - 1;
        }
        r
    }

    /// How many of the first `size` bytes stand up to and with the last
    /// separator.
    fn through_last_slash_len(&self, size: usize) -> (r: usize)
        requires
            size <= self@.len(),
        ensures
            r <= size,
            self@.take(r as int) == through_last_slash(self@.take(size as int)),
    {
        let mut r: usize = size;
        while r > 0 && self.bytes[r - 1] != SLASH
            invariant
                r <= size <= self@.len(),
                through_last_slash(self@.take(r as int)) == through_last_slash(
                    self@.take(size as int),
                ),
            decreases r,
        {
            assert(self@.take(r as int).drop_last() =~= self@.take(r - 1));
            r = r - 1;
        }
        r
    }

    /// The path without its final component.
    pub fn parent(&self) -> (r: Option<FsPath>)
        ensures
            r is Some <==> parent(self@) is Some,
            r matches Some(p) ==> Some(p@) == parent(self@),
    {
        assert(self@.take(self@.len() as int) =~= self@);
        let body: usize = self.stripped_len(self.bytes.len());
        if body == 0 || (body == 1 && self.bytes[0] == SLASH) {
            assert(body == 1 ==> self@.take(body as int) =~= root_dir());
            return None;
        }
        assert(self@.take(body as int) == root_dir() ==> body == 1 && self@[0] == SLASH) by {
            if self@.take(body as int) == root_dir() {
                assert(root_dir().len() == 1);
                assert(self@.take(body as int)[0] == SLASH);
            }
        }
        let dir: usize = self.through_last_slash_len(body);
        let end: usize = self.stripped_len(dir);
        assert(self@.take(end as int) =~= self@.subrange(0, end as int));
        Some(FsPath { bytes: slice_bytes(&self.bytes, 0, end) })
    }

    /// The final component where it is a name.
    pub fn file_name(&self) -> (r: Option<FsPath>)
        ensures
            r is Some <==> file_name(self@) is Some,
            r matches Some(p) ==> Some(p@) == file_name(self@),
    {
        assert(self@.take(self@.len() as int) =~= self@);
        let body: usize = self.stripped_len(self.bytes.len());
        let dir: usize = self.through_last_slash_len(body);
        let name: Vec<u8> = slice_bytes(&self.bytes, dir, body);
        assert(name@ =~= self@.take(body as int).skip(dir as int));
        if name.len() == 0 || is_cur_dir(&name) || is_parent_dir(&name) {
            None
        } else {
            Some(FsPath { bytes: name })
        }
    }

    /// The path with another extension; `extension` is not empty.
    pub fn with_extension(&self, extension: &str) -> (r: FsPath)
        ensures
            r@ == with_extension(self@, extension@),
    {
        assert(self@.take(self@.len() as int) =~= self@);
        let body: usize = self.stripped_len(self.bytes.len());
        let dir: usize = self.through_last_slash_len(body);
        let name: Vec<u8> = slice_bytes(&self.bytes, dir, body);
        assert(name@ =~= self@.take(body as int).skip(dir as int));
        if name.len() == 0 || is_cur_dir(&name) || is_parent_dir(&name) {
            return self.clone();
        }
        let mut end: usize = name.len();
        assert(name@.take(name@.len() as int) =~= name@);
        while end > 0 && name[end - 1] != DOT
            invariant
                end <= name@.len(),
                before_last_dot(name@.take(end as int)) == before_last_dot(name@),
            decreases end,
        {
            assert(name@.take(end as int).drop_last() =~= name@.take(end - 1));
            end = end - 1;
        }
        if end > 0 {
            assert(name@.take(end as int).drop_last() =~= name@.take(end - 1));
        }
        let kept: usize = if end > 1 {
            end - 1
        } else {
            name.len()
        };
        assert(stem(name@) =~= name@.take(kept as int));
        let mut bytes: Vec<u8> = slice_bytes(&self.bytes, 0, dir);
        append_bytes(&mut bytes, &slice_bytes(&name, 0, kept));
        bytes.push(DOT);
        append_bytes(&mut bytes, &FsPath::from_text(extension).bytes);
        let r = FsPath { bytes };
        assert(r@ =~= with_extension(self@, extension@));
        r
    }

    /// The path written as `text`.
    pub fn from_text(text: &str) -> (r: FsPath)
        ensures
            r@ == encode_utf8(text@),
    {
        FsPath { bytes: text.as_bytes_vec() }
    }

    /// The path as text, where it is valid UTF-8.
    pub fn to_text(&self) -> (r: Option<String>)
        ensures
            r is Some <==> valid_utf8(self@),
            r matches Some(s) ==> s@ == decode_utf8(self@),
    {
        match decode_bytes(self.bytes.as_slice()) {
            Some(s) => Some(s.to_owned()),
            None => None,
        }
    }

    /// The path as text, repaired where it is not valid UTF-8.
    pub fn to_text_lossy(&self) -> (r: String)
        ensures
            r@ == lossy_text(self@),
    {
        decode_bytes_lossy(self.bytes.as_slice())
    }

    /// Whether the path begins at the root.
    pub fn is_absolute(&self) -> (r: bool)
        ensures
            r == is_absolute(self@),
    {
        self.bytes.len() > 0 && self.bytes[0] == SLASH
    }

    /// `path` as seen from this directory.
    pub fn join(&self, path: &FsPath) -> (r: FsPath)
        ensures
            r@ == join(self@, path@),
    {
        if path.is_absolute() {
            return path.clone();
        }
        let mut bytes: Vec<u8> = copy_bytes(&self.bytes);
        let size: usize = bytes.len();
        if size > 0 && bytes[size - 1] != SLASH {
            bytes.push(SLASH);
        }
        append_bytes(&mut bytes, &path.bytes);
        FsPath { bytes }
    }

    /// The path of `name` in this directory.
    pub fn join_text(&self, name: &str) -> (r: FsPath)
        ensures
            r@ == join_text(self@, name@),
    {
        self.join(&FsPath::from_text(name))
    }
}

} // verus!
