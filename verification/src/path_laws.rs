//! What holds of the components of paths.
use crate::fs_path::{
    DOT, SLASH, before_last_dot, components, cur_dir, file_name, is_absolute, is_named, join, lead,
    lexical, named, parent, parent_dir, render, root_dir, split, strip_tail, through_last_slash,
    with_extension,
};
use vstd::prelude::*;
use vstd::utf8::*;

verus! {

/// A byte string without a separator.
pub open spec fn unbroken(piece: Seq<u8>) -> bool {
    forall|k: int| 0 <= k < piece.len() ==> #[trigger] piece[k] != SLASH
}

/// A name that is one component wherever it stands.
pub open spec fn is_segment(name: Seq<u8>) -> bool {
    is_named(name) && unbroken(name)
}

proof fn lemma_split_nonempty(p: Seq<u8>)
    ensures
        split(p).len() > 0,
    decreases p.len(),
{
    if p.len() > 0 {
        lemma_split_nonempty(p.drop_last());
    }
}

/// What is appended without a separator lengthens the last piece.
proof fn lemma_split_append(p: Seq<u8>, name: Seq<u8>)
    requires
        unbroken(name),
    ensures
        split(p + name) == split(p).drop_last().push(split(p).last() + name),
    decreases name.len(),
{
    lemma_split_nonempty(p);
    if name.len() == 0 {
        assert(p + name =~= p);
        assert(split(p).last() + name =~= split(p).last());
        assert(split(p) =~= split(p).drop_last().push(split(p).last()));
    } else {
        let rest = name.drop_last();
        assert forall|k: int| 0 <= k < rest.len() implies #[trigger] rest[k] != SLASH by {
            assert(rest[k] == name[k]);
        }
        lemma_split_append(p, rest);
        assert((p + name).drop_last() =~= p + rest);
        assert(name[name.len() - 1] != SLASH);
        let head = split(p + rest);
        assert(head.drop_last() =~= split(p).drop_last());
        assert(head.last() == split(p).last() + rest);
        assert((split(p).last() + rest).push(name.last()) =~= split(p).last() + name);
    }
}

/// A name that is joined to a path becomes its last component.
pub proof fn lemma_components_join(base: Seq<u8>, name: Seq<u8>)
    requires
        is_segment(name),
    ensures
        components(join(base, name)) == components(base).push(name),
        is_absolute(join(base, name)) == is_absolute(base),
{
    let pieces = split(base);
    lemma_split_nonempty(base);
    assert(name[0] != SLASH);
    let whole = join(base, name);
    if base.len() > 0 && base.last() != SLASH {
        let x = base.push(SLASH);
        assert(x.drop_last() =~= base);
        assert(split(x) == pieces.push(Seq::empty()));
        lemma_split_append(x, name);
        assert(split(x).drop_last() =~= pieces);
        assert(split(x).last() + name =~= name);
        assert(split(whole) == pieces.push(name));
        assert(pieces.push(name).drop_last() =~= pieces);
        assert(named(split(whole)) == named(pieces).push(name));
        assert(split(whole)[0] == pieces[0]);
        assert(whole[0] == base[0]);
    } else {
        lemma_split_append(base, name);
        assert(pieces.last() =~= Seq::<u8>::empty());
        assert(pieces.last() + name =~= name);
        let front = pieces.drop_last();
        assert(split(whole) == front.push(name));
        assert(front.push(name).drop_last() =~= front);
        assert(named(split(whole)) == named(front).push(name));
        assert(named(pieces) == named(front));
        if base.len() > 0 {
            assert(whole[0] == base[0]);
            lemma_split_nonempty(base.drop_last());
            assert(pieces.len() >= 2);
            assert(split(whole)[0] == pieces[0]);
        } else {
            assert(whole =~= name);
            assert(split(whole)[0] == name);
            assert(pieces[0] != cur_dir());
            assert(lead(whole) =~= lead(base));
        }
    }
    assert(lead(whole) == lead(base));
    assert(components(whole) =~= components(base).push(name));
}

/// A list of components as a path has them: names, with the root or a single
/// `.` in front of them, or neither.
pub open spec fn is_component_list(cs: Seq<Seq<u8>>) -> bool {
    forall|i: int|
        0 <= i < cs.len() ==> is_segment(#[trigger] cs[i]) || (i == 0 && (cs[i] == root_dir()
            || cs[i] == cur_dir()))
}

proof fn lemma_split_unbroken(p: Seq<u8>)
    ensures
        forall|i: int| 0 <= i < split(p).len() ==> unbroken(#[trigger] split(p)[i]),
    decreases p.len(),
{
    if p.len() > 0 {
        lemma_split_unbroken(p.drop_last());
        lemma_split_nonempty(p.drop_last());
        let head = split(p.drop_last());
        assert(unbroken(head[head.len() - 1]));
    }
}

proof fn lemma_named_segments(pieces: Seq<Seq<u8>>)
    requires
        forall|i: int| 0 <= i < pieces.len() ==> unbroken(#[trigger] pieces[i]),
    ensures
        forall|i: int| 0 <= i < named(pieces).len() ==> is_segment(#[trigger] named(pieces)[i]),
    decreases pieces.len(),
{
    if pieces.len() > 0 {
        lemma_named_segments(pieces.drop_last());
        assert(unbroken(pieces[pieces.len() - 1]));
        let before = named(pieces.drop_last());
        let all = named(pieces);
        assert forall|i: int| 0 <= i < all.len() implies is_segment(#[trigger] all[i]) by {
            if i < before.len() {
                assert(all[i] == before[i]);
            }
        }
    }
}

/// The components of a path are such a list.
pub proof fn lemma_components_wf(p: Seq<u8>)
    ensures
        is_component_list(components(p)),
{
    lemma_split_unbroken(p);
    lemma_named_segments(split(p));
    let names = named(split(p));
    let cs = components(p);
    assert forall|i: int| 0 <= i < cs.len() implies is_segment(#[trigger] cs[i]) || (i == 0 && (
    cs[i] == root_dir() || cs[i] == cur_dir())) by {
        if i >= lead(p).len() {
            assert(cs[i] == names[i - lead(p).len()]);
        }
    }
}

/// A path made from components has those components.
pub proof fn lemma_components_render(cs: Seq<Seq<u8>>)
    requires
        is_component_list(cs),
    ensures
        components(render(cs)) == cs,
    decreases cs.len(),
{
    if cs.len() == 0 {
        let empty = Seq::<u8>::empty();
        assert(render(cs) =~= empty);
        assert(split(empty)[0] =~= empty);
        assert(named(split(empty).drop_last()) =~= Seq::empty());
        assert(components(empty) =~= cs);
    } else {
        let front = cs.drop_last();
        let last = cs.last();
        assert forall|i: int| 0 <= i < front.len() implies is_segment(#[trigger] front[i]) || (i
            == 0 && (front[i] == root_dir() || front[i] == cur_dir())) by {
            assert(front[i] == cs[i]);
        }
        lemma_components_render(front);
        assert(cs[cs.len() - 1] == last);
        if is_segment(last) {
            lemma_components_join(render(front), last);
            assert(front.push(last) =~= cs);
        } else {
            assert(cs.len() == 1);
            assert(front =~= Seq::empty());
            let empty = Seq::<u8>::empty();
            assert(render(front) =~= empty);
            if last == root_dir() {
                assert(join(empty, last) =~= root_dir());
                lemma_components_of_root();
                assert(cs =~= seq![root_dir()]);
            } else {
                assert(!is_absolute(cur_dir()));
                assert(join(empty, last) =~= cur_dir());
                lemma_components_of_cur_dir();
                assert(cs =~= seq![cur_dir()]);
            }
        }
    }
}

proof fn lemma_components_of_root()
    ensures
        components(root_dir()) == seq![root_dir()],
{
    let p = root_dir();
    let empty = Seq::<u8>::empty();
    assert(p.drop_last() =~= empty);
    assert(split(p) == split(empty).push(empty));
    assert(split(p).drop_last() =~= split(empty));
    assert(named(split(empty).drop_last()) =~= Seq::empty());
    assert(named(split(empty)) =~= Seq::empty());
    assert(named(split(p)) =~= Seq::empty());
    assert(components(p) =~= seq![root_dir()]);
}

proof fn lemma_components_of_cur_dir()
    ensures
        components(cur_dir()) == seq![cur_dir()],
{
    let p = cur_dir();
    let empty = Seq::<u8>::empty();
    assert(unbroken(p));
    assert(empty + p =~= p);
    lemma_split_append(empty, p);
    assert(split(empty).drop_last() =~= Seq::empty());
    assert(split(p) =~= seq![p]);
    assert(named(seq![p].drop_last()) =~= Seq::empty());
    assert(named(split(p)) =~= Seq::empty());
    assert(components(p) =~= seq![cur_dir()]);
}

/// Two paths have the same canonical spelling exactly when they have the same
/// components, and the canonical spelling of a path names the same path.
pub proof fn law_canonical_spelling(a: Seq<u8>, b: Seq<u8>)
    ensures
        render(components(a)) == render(components(b)) <==> components(a) == components(b),
        components(render(components(a))) == components(a),
{
    lemma_components_wf(a);
    lemma_components_wf(b);
    lemma_components_render(components(a));
    lemma_components_render(components(b));
}

/// Lexical normalization drops `.`, lets `..` take back the name in front of it,
/// stops at the root, and changes nothing else.
pub proof fn law_lexical(cs: Seq<Seq<u8>>, name: Seq<u8>)
    ensures
        lexical(cs.push(cur_dir())) == lexical(cs),
        name != cur_dir() && name != parent_dir() && name != root_dir() ==> lexical(
            cs.push(name).push(parent_dir()),
        ) == lexical(cs),
        name != cur_dir() && name != parent_dir() ==> lexical(cs.push(name)) == lexical(cs).push(
            name,
        ),
        lexical(cs) == seq![root_dir()] ==> lexical(cs.push(parent_dir())) == seq![root_dir()],
        lexical(Seq::empty()) == Seq::<Seq<u8>>::empty(),
{
    assert(cs.push(cur_dir()).drop_last() =~= cs);
    assert(cs.push(name).drop_last() =~= cs);
    assert(cs.push(parent_dir()).drop_last() =~= cs);
    assert(cs.push(name).push(parent_dir()).drop_last() =~= cs.push(name));
    assert(lexical(cs).push(name).drop_last() =~= lexical(cs));
    assert(parent_dir() != cur_dir()) by {
        assert(parent_dir().len() == 2 && cur_dir().len() == 1);
    }
    if name != cur_dir() && name != parent_dir() && name != root_dir() {
        assert(lexical(cs.push(name)) == lexical(cs).push(name));
        assert(lexical(cs).push(name).last() == name);
        assert(cs.push(name).push(parent_dir()).last() == parent_dir());
    }
}

/// A path is seen from a directory as the directory, one separator and the path;
/// an absolute path is seen as it is.
pub proof fn law_join(base: Seq<u8>, p: Seq<u8>)
    ensures
        is_absolute(p) <==> p.len() > 0 && p[0] == 0x2f,
        is_absolute(p) ==> join(base, p) == p,
        !is_absolute(p) && base.len() == 0 ==> join(base, p) == p,
        !is_absolute(p) && base.len() > 0 && base.last() == 0x2f ==> join(base, p) == base + p,
        !is_absolute(p) && base.len() > 0 && base.last() != 0x2f ==> join(base, p) == base.push(
            0x2f,
        ) + p,
{
    assert(Seq::<u8>::empty() + p =~= p);
    if base.len() == 0 {
        assert(base + p =~= p);
    }
}

/// Separators and `.` pieces at the end do not count.
proof fn lemma_strip_tail(p: Seq<u8>)
    ensures
        components(strip_tail(p)) == components(p),
    decreases p.len(),
{
    if p.len() >= 2 && (p.last() == SLASH || (p.last() == DOT && p[p.len() - 2] == SLASH)) {
        let rest = p.drop_last();
        lemma_strip_tail(rest);
        lemma_split_nonempty(rest);
        assert(is_absolute(p) == is_absolute(rest)) by {
            assert(p[0] == rest[0]);
        }
        let head = split(rest);
        if p.last() == SLASH {
            assert(split(p) == head.push(Seq::empty()));
            assert(split(p).drop_last() =~= head);
            assert(split(p)[0] == head[0]);
            assert(!is_named(Seq::<u8>::empty()));
        } else {
            let before = rest.drop_last();
            lemma_split_nonempty(before);
            assert(rest.last() == SLASH);
            assert(head == split(before).push(Seq::empty()));
            assert(split(p) == head.drop_last().push(Seq::<u8>::empty().push(DOT)));
            assert(head.drop_last() =~= split(before));
            assert(Seq::<u8>::empty().push(DOT) =~= cur_dir());
            assert(split(p).drop_last() =~= split(before));
            assert(split(p)[0] == split(before)[0]);
            assert(head[0] == split(before)[0]);
            assert(named(split(p)) =~= named(split(before)));
            assert(named(head) =~= named(split(before)));
        }
        assert(components(p) =~= components(rest));
    }
}

proof fn lemma_through_last_slash(head: Seq<u8>, name: Seq<u8>)
    requires
        unbroken(name),
        head.len() == 0 || head.last() == SLASH,
    ensures
        through_last_slash(head + name) == head,
    decreases name.len(),
{
    if name.len() == 0 {
        assert(head + name =~= head);
    } else {
        let rest = name.drop_last();
        assert forall|k: int| 0 <= k < rest.len() implies #[trigger] rest[k] != SLASH by {
            assert(rest[k] == name[k]);
        }
        assert((head + name).drop_last() =~= head + rest);
        assert((head + name).last() == name[name.len() - 1]);
        lemma_through_last_slash(head, rest);
    }
}

/// What stands in front of a name that is joined to `dir`.
pub open spec fn dir_part(dir: Seq<u8>) -> Seq<u8> {
    if dir.len() == 0 || dir.last() == SLASH {
        dir
    } else {
        dir.push(SLASH)
    }
}

proof fn lemma_joined_name(dir: Seq<u8>, name: Seq<u8>)
    requires
        is_segment(name),
    ensures
        join(dir, name) == dir_part(dir) + name,
        strip_tail(join(dir, name)) == join(dir, name),
        through_last_slash(join(dir, name)) == dir_part(dir),
{
    let p = join(dir, name);
    let head = dir_part(dir);
    assert(name[0] != SLASH);
    assert(p =~= head + name);
    lemma_through_last_slash(head, name);
    assert(p.last() == name[name.len() - 1]);
    if p.len() >= 2 && p.last() == DOT && p[p.len() - 2] == SLASH {
        if name.len() == 1 {
            assert(name =~= cur_dir());
        } else {
            assert(p[p.len() - 2] == name[name.len() - 2]);
        }
    }
}

/// The directory of a file is the one that its name was joined to, and its file
/// name is that name.
pub proof fn law_parent_and_file_name(dir: Seq<u8>, name: Seq<u8>)
    requires
        is_segment(name),
        name != parent_dir(),
    ensures
        parent(join(dir, name)) is Some,
        components(parent(join(dir, name))->0) == components(dir),
        file_name(join(dir, name)) == Some(name),
{
    let p = join(dir, name);
    lemma_joined_name(dir, name);
    assert(p.skip(dir_part(dir).len() as int) =~= name);
    if p == root_dir() {
        assert(p.last() == name[name.len() - 1]);
    }
    lemma_strip_tail(dir_part(dir));
    lemma_strip_tail(dir);
    if dir.len() > 0 && dir.last() != SLASH {
        let slashed = dir.push(SLASH);
        assert(slashed.drop_last() =~= dir);
        assert(strip_tail(slashed) == strip_tail(dir));
    }
}

proof fn lemma_before_last_dot(head: Seq<u8>, tail: Seq<u8>)
    requires
        forall|k: int| 0 <= k < tail.len() ==> #[trigger] tail[k] != DOT,
    ensures
        before_last_dot(head.push(DOT) + tail) == head,
    decreases tail.len(),
{
    if tail.len() == 0 {
        assert(head.push(DOT) + tail =~= head.push(DOT));
        assert(head.push(DOT).drop_last() =~= head);
    } else {
        let rest = tail.drop_last();
        assert forall|k: int| 0 <= k < rest.len() implies #[trigger] rest[k] != DOT by {
            assert(rest[k] == tail[k]);
        }
        let whole = head.push(DOT) + tail;
        assert(whole.drop_last() =~= head.push(DOT) + rest);
        assert(whole.last() == tail[tail.len() - 1]);
        lemma_before_last_dot(head, rest);
    }
}

proof fn lemma_no_dot(name: Seq<u8>)
    requires
        forall|k: int| 0 <= k < name.len() ==> #[trigger] name[k] != DOT,
    ensures
        before_last_dot(name).len() == 0,
    decreases name.len(),
{
    if name.len() > 0 {
        let rest = name.drop_last();
        assert forall|k: int| 0 <= k < rest.len() implies #[trigger] rest[k] != DOT by {
            assert(rest[k] == name[k]);
        }
        assert(name[name.len() - 1] != DOT);
        lemma_no_dot(rest);
    }
}

/// A new extension takes the place of what stands behind the last dot of a file
/// name, and is added where the name has no dot; the directory stays.
pub proof fn law_with_extension(
    dir: Seq<u8>,
    base: Seq<u8>,
    old_extension: Seq<u8>,
    extension: Seq<char>,
)
    requires
        base.len() > 0,
        forall|k: int| 0 <= k < old_extension.len() ==> #[trigger] old_extension[k] != DOT,
        unbroken(base),
        unbroken(old_extension),
    ensures
        is_segment(base.push(DOT) + old_extension) && base.push(DOT) + old_extension
            != parent_dir() ==> with_extension(
            join(dir, base.push(DOT) + old_extension),
            extension,
        ) == dir_part(dir) + base + seq![DOT] + encode_utf8(extension),
        is_segment(base) && (forall|k: int| 0 <= k < base.len() ==> #[trigger] base[k] != DOT)
            ==> with_extension(join(dir, base), extension) == dir_part(dir) + base + seq![DOT]
            + encode_utf8(extension),
{
    let name = base.push(DOT) + old_extension;
    if is_segment(name) && name != parent_dir() {
        lemma_joined_name(dir, name);
        law_parent_and_file_name(dir, name);
        lemma_before_last_dot(base, old_extension);
    }
    if is_segment(base) && forall|k: int| 0 <= k < base.len() ==> #[trigger] base[k] != DOT {
        lemma_joined_name(dir, base);
        assert(base[0] != DOT);
        law_parent_and_file_name(dir, base);
        lemma_no_dot(base);
    }
}

} // verus!
