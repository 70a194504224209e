//! How the paths in a configuration are resolved.
use crate::fs_path::{FsPath, is_absolute, join, lemma_encode_concat, lossy_text};
use crate::text::{contains, has_part, occurs_at, replace, replaced, trim, trimmed};
use crate::text_laws::{law_occurs_at, law_replaced};
use vstd::prelude::*;
use vstd::utf8::*;

verus! {

/// What stands for the home path in a configured path.
pub const HOME_PATH_PLACEHOLDER: &'static str = "$AENV_HOME";

/// What stands for the runtime path in a configured path.
pub const RUNTIME_PATH_PLACEHOLDER: &'static str = "$AENV_RUNTIME";

/// `path` with the placeholder of the home path replaced. A path that is no
/// text has no placeholder.
pub open spec fn home_expanded(home_path: Seq<u8>, path: Seq<u8>) -> Seq<u8> {
    if valid_utf8(path) && has_part(decode_utf8(path), HOME_PATH_PLACEHOLDER@) {
        encode_utf8(replaced(decode_utf8(path), HOME_PATH_PLACEHOLDER@, lossy_text(home_path)))
    } else {
        path
    }
}

/// `path` with the placeholders of the home path and then of the runtime path
/// replaced.
pub open spec fn runtime_expanded(
    home_path: Seq<u8>,
    runtime_path: Seq<u8>,
    path: Seq<u8>,
) -> Seq<u8> {
    if valid_utf8(path) {
        encode_utf8(
            replaced(
                replaced(decode_utf8(path), HOME_PATH_PLACEHOLDER@, lossy_text(home_path)),
                RUNTIME_PATH_PLACEHOLDER@,
                lossy_text(runtime_path),
            ),
        )
    } else {
        path
    }
}

/// A configured path after it was resolved: the placeholder is replaced, and a
/// relative path is taken relative to the directory of the configuration.
pub open spec fn resolved(home_path: Seq<u8>, config_dir: Seq<u8>, raw: Seq<u8>) -> Seq<u8> {
    join(config_dir, home_expanded(home_path, raw))
}

/// Like `resolved`, where the runtime path has a placeholder too.
pub open spec fn runtime_resolved(
    home_path: Seq<u8>,
    runtime_path: Seq<u8>,
    config_dir: Seq<u8>,
    raw: Seq<u8>,
) -> Seq<u8> {
    join(config_dir, runtime_expanded(home_path, runtime_path, raw))
}

/// The model of an optional path.
pub open spec fn path_option(path: Option<FsPath>) -> Option<Seq<u8>> {
    match path {
        Some(path) => Some(path@),
        None => None,
    }
}

/// An optional path after it was resolved; where it is not set it becomes
/// `default` under the home path.
pub open spec fn resolved_or(
    home_path: Seq<u8>,
    config_dir: Seq<u8>,
    raw: Option<Seq<u8>>,
    default: Seq<char>,
) -> Seq<u8> {
    match raw {
        Some(raw) => resolved(home_path, config_dir, raw),
        None => join(home_path, encode_utf8(default)),
    }
}

/// `path` as seen from `base_dir`.
pub fn resolve_relative_to(base_dir: &FsPath, path: &FsPath) -> (r: FsPath)
    ensures
        r@ == join(base_dir@, path@),
{
    if path.is_absolute() {
        path.clone()
    } else {
        base_dir.join(path)
    }
}

/// Resolves a configured path.
pub fn resolve_path(home_path: &FsPath, config_dir: &FsPath, raw: &FsPath) -> (r: FsPath)
    ensures
        r@ == resolved(home_path@, config_dir@, raw@),
{
    proof {
        reveal_strlit("$AENV_HOME");
    }
    let expanded: FsPath = match raw.to_text() {
        Some(text) => if contains(text.as_str(), HOME_PATH_PLACEHOLDER) {
            FsPath::from_text(
                replace(
                    text.as_str(),
                    HOME_PATH_PLACEHOLDER,
                    home_path.to_text_lossy().as_str(),
                ).as_str(),
            )
        } else {
            raw.clone()
        },
        None => raw.clone(),
    };
    resolve_relative_to(config_dir, &expanded)
}

/// Resolves a configured path that may also name the runtime path.
pub fn resolve_runtime_path(
    home_path: &FsPath,
    runtime_path: &FsPath,
    config_dir: &FsPath,
    raw: &FsPath,
) -> (r: FsPath)
    ensures
        r@ == runtime_resolved(home_path@, runtime_path@, config_dir@, raw@),
{
    proof {
        reveal_strlit("$AENV_HOME");
        reveal_strlit("$AENV_RUNTIME");
    }
    let expanded: FsPath = match raw.to_text() {
        Some(text) => {
            let home: String = replace(
                text.as_str(),
                HOME_PATH_PLACEHOLDER,
                home_path.to_text_lossy().as_str(),
            );
            FsPath::from_text(
                replace(
                    home.as_str(),
                    RUNTIME_PATH_PLACEHOLDER,
                    runtime_path.to_text_lossy().as_str(),
                ).as_str(),
            )
        },
        None => raw.clone(),
    };
    resolve_relative_to(config_dir, &expanded)
}

/// Resolves an optional path in place; where it is not set it becomes
/// `default_relative_path` under the home path.
pub fn resolve_optional_config_path_or(
    path: &mut Option<FsPath>,
    home_path: &FsPath,
    config_dir: &FsPath,
    default_relative_path: &str,
)
    ensures
        path_option(*final(path)) == Some(
            resolved_or(
                home_path@,
                config_dir@,
                path_option(*old(path)),
                default_relative_path@,
            ),
        ),
{
    let resolved: FsPath = match path.take() {
        Some(raw) => resolve_path(home_path, config_dir, &raw),
        None => home_path.join_text(default_relative_path),
    };
    *path = Some(resolved);
}

/// Resolves a path in place.
pub fn resolve_in_place(path: &mut FsPath, home_path: &FsPath, config_dir: &FsPath)
    ensures
        final(path)@ == resolved(home_path@, config_dir@, old(path)@),
{
    let resolved: FsPath = resolve_path(home_path, config_dir, path);
    *path = resolved;
}

/// Resolves an optional path in place, where it is set.
pub fn resolve_set_path(path: &mut Option<FsPath>, home_path: &FsPath, config_dir: &FsPath)
    ensures
        path_option(*final(path)) == (match path_option(*old(path)) {
            Some(raw) => Some(resolved(home_path@, config_dir@, raw)),
            None => None,
        }),
{
    let taken: Option<FsPath> = path.take();
    *path = match taken {
        Some(raw) => Some(resolve_path(home_path, config_dir, &raw)),
        None => None,
    };
}

/// A path from the environment: the text without white space around it.
pub fn parse_required_path(raw: &str) -> (r: FsPath)
    ensures
        r@ == encode_utf8(trimmed(raw@)),
{
    FsPath::from_text(trim(raw).as_str())
}

/// A text from the environment without white space around it.
pub fn parse_trimmed_string(raw: &str) -> (r: String)
    ensures
        r@ == trimmed(raw@),
{
    trim(raw)
}

/// A path without a placeholder.
pub open spec fn plain(path: Seq<u8>) -> bool {
    valid_utf8(path) ==> !has_part(decode_utf8(path), HOME_PATH_PLACEHOLDER@) && !has_part(
        decode_utf8(path),
        RUNTIME_PATH_PLACEHOLDER@,
    )
}

/// Replacing what does not occur changes nothing.
proof fn lemma_replaced_absent(s: Seq<char>, pattern: Seq<char>, with: Seq<char>)
    requires
        !has_part(s, pattern),
    ensures
        replaced(s, pattern, with) == s,
    decreases s.len(),
{
    if pattern.len() > 0 && s.len() >= pattern.len() {
        assert(!occurs_at(s, pattern, 0));
        let rest = s.drop_first();
        assert(!has_part(rest, pattern)) by {
            if has_part(rest, pattern) {
                let i = choose|i: int| occurs_at(rest, pattern, i);
                assert(s.subrange(i + 1, i + 1 + pattern.len()) =~= rest.subrange(
                    i,
                    i + pattern.len(),
                ));
                assert(occurs_at(s, pattern, i + 1));
            }
        }
        lemma_replaced_absent(rest, pattern, with);
        assert(seq![s[0]] + rest =~= s);
    }
}

/// An absolute path without a placeholder is left as it is, whatever the home
/// path and the directory of the configuration are.
pub proof fn law_absolute_path_is_kept(
    home_path: Seq<u8>,
    runtime_path: Seq<u8>,
    config_dir: Seq<u8>,
    raw: Seq<u8>,
)
    requires
        is_absolute(raw),
        plain(raw),
    ensures
        resolved(home_path, config_dir, raw) == raw,
        runtime_resolved(home_path, runtime_path, config_dir, raw) == raw,
{
    lemma_plain_expansion(home_path, runtime_path, raw);
}

/// A relative path without a placeholder is taken relative to the directory of
/// the configuration.
pub proof fn law_relative_path_is_joined(
    home_path: Seq<u8>,
    runtime_path: Seq<u8>,
    config_dir: Seq<u8>,
    raw: Seq<u8>,
)
    requires
        !is_absolute(raw),
        plain(raw),
    ensures
        resolved(home_path, config_dir, raw) == join(config_dir, raw),
        runtime_resolved(home_path, runtime_path, config_dir, raw) == join(config_dir, raw),
{
    lemma_plain_expansion(home_path, runtime_path, raw);
}

proof fn lemma_plain_expansion(home_path: Seq<u8>, runtime_path: Seq<u8>, raw: Seq<u8>)
    requires
        plain(raw),
    ensures
        home_expanded(home_path, raw) == raw,
        runtime_expanded(home_path, runtime_path, raw) == raw,
{
    if valid_utf8(raw) {
        let text = decode_utf8(raw);
        lemma_replaced_absent(text, HOME_PATH_PLACEHOLDER@, lossy_text(home_path));
        lemma_replaced_absent(text, RUNTIME_PATH_PLACEHOLDER@, lossy_text(runtime_path));
        decode_utf8_encode_utf8(raw);
    }
}

/// A path that begins with the placeholder of the home path, and holds none
/// after it, becomes the home path followed by the rest.
pub proof fn law_home_placeholder(home_path: Seq<u8>, config_dir: Seq<u8>, rest: Seq<char>)
    requires
        valid_utf8(home_path),
        is_absolute(home_path),
        !has_part(rest, HOME_PATH_PLACEHOLDER@),
    ensures
        resolved(home_path, config_dir, encode_utf8(HOME_PATH_PLACEHOLDER@ + rest)) == home_path
            + encode_utf8(rest),
{
    reveal_strlit("$AENV_HOME");
    let placeholder = HOME_PATH_PLACEHOLDER@;
    let text = placeholder + rest;
    encode_utf8_valid_utf8(text);
    encode_utf8_decode_utf8(text);
    assert(text.subrange(0, placeholder.len() as int) =~= placeholder);
    assert(occurs_at(text, placeholder, 0));
    assert(text.skip(placeholder.len() as int) =~= rest);
    lemma_replaced_absent(rest, placeholder, lossy_text(home_path));
    let expanded = decode_utf8(home_path) + rest;
    assert(replaced(text, placeholder, lossy_text(home_path)) == expanded);
    lemma_encode_concat(decode_utf8(home_path), rest);
    decode_utf8_encode_utf8(home_path);
    assert(is_absolute(encode_utf8(expanded)));
}

/// The same of a path that may also name the runtime path, where the home path
/// and the rest do not name it.
pub proof fn law_home_placeholder_in_runtime_path(
    home_path: Seq<u8>,
    runtime_path: Seq<u8>,
    config_dir: Seq<u8>,
    rest: Seq<char>,
)
    requires
        valid_utf8(home_path),
        is_absolute(home_path),
        !has_part(rest, HOME_PATH_PLACEHOLDER@),
        !has_part(decode_utf8(home_path) + rest, RUNTIME_PATH_PLACEHOLDER@),
    ensures
        runtime_resolved(
            home_path,
            runtime_path,
            config_dir,
            encode_utf8(HOME_PATH_PLACEHOLDER@ + rest),
        ) == home_path + encode_utf8(rest),
{
    reveal_strlit("$AENV_HOME");
    let placeholder = HOME_PATH_PLACEHOLDER@;
    let text = placeholder + rest;
    encode_utf8_valid_utf8(text);
    encode_utf8_decode_utf8(text);
    assert(text.subrange(0, placeholder.len() as int) =~= placeholder);
    assert(occurs_at(text, placeholder, 0));
    assert(text.skip(placeholder.len() as int) =~= rest);
    lemma_replaced_absent(rest, placeholder, lossy_text(home_path));
    let expanded = decode_utf8(home_path) + rest;
    assert(replaced(text, placeholder, lossy_text(home_path)) == expanded);
    lemma_replaced_absent(expanded, RUNTIME_PATH_PLACEHOLDER@, lossy_text(runtime_path));
    lemma_encode_concat(decode_utf8(home_path), rest);
    decode_utf8_encode_utf8(home_path);
    assert(is_absolute(encode_utf8(expanded)));
}

/// A path that begins with the placeholder of the runtime path, and holds none
/// after it, becomes the runtime path followed by the rest.
pub proof fn law_runtime_placeholder(
    home_path: Seq<u8>,
    runtime_path: Seq<u8>,
    config_dir: Seq<u8>,
    rest: Seq<char>,
)
    requires
        valid_utf8(runtime_path),
        is_absolute(runtime_path),
        !has_part(RUNTIME_PATH_PLACEHOLDER@ + rest, HOME_PATH_PLACEHOLDER@),
        !has_part(rest, RUNTIME_PATH_PLACEHOLDER@),
    ensures
        runtime_resolved(
            home_path,
            runtime_path,
            config_dir,
            encode_utf8(RUNTIME_PATH_PLACEHOLDER@ + rest),
        ) == runtime_path + encode_utf8(rest),
{
    reveal_strlit("$AENV_RUNTIME");
    let placeholder = RUNTIME_PATH_PLACEHOLDER@;
    let text = placeholder + rest;
    encode_utf8_valid_utf8(text);
    encode_utf8_decode_utf8(text);
    lemma_replaced_absent(text, HOME_PATH_PLACEHOLDER@, lossy_text(home_path));
    assert(text.subrange(0, placeholder.len() as int) =~= placeholder);
    assert(occurs_at(text, placeholder, 0));
    assert(text.skip(placeholder.len() as int) =~= rest);
    lemma_replaced_absent(rest, placeholder, lossy_text(runtime_path));
    let expanded = decode_utf8(runtime_path) + rest;
    assert(replaced(text, placeholder, lossy_text(runtime_path)) == expanded);
    lemma_encode_concat(decode_utf8(runtime_path), rest);
    decode_utf8_encode_utf8(runtime_path);
    assert(is_absolute(encode_utf8(expanded)));
}

/// Where the directory of the configuration is absolute, every resolved path
/// is.
pub proof fn law_resolved_paths_are_absolute(
    home_path: Seq<u8>,
    runtime_path: Seq<u8>,
    config_dir: Seq<u8>,
    raw: Seq<u8>,
)
    requires
        is_absolute(config_dir),
    ensures
        is_absolute(resolved(home_path, config_dir, raw)),
        is_absolute(runtime_resolved(home_path, runtime_path, config_dir, raw)),
{
}

/// Whether a path names the home path: it is text with the placeholder in it.
pub open spec fn names_home(raw: Seq<u8>) -> bool {
    valid_utf8(raw) && exists|i: int| occurs_at(decode_utf8(raw), "$AENV_HOME"@, i)
}

/// A path that does not name the home path is seen from the directory of the
/// configuration, whatever else is in it.
pub proof fn law_path_without_home(home_path: Seq<u8>, config_dir: Seq<u8>, raw: Seq<u8>)
    requires
        !names_home(raw),
    ensures
        resolved(home_path, config_dir, raw) == join(config_dir, raw),
{
}

proof fn lemma_first_dollar(head: Seq<char>, pattern: Seq<char>, rest: Seq<char>)
    requires
        pattern.len() > 0,
        pattern[0] == '$',
        forall|k: int| 0 <= k < head.len() ==> #[trigger] head[k] != '$',
    ensures
        forall|i: int|
            0 <= i < head.len() ==> !(#[trigger] occurs_at(head + pattern + rest, pattern, i)),
        occurs_at(head + pattern + rest, pattern, head.len() as int),
{
    let s = head + pattern + rest;
    assert forall|i: int| 0 <= i < head.len() implies !(#[trigger] occurs_at(s, pattern, i)) by {
        if occurs_at(s, pattern, i) {
            law_occurs_at(s, pattern, i);
            assert(s[i + 0] == pattern[0]);
            assert(s[i] == head[i]);
        }
    }
    assert(s.subrange(head.len() as int, (head.len() + pattern.len()) as int) =~= pattern);
}

/// Where the placeholder of the home path stands first in a path, the home path
/// takes its place: what is before it stays, and what is behind it is treated
/// alike.
pub proof fn law_home_is_expanded(
    home_path: Seq<u8>,
    runtime_path: Seq<u8>,
    config_dir: Seq<u8>,
    head: Seq<char>,
    rest: Seq<char>,
)
    requires
        forall|k: int| 0 <= k < head.len() ==> #[trigger] head[k] != '$',
    ensures
        ({
            let home = lossy_text(home_path);
            let expanded = head + home + replaced(rest, "$AENV_HOME"@, home);
            let raw = encode_utf8(head + "$AENV_HOME"@ + rest);
            &&& resolved(home_path, config_dir, raw) == join(config_dir, encode_utf8(expanded))
            &&& runtime_resolved(home_path, runtime_path, config_dir, raw) == join(
                config_dir,
                encode_utf8(replaced(expanded, "$AENV_RUNTIME"@, lossy_text(runtime_path))),
            )
        }),
{
    reveal_strlit("$AENV_HOME");
    let placeholder = "$AENV_HOME"@;
    let text = head + placeholder + rest;
    encode_utf8_valid_utf8(text);
    encode_utf8_decode_utf8(text);
    lemma_first_dollar(head, placeholder, rest);
    assert(has_part(text, placeholder));
    law_replaced(head, placeholder, rest, lossy_text(home_path));
}

/// Where a path does not name the home path, and the placeholder of the runtime
/// path stands first in it, the runtime path takes its place: what is before it
/// stays, and what is behind it is treated alike.
pub proof fn law_runtime_is_expanded(
    home_path: Seq<u8>,
    runtime_path: Seq<u8>,
    config_dir: Seq<u8>,
    head: Seq<char>,
    rest: Seq<char>,
)
    requires
        forall|k: int| 0 <= k < head.len() ==> #[trigger] head[k] != '$',
        !has_part(head + "$AENV_RUNTIME"@ + rest, "$AENV_HOME"@),
    ensures
        ({
            let runtime = lossy_text(runtime_path);
            runtime_resolved(
                home_path,
                runtime_path,
                config_dir,
                encode_utf8(head + "$AENV_RUNTIME"@ + rest),
            ) == join(
                config_dir,
                encode_utf8(head + runtime + replaced(rest, "$AENV_RUNTIME"@, runtime)),
            )
        }),
{
    reveal_strlit("$AENV_RUNTIME");
    let placeholder = "$AENV_RUNTIME"@;
    let text = head + placeholder + rest;
    encode_utf8_valid_utf8(text);
    encode_utf8_decode_utf8(text);
    lemma_replaced_absent(text, "$AENV_HOME"@, lossy_text(home_path));
    lemma_first_dollar(head, placeholder, rest);
    law_replaced(head, placeholder, rest, lossy_text(runtime_path));
}

} // verus!
