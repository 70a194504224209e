use std::path::{Path, PathBuf};

use aenv::fs_path::{lists_eq, FsPath};
use aenv::text::{
    contains, decimal_text, ends_with, has_token, last_segment, lower_text, replace, split_text,
    trim, trim_end_matches,
};

fn fs(text: &str) -> FsPath {
    FsPath::from_text(text)
}

fn samples() -> Vec<&'static str> {
    vec![
        "", "/", "//", ".", "./", "..", "a", "a/", "a/b", "/a", "/a/", "/a//b", "a/./b", "./a",
        "././a", "/.", "/./", "/..", "a/..", "a/../b", "a/b/..", "../a", "/a/b/../../..", ".a",
        "a.b", ".a.b", "a.", "x/a.tar.gz", "x/.hidden", "x/..", "x/.", "a/.b/", "ä/ö.ü",
    ]
}

#[test]
fn components_agree_with_std() {
    for a in samples() {
        for b in samples() {
            assert_eq!(
                lists_eq(&fs(a).components(), &fs(b).components()),
                Path::new(a) == Path::new(b),
                "{a:?} {b:?}"
            );
        }
    }
}

#[test]
fn canonical_spelling_names_the_same_path() {
    for a in samples() {
        let spelling = fs(a).canonical_spelling().to_text().unwrap();
        assert_eq!(Path::new(&spelling), Path::new(a), "{a:?}");
        for b in samples() {
            assert_eq!(
                fs(a).canonical_spelling() == fs(b).canonical_spelling(),
                Path::new(a) == Path::new(b),
                "{a:?} {b:?}"
            );
        }
    }
}

#[test]
fn join_agrees_with_std() {
    for a in samples() {
        for b in samples() {
            let joined = fs(a).join(&fs(b)).to_text().unwrap();
            let std = Path::new(a).join(b);
            assert_eq!(joined, std.to_str().unwrap(), "{a:?} {b:?}");
            assert_eq!(fs(a).join_text(b).to_text().unwrap(), joined);
        }
    }
}

#[test]
fn parent_and_file_name_agree_with_std() {
    for a in samples() {
        let parent = fs(a).parent().map(|p| p.to_text().unwrap());
        assert_eq!(
            parent.as_deref(),
            Path::new(a).parent().map(|p| p.to_str().unwrap()),
            "{a:?}"
        );
        let name = fs(a).file_name().map(|p| p.to_text().unwrap());
        assert_eq!(
            name.as_deref(),
            Path::new(a).file_name().map(|p| p.to_str().unwrap()),
            "{a:?}"
        );
        assert_eq!(fs(a).is_absolute(), Path::new(a).is_absolute());
    }
}

#[test]
fn with_extension_agrees_with_std() {
    for a in samples() {
        assert_eq!(
            fs(a).with_extension("tmp").to_text().unwrap(),
            Path::new(a).with_extension("tmp").to_str().unwrap(),
            "{a:?}"
        );
    }
}

#[test]
fn lexical_normalization_resolves_dots() {
    let cases = [
        ("/a/b/../c", "/a/c"),
        ("/a/./b", "/a/b"),
        ("/../a", "/a"),
        ("a/../../b", "../b"),
        ("a/..", ""),
        ("./a", "a"),
        ("/", "/"),
    ];
    for (raw, normal) in cases {
        assert_eq!(
            PathBuf::from(fs(raw).lexically_normalized().to_text().unwrap()),
            PathBuf::from(normal),
            "{raw:?}"
        );
    }
}

#[test]
fn bytes_that_are_no_text_are_repaired_for_display() {
    let path = FsPath {
        bytes: b"/a\xffb".to_vec(),
    };
    assert_eq!(path.to_text(), None);
    assert_eq!(path.to_text_lossy(), "/a\u{fffd}b");
    assert_eq!(fs("/ä").to_text().as_deref(), Some("/ä"));
    assert_eq!(fs("/ä").to_text_lossy(), "/ä");
}

#[test]
fn text_functions_agree_with_std() {
    let texts = [
        "", " ", "a", " a ", "\t a b \n", "aXbXc", "XX", "XaX", "{v}-{v}", "a.b.", "..", "ÄöÜ",
        "\u{3000}x\u{2029}", "/a/b", "a/", "ABC def",
    ];
    for a in texts {
        assert_eq!(trim(a), a.trim(), "{a:?}");
        assert_eq!(trim_end_matches(a, '.'), a.trim_end_matches('.'));
        assert_eq!(lower_text(a), a.to_ascii_lowercase());
        assert_eq!(
            split_text(a, '.'),
            a.split('.').map(str::to_owned).collect::<Vec<_>>()
        );
        assert_eq!(last_segment(a), a.rsplit('/').next().unwrap());
        for p in ["X", "{v}", "XX", "a", "b."] {
            assert_eq!(contains(a, p), a.contains(p));
            assert_eq!(ends_with(a, p), a.ends_with(p));
            assert_eq!(replace(a, p, "YX"), a.replace(p, "YX"));
        }
    }
    for n in [0, 7, 10, 99, 100, u64::MAX] {
        assert_eq!(decimal_text(n), n.to_string());
    }
}

#[test]
fn tokens_stand_alone() {
    assert!(has_token("a b c", "b"));
    assert!(has_token("a:b", "b"));
    assert!(has_token("b", "b"));
    assert!(has_token("v=\"1.2\"", "1.2"));
    assert!(!has_token("ab", "b"));
    assert!(!has_token("a b", "a b"));
    assert!(has_token("a  b", ""));
    assert!(!has_token("ab", ""));
    assert!(has_token("", ""));
}
