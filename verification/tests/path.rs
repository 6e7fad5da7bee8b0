use spx_transcoder::path::{add_extension, find_last_component, holds_separator, join};
use std::path::Path;

const PATHS: [&str; 26] = [
    "", "/", "//", ".", "..", "./", "/.", "./.", "a", "a/", "a//", "a/.", "a/./.", "a/..", "a/../.",
    "/a", "/a/b", "/a/b/", "a.b", ".a", "a/.b", "a/b.", "/..", "é/ü", "...", "a/...",
];

#[test]
fn joining_agrees_with_std() {
    for base in PATHS {
        for part in PATHS {
            let expected = Path::new(base).join(part);
            assert_eq!(join(base, part), expected.to_str().unwrap(), "{:?} {:?}", base, part);
        }
    }
}

#[test]
fn last_components_agree_with_std() {
    for path in PATHS {
        let expected = Path::new(path).components().last();
        let expected = expected.map(|c| c.as_os_str().to_str().unwrap().to_string());
        assert_eq!(find_last_component(path), expected, "{:?}", path);
    }
}

#[test]
fn extensions_are_added_where_std_sees_a_file_name() {
    for path in PATHS {
        let result = add_extension(path, "pcm");
        match Path::new(path).file_name() {
            None => assert_eq!(result, path),
            Some(name) => {
                let name = format!("{}.pcm", name.to_str().unwrap());
                let expected = Path::new(path).with_file_name(&name);
                assert_eq!(Path::new(&result), expected, "{:?}", path);
                assert!(result.ends_with(&name));
            }
        }
    }
}

#[test]
fn extensions_are_appended_whole() {
    assert_eq!(add_extension("/feel/the", "formatted"), "/feel/the.formatted");
    assert_eq!(add_extension("/feel/the.formatted", "dark.side"), "/feel/the.formatted.dark.side");
    assert_eq!(add_extension("/feel/the", ""), "/feel/the");
    assert_eq!(add_extension("/feel/the/", "x"), "/feel/the.x");
    assert_eq!(add_extension("/feel/..", "x"), "/feel/..");
}

#[test]
fn ordinary_names_end_the_stored_path() {
    assert_eq!(join("/data/bucket", "abc"), "/data/bucket/abc");
    assert_eq!(add_extension(&join("/data/bucket", "abc"), "pcm"), "/data/bucket/abc.pcm");
    assert_eq!(find_last_component("/data/bucket/abc"), Some("abc".to_string()));
}

#[test]
fn separators_are_found() {
    assert!(holds_separator("a/b"));
    assert!(holds_separator("/"));
    assert!(!holds_separator("pcm"));
    assert!(!holds_separator(""));
}
