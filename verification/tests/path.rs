use shotpaste::failure::Failure;
use shotpaste::path::{contains, copy_paths, FilePath};
use shotpaste::platform::Platform;

fn path(text: &str) -> FilePath {
    let mut parts: Vec<Vec<u8>> = Vec::new();
    if text.starts_with('/') {
        parts.push(b"/".to_vec());
    }
    for part in text.split('/') {
        if !part.is_empty() {
            parts.push(part.as_bytes().to_vec());
        }
    }
    let name = match parts.last() {
        Some(last) if last != b"/" && last != b".." => Some(last.clone()),
        _ => None,
    };
    FilePath { bytes: text.as_bytes().to_vec(), parts, name, wide: false }
}

fn raw(bytes: &[u8], name: &[u8]) -> FilePath {
    FilePath { bytes: bytes.to_vec(), parts: vec![name.to_vec()], name: Some(name.to_vec()), wide: false }
}

#[test]
fn paths_are_the_same_by_component() {
    assert!(path("/a/b").same(&path("/a//b/")));
    assert!(!path("/a/b").same(&path("a/b")));
    assert!(!path("/a/b").same(&path("/a/b/c")));
    assert!(!path("/a/b").same(&path("/a/B")));
}

#[test]
fn names_are_compared_across_folders() {
    assert!(path("/a/1.png").same_name(&path("/b/c/1.png")));
    assert!(!path("/a/1.png").same_name(&path("/a/2.png")));
    assert!(!path("").same_name(&path("")));
    assert!(!path("/a").same_name(&path("")));
}

#[test]
fn copies_are_the_same_path() {
    let one = path("/home/me/x.png");
    let two = one.duplicate();
    assert!(one.same(&two));
    assert_eq!(one.bytes, two.bytes);
    assert_eq!(one.name, two.name);
    let list = copy_paths(&vec![path("/a"), path("/b")]);
    assert_eq!(list.len(), 2);
    assert_eq!(list[1].bytes, b"/b".to_vec());
}

#[test]
fn contains_looks_at_every_path() {
    let list = vec![path("/a"), path("/b")];
    assert!(contains(&list, &path("/b/")));
    assert!(!contains(&list, &path("/c")));
    assert!(!contains(&Vec::new(), &path("/c")));
}

#[test]
fn display_replaces_what_is_not_text() {
    assert_eq!(path("/a/é.png").display(), "/a/é.png");
    assert_eq!(raw(b"/a/\xff.png", b"\xff.png").display(), "/a/\u{fffd}.png");
}

#[test]
fn half_a_pair_is_one_replacement_character_on_windows() {
    let odd = |wide: bool| FilePath {
        bytes: b"C:\\\xed\xa0\x80x\xed\xbf\xbf.png".to_vec(),
        parts: vec![],
        name: Some(b"\xed\xa0\x80x\xed\xbf\xbf.png".to_vec()),
        wide,
    };
    assert_eq!(odd(true).display(), "C:\\\u{fffd}x\u{fffd}.png");
    assert_eq!(odd(true).label(), "\u{fffd}x\u{fffd}.png");
    assert_eq!(odd(false).label(), "\u{fffd}\u{fffd}\u{fffd}x\u{fffd}\u{fffd}\u{fffd}.png");
    assert_eq!(odd(true).to_text(), None);
    assert_eq!(odd(true).join("y", Platform::Windows).display(), "C:\\\u{fffd}x\u{fffd}.png\\y");
    let whole = FilePath { wide: true, ..path("한.png") };
    assert_eq!(whole.display(), "한.png");
    assert_eq!(whole.label(), "한.png");
}

#[test]
fn label_is_the_name_or_the_whole_path() {
    assert_eq!(path("/a/shot.png").label(), "shot.png");
    assert_eq!(path("/").label(), "/");
    assert_eq!(path("/a/..").label(), "/a/..");
    assert_eq!(raw(b"\xff", b"\xff").label(), "\u{fffd}");
}

#[test]
fn to_text_wants_valid_utf8() {
    assert_eq!(path("/a/é.png").to_text(), Some("/a/é.png".to_string()));
    assert_eq!(raw(b"/a/\xff.png", b"\xff.png").to_text(), None);
}

#[test]
fn join_adds_one_separator() {
    let joined = path("/home").join("Pictures", Platform::Linux);
    assert_eq!(joined.bytes, b"/home/Pictures".to_vec());
    assert_eq!(joined.name, Some(b"Pictures".to_vec()));
    assert!(joined.same(&path("/home/Pictures")));
    assert_eq!(path("/").join("x", Platform::MacOs).bytes, b"/x".to_vec());
    let windows = raw(b"C:\\Users", b"Users").join("me", Platform::Windows);
    assert_eq!(windows.bytes, b"C:\\Users\\me".to_vec());
    let root = raw(b"C:\\", b"C:").join("me", Platform::Windows);
    assert_eq!(root.bytes, b"C:\\me".to_vec());
    let drive = raw(b"C:", b"C:").join("me", Platform::Windows);
    assert_eq!(drive.bytes, b"C:me".to_vec());
    let no_drive = raw(b"C:", b"C:").join("me", Platform::Linux);
    assert_eq!(no_drive.bytes, b"C:/me".to_vec());
    let slash = raw(b"C:/", b"C:").join("me", Platform::Windows);
    assert_eq!(slash.bytes, b"C:/me".to_vec());
    let other = raw(b"a\\", b"a\\").join("b", Platform::Linux);
    assert_eq!(other.bytes, b"a\\/b".to_vec());
}

#[test]
fn current_is_the_dot() {
    let here = FilePath::current();
    assert_eq!(here.bytes, b".".to_vec());
    assert_eq!(here.display(), ".");
}

#[test]
fn extension_is_what_follows_the_last_dot() {
    assert!(path("/a/shot.png").extension_is("png"));
    assert!(path("/a/shot.x.png").extension_is("png"));
    assert!(!path("/a/shot.PNG").extension_is("png"));
    assert!(!path("/a/shot.png.tmp").extension_is("png"));
    assert!(!path("/a/.png").extension_is("png"));
    assert!(!path("/a/png").extension_is("png"));
    assert!(!path("/a/shot.").extension_is("png"));
    assert!(!path("/").extension_is("png"));
    assert!(raw(b"/a/\xff.png", b"\xff.png").extension_is("png"));
}

#[test]
fn failures_tell_what_and_why() {
    assert_eq!(Failure::plain("no".to_string()).text(), "no");
    let caused = Failure::caused("failed to read x".to_string(), "gone".to_string());
    assert_eq!(caused.text(), "failed to read x: gone");
    assert_eq!(caused.duplicate().text(), "failed to read x: gone");
}
