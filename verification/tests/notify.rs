use shotpaste::notify::{
    app_id, error, success_burst, success_single, truncate, ToastSetup, AUMID,
};
use shotpaste::path::FilePath;
use shotpaste::platform::Platform;

fn shot() -> FilePath {
    FilePath {
        bytes: b"/pics/shot.png".to_vec(),
        parts: vec![b"/".to_vec(), b"pics".to_vec(), b"shot.png".to_vec()],
        name: Some(b"shot.png".to_vec()),
        wide: false,
    }
}

#[test]
fn one_push_is_told_with_its_name() {
    let toast = success_single(&shot());
    assert_eq!(toast.title, "Screenshot copied");
    assert_eq!(toast.body, "Pushed image + file + path to clipboard\nshot.png");
}

#[test]
fn a_path_without_a_name_is_told_whole() {
    let root = FilePath { bytes: b"/".to_vec(), parts: vec![b"/".to_vec()], name: None, wide: false };
    assert_eq!(success_single(&root).body, "Pushed image + file + path to clipboard\n/");
}

#[test]
fn a_burst_is_told_with_its_size() {
    let toast = success_burst(12);
    assert_eq!(toast.title, "Screenshots copied");
    assert_eq!(toast.body, "Pushed 12 screenshots to the clipboard");
}

#[test]
fn a_failure_is_told_with_name_and_reason() {
    let toast = error(&shot(), "failed to open clipboard");
    assert_eq!(toast.title, "shotpaste — push failed");
    assert_eq!(toast.body, "shot.png\nfailed to open clipboard");
}

#[test]
fn a_long_reason_is_cut_to_its_limit() {
    let long = "x".repeat(241);
    let toast = error(&shot(), &long);
    let expected = format!("shot.png\n{}…", "x".repeat(239));
    assert_eq!(toast.body, expected);
    let fits = "x".repeat(240);
    assert_eq!(error(&shot(), &fits).body, format!("shot.png\n{}", fits));
}

#[test]
fn truncate_counts_characters() {
    assert_eq!(truncate("äöü", 3), "äöü");
    assert_eq!(truncate("äöüß", 3), "äö…");
    assert_eq!(truncate("ab", 1), "…");
    assert_eq!(truncate("", 0), "");
    assert_eq!(truncate(&truncate("abcdef", 4), 4), "abc…");
}

#[test]
fn the_name_is_registered_once_and_on_windows_only() {
    let mut setup = ToastSetup::new();
    assert!(setup.ensure_init(Platform::Windows));
    assert!(!setup.ensure_init(Platform::Windows));
    let mut other = ToastSetup::new();
    assert!(!other.ensure_init(Platform::Linux));
    assert!(!other.ensure_init(Platform::Windows));
}

#[test]
fn the_sender_is_named_on_windows_only() {
    assert_eq!(AUMID, "dev.shotpaste.watcher");
    assert_eq!(app_id(Platform::Windows), Some("dev.shotpaste.watcher".to_string()));
    assert_eq!(app_id(Platform::MacOs), None);
    assert_eq!(app_id(Platform::Linux), None);
}
