use shotpaste::failure::Failure;
use shotpaste::path::FilePath;
use shotpaste::platform::Platform;
use shotpaste::watcher::events::{
    is_new_file_event, screenshots, CreateKind, EventKind, FileEvent, ModifyKind, RenameMode,
};
use shotpaste::watcher::run::{
    run, run_until, LogSink, Reply, Report, Request, WatchLoop, WatcherSink, DEBOUNCE_MILLIS,
    SHUTDOWN_POLL_MILLIS,
};
use shotpaste::watcher::seen::{Fingerprint, Seen, SEEN_CAP};

fn path(text: &str) -> FilePath {
    let mut parts: Vec<Vec<u8>> = Vec::new();
    if text.starts_with('/') {
        parts.push(b"/".to_vec());
    }
    for part in text.split('/') {
        if !part.is_empty() {
            parts.push(part.as_bytes().to_vec());
        }
    }
    let name = parts.last().cloned();
    FilePath { bytes: text.as_bytes().to_vec(), parts, name, wide: false }
}

fn created(paths: &[&str]) -> FileEvent {
    FileEvent {
        kind: EventKind::Create(CreateKind::File),
        paths: paths.iter().map(|p| path(p)).collect(),
    }
}

fn state(modified: i128, len: u64) -> Option<Fingerprint> {
    Some(Fingerprint { modified, len })
}

fn shown(request: &Request) -> String {
    match request {
        Request::Create => "create".to_string(),
        Request::Watch(p) => format!("watch {}", p.display()),
        Request::Poll => "poll".to_string(),
        Request::CheckStop => "stop?".to_string(),
        Request::ReadFingerprint(p) => format!("read {}", p.display()),
        Request::Push(p) => format!("push {}", p.display()),
        Request::Finish(Ok(())) => "ended".to_string(),
        Request::Finish(Err(failure)) => format!("failed: {}", failure.text()),
    }
}

fn asked(watch: &mut WatchLoop, reply: Reply) -> String {
    shown(&watch.advance(reply).1)
}

/// A loop on one folder that waits for events.
fn polling(platform: Platform, stoppable: bool) -> WatchLoop {
    let dirs = vec![path("/shots")];
    let (mut watch, request) = if stoppable {
        run_until(&dirs, platform).unwrap()
    } else {
        run(&dirs, platform).unwrap()
    };
    assert_eq!(shown(&request), "create");
    assert_eq!(asked(&mut watch, Reply::Created), "watch /shots");
    assert_eq!(asked(&mut watch, Reply::Watched(true)), "poll");
    watch
}

/// Announces the file in the given state, and answers whether it was pushed.
fn announce(watch: &mut WatchLoop, file: &str, now: Option<Fingerprint>) -> bool {
    let request = asked(watch, Reply::Events(vec![created(&[file])]));
    assert_eq!(request, format!("read {}", file));
    let (report, request) = watch.advance(Reply::Fingerprint(now));
    assert!(report.is_none());
    if shown(&request) == "stop?" {
        assert_eq!(asked(watch, Reply::Stop(false)), "poll");
        return false;
    }
    assert_eq!(shown(&request), format!("push {}", file));
    let (report, request) = watch.advance(Reply::Pushed);
    assert_eq!(shown(&request), "stop?");
    assert_eq!(asked(watch, Reply::Stop(false)), "poll");
    match report {
        Some(Report::Pushed(p)) => assert_eq!(p.display(), file),
        _ => panic!("a push is told"),
    }
    true
}

#[test]
fn creations_announce_files_everywhere() {
    for platform in [Platform::Windows, Platform::MacOs, Platform::Linux, Platform::Unsupported] {
        assert!(is_new_file_event(&EventKind::Create(CreateKind::File), platform));
        assert!(is_new_file_event(&EventKind::Create(CreateKind::Any), platform));
        assert!(!is_new_file_event(&EventKind::Create(CreateKind::Folder), platform));
        assert!(!is_new_file_event(&EventKind::Create(CreateKind::Other), platform));
        assert!(!is_new_file_event(&EventKind::Modify(ModifyKind::Data), platform));
        assert!(!is_new_file_event(&EventKind::Remove, platform));
        assert!(!is_new_file_event(&EventKind::Any, platform));
    }
}

#[test]
fn renamings_announce_files_on_linux_only() {
    let renamed = |mode| EventKind::Modify(ModifyKind::Name(mode));
    assert!(is_new_file_event(&renamed(RenameMode::To), Platform::Linux));
    assert!(is_new_file_event(&renamed(RenameMode::Both), Platform::Linux));
    assert!(!is_new_file_event(&renamed(RenameMode::From), Platform::Linux));
    assert!(!is_new_file_event(&renamed(RenameMode::Any), Platform::Linux));
    assert!(!is_new_file_event(&renamed(RenameMode::To), Platform::MacOs));
    assert!(!is_new_file_event(&renamed(RenameMode::Both), Platform::Windows));
}

#[test]
fn screenshots_are_the_new_pngs_in_order() {
    let events = vec![
        created(&["/s/b.png", "/s/notes.txt", "/s/a.png"]),
        FileEvent { kind: EventKind::Remove, paths: vec![path("/s/gone.png")] },
        created(&["/s/.png", "/s/c.png"]),
    ];
    let found: Vec<String> =
        screenshots(&events, Platform::MacOs).iter().map(|p| p.display()).collect();
    assert_eq!(found, vec!["/s/b.png", "/s/a.png", "/s/c.png"]);
}

#[test]
fn a_loop_needs_folders() {
    let none: Vec<FilePath> = Vec::new();
    let failure = run(&none, Platform::Linux).unwrap_err();
    assert_eq!(failure.text(), "no directories to watch");
    let failure = run_until(&none, Platform::Linux).unwrap_err();
    assert_eq!(failure.text(), "no directories to watch");
    assert_eq!(DEBOUNCE_MILLIS, 200);
    assert_eq!(SHUTDOWN_POLL_MILLIS, 500);
}

#[test]
fn a_loop_needs_a_source_of_events() {
    let (mut watch, _) = run(&vec![path("/a")], Platform::Linux).unwrap();
    assert_eq!(
        asked(&mut watch, Reply::CreateFailed("limit".to_string())),
        "failed: failed to create file watcher: limit"
    );
}

#[test]
fn one_watchable_folder_is_enough() {
    let (mut watch, _) = run(&vec![path("/a"), path("/b"), path("/c")], Platform::Linux).unwrap();
    assert_eq!(asked(&mut watch, Reply::Created), "watch /a");
    assert_eq!(asked(&mut watch, Reply::Watched(false)), "watch /b");
    assert_eq!(asked(&mut watch, Reply::Watched(true)), "watch /c");
    assert_eq!(asked(&mut watch, Reply::Watched(false)), "poll");
}

#[test]
fn no_watchable_folder_is_a_failure() {
    let (mut watch, _) = run(&vec![path("/a"), path("/b")], Platform::Linux).unwrap();
    asked(&mut watch, Reply::Created);
    assert_eq!(asked(&mut watch, Reply::Watched(false)), "watch /b");
    assert_eq!(
        asked(&mut watch, Reply::Watched(false)),
        "failed: no watchable directories — see preceding warnings"
    );
}

#[test]
fn an_unchanged_screenshot_is_pushed_once() {
    let mut watch = polling(Platform::MacOs, true);
    assert!(announce(&mut watch, "/shots/1.png", state(7, 100)));
    for _ in 0..5 {
        assert!(!announce(&mut watch, "/shots/1.png", state(7, 100)));
    }
}

#[test]
fn a_changed_screenshot_is_pushed_again() {
    let mut watch = polling(Platform::MacOs, true);
    assert!(announce(&mut watch, "/shots/1.png", state(7, 100)));
    assert!(announce(&mut watch, "/shots/1.png", state(7, 101)));
    assert!(announce(&mut watch, "/shots/1.png", state(8, 101)));
    assert!(!announce(&mut watch, "/shots/1.png", state(8, 101)));
    assert!(announce(&mut watch, "/shots/1.png", None));
}

#[test]
fn one_screenshot_in_two_folders_is_pushed_once() {
    let mut watch = polling(Platform::MacOs, true);
    assert!(announce(&mut watch, "/shots/1.png", state(7, 100)));
    assert!(!announce(&mut watch, "/other/1.png", state(7, 100)));
    assert!(!announce(&mut watch, "/shots/1.png", state(7, 100)));
}

#[test]
fn one_screenshot_in_two_folders_of_one_batch_is_pushed_once() {
    let mut watch = polling(Platform::Linux, false);
    let batch = vec![created(&["/a/s.png"]), created(&["/b/s.png"])];
    assert_eq!(asked(&mut watch, Reply::Events(batch)), "read /a/s.png");
    assert_eq!(asked(&mut watch, Reply::Fingerprint(state(7, 100))), "push /a/s.png");
    let (report, request) = watch.advance(Reply::Pushed);
    assert!(matches!(report, Some(Report::Pushed(_))));
    assert_eq!(shown(&request), "read /b/s.png");
    let (report, request) = watch.advance(Reply::Fingerprint(state(7, 100)));
    assert!(report.is_none());
    assert_eq!(shown(&request), "poll");
}

#[test]
fn other_files_of_one_name_are_independent() {
    let mut watch = polling(Platform::MacOs, true);
    assert!(announce(&mut watch, "/shots/1.png", state(7, 100)));
    assert!(announce(&mut watch, "/other/1.png", state(7, 101)));
    assert!(announce(&mut watch, "/third/1.png", state(8, 100)));
    assert!(announce(&mut watch, "/shots/2.png", state(7, 100)));
    assert!(!announce(&mut watch, "/shots/1.png", state(7, 100)));
    assert!(!announce(&mut watch, "/other/1.png", state(7, 101)));
}

#[test]
fn events_that_push_nothing_do_not_make_the_loop_forget() {
    let mut watch = polling(Platform::MacOs, false);
    asked(&mut watch, Reply::Events(vec![created(&["/s/1.png", "/s/2.png", "/s/3.png"])]));
    asked(&mut watch, Reply::Fingerprint(state(7, 100)));
    assert_eq!(asked(&mut watch, Reply::Pushed), "read /s/2.png");
    asked(&mut watch, Reply::Fingerprint(state(8, 100)));
    let busy = || Reply::PushFailed(Failure::plain("busy".to_string()));
    assert_eq!(asked(&mut watch, busy()), "read /s/3.png");
    asked(&mut watch, Reply::Fingerprint(None));
    assert_eq!(asked(&mut watch, Reply::Pushed), "poll");
    asked(&mut watch, Reply::Events(vec![created(&["/s/1.png"])]));
    assert_eq!(asked(&mut watch, Reply::Fingerprint(state(7, 100))), "poll");
}

#[test]
fn a_failed_push_is_told_and_tried_again() {
    let mut watch = polling(Platform::MacOs, true);
    for _ in 0..2 {
        asked(&mut watch, Reply::Events(vec![created(&["/shots/1.png"])]));
        assert_eq!(asked(&mut watch, Reply::Fingerprint(state(7, 100))), "push /shots/1.png");
        let (report, request) =
            watch.advance(Reply::PushFailed(Failure::plain("busy".to_string())));
        assert_eq!(shown(&request), "stop?");
        assert_eq!(asked(&mut watch, Reply::Stop(false)), "poll");
        match report {
            Some(Report::Failed(p, failure)) => {
                assert_eq!(p.display(), "/shots/1.png");
                assert_eq!(failure.text(), "busy");
            }
            _ => panic!("a failure is told"),
        }
    }
    assert!(announce(&mut watch, "/shots/1.png", state(7, 100)));
}

#[test]
fn screenshots_of_one_event_are_handled_in_order() {
    let mut watch = polling(Platform::Windows, false);
    assert_eq!(
        asked(&mut watch, Reply::Events(vec![created(&["/shots/1.png", "/shots/2.png"])])),
        "read /shots/1.png"
    );
    assert_eq!(asked(&mut watch, Reply::Fingerprint(None)), "push /shots/1.png");
    assert_eq!(asked(&mut watch, Reply::Pushed), "read /shots/2.png");
    assert_eq!(asked(&mut watch, Reply::Fingerprint(state(1, 1))), "push /shots/2.png");
    assert_eq!(asked(&mut watch, Reply::Pushed), "poll");
}

#[test]
fn a_loop_stops_when_asked_and_only_then() {
    let mut watch = polling(Platform::Linux, true);
    assert_eq!(asked(&mut watch, Reply::TimedOut), "stop?");
    assert_eq!(asked(&mut watch, Reply::Stop(false)), "poll");
    assert_eq!(asked(&mut watch, Reply::TimedOut), "stop?");
    assert_eq!(asked(&mut watch, Reply::Stop(true)), "ended");
    let mut watch = polling(Platform::Linux, false);
    assert_eq!(asked(&mut watch, Reply::TimedOut), "poll");
    assert_eq!(asked(&mut watch, Reply::Errors), "poll");
    assert_eq!(asked(&mut watch, Reply::Events(Vec::new())), "poll");
    assert_eq!(asked(&mut watch, Reply::BackendClosed), "ended");
}

#[test]
fn a_busy_loop_stops_when_asked() {
    let mut watch = polling(Platform::Linux, true);
    assert_eq!(asked(&mut watch, Reply::Errors), "stop?");
    assert_eq!(asked(&mut watch, Reply::Stop(false)), "poll");
    let noise = || Reply::Events(vec![created(&["/shots/notes.txt"])]);
    assert_eq!(asked(&mut watch, noise()), "stop?");
    assert_eq!(asked(&mut watch, Reply::Stop(false)), "poll");
    let two = created(&["/shots/1.png", "/shots/2.png"]);
    assert_eq!(asked(&mut watch, Reply::Events(vec![two])), "read /shots/1.png");
    asked(&mut watch, Reply::Fingerprint(state(1, 1)));
    assert_eq!(asked(&mut watch, Reply::Pushed), "read /shots/2.png");
    asked(&mut watch, Reply::Fingerprint(state(2, 2)));
    assert_eq!(asked(&mut watch, Reply::Pushed), "stop?");
    assert_eq!(asked(&mut watch, Reply::Stop(true)), "ended");
}

#[test]
fn the_memory_keeps_to_its_limit() {
    let mut seen = Seen::new();
    let now = Fingerprint { modified: 1, len: 2 };
    assert!(!seen.knows(&path("/a.png"), now));
    for i in 0..SEEN_CAP + 50 {
        let file = format!("/{}.png", i);
        seen.record(path(&file), now);
        assert!(seen.knows(&path(&file), now));
        assert!(seen.entries.len() <= 256);
    }
    assert_eq!(seen.entries.len(), 256);
    let later = Fingerprint { modified: 5, len: 2 };
    let last = path(&format!("/{}.png", SEEN_CAP + 49));
    seen.record(last.duplicate(), later);
    assert!(seen.knows(&last, later));
    assert!(!seen.knows(&last, now));
    assert_eq!(seen.entries.len(), 256);
}

#[test]
fn the_memory_forgets_nothing_while_it_has_room() {
    let mut seen = Seen::new();
    let now = Fingerprint { modified: -1, len: 0 };
    for i in 0..SEEN_CAP {
        seen.record(path(&format!("/{}.png", i)), now);
    }
    for i in 0..SEEN_CAP {
        assert!(seen.knows(&path(&format!("/{}.png", i)), now));
    }
}

#[test]
fn the_quiet_sink_takes_reports() {
    let sink = LogSink;
    sink.pushed(&path("/a.png"));
    sink.failed(&path("/a.png"), &Failure::plain("busy".to_string()));
}
