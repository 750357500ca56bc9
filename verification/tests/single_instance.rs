use shotpaste::base_dirs::BaseDirs;
use shotpaste::path::FilePath;
use shotpaste::platform::Platform;
use shotpaste::single_instance::{acquire, lock_path, Guard, GuardPhase, LockReply, LockRequest};

fn dirs(cache: bool) -> BaseDirs {
    let cache = if cache {
        Some(FilePath {
            bytes: b"/cache".to_vec(),
            parts: vec![b"/".to_vec(), b"cache".to_vec()],
            name: Some(b"cache".to_vec()),
            wide: false,
        })
    } else {
        None
    };
    BaseDirs { home: None, config: None, cache, data_local: None, pictures: None, desktop: None }
}

fn told(request: LockRequest) -> String {
    match request {
        LockRequest::Finish(Err(failure)) => failure.text(),
        _ => panic!("no failure"),
    }
}

fn failed(words: &str) -> LockReply {
    LockReply::Failed(words.to_string())
}

fn begin_on_linux() -> Guard {
    let (guard, request) = acquire(&dirs(true), Platform::Linux).unwrap();
    match request {
        LockRequest::CreateDir(folder) => assert_eq!(folder.display(), "/cache/shotpaste"),
        _ => panic!("the folder comes first"),
    }
    guard
}

#[test]
fn the_first_instance_locks_the_file() {
    let mut guard = begin_on_linux();
    match guard.advance(LockReply::Done) {
        LockRequest::OpenFile(file) => assert_eq!(file.display(), "/cache/shotpaste/shotpaste.lock"),
        _ => panic!("the file is opened"),
    }
    assert!(matches!(guard.advance(LockReply::Done), LockRequest::LockFile));
    assert!(matches!(guard.advance(LockReply::Done), LockRequest::Finish(Ok(()))));
    assert!(matches!(guard.phase, GuardPhase::Held));
}

#[test]
fn a_second_instance_finds_the_file_locked() {
    let mut guard = begin_on_linux();
    guard.advance(LockReply::Done);
    guard.advance(LockReply::Done);
    assert_eq!(
        told(guard.advance(failed("busy"))),
        "another shotpaste instance appears to be running (lock /cache/shotpaste/shotpaste.lock held: busy)"
    );
    assert!(matches!(guard.phase, GuardPhase::Refused));
}

#[test]
fn each_lock_step_has_its_words() {
    let mut guard = begin_on_linux();
    assert_eq!(told(guard.advance(failed("denied"))), "failed to create /cache/shotpaste: denied");
    let mut guard = begin_on_linux();
    guard.advance(LockReply::Done);
    assert_eq!(
        told(guard.advance(failed("denied"))),
        "failed to open lock file /cache/shotpaste/shotpaste.lock: denied"
    );
}

#[test]
fn the_lock_needs_a_cache_folder() {
    let failure = acquire(&dirs(false), Platform::MacOs).unwrap_err();
    assert_eq!(failure.text(), "could not resolve cache dir");
    let failure = lock_path(&dirs(false), Platform::Linux).unwrap_err();
    assert_eq!(failure.text(), "could not resolve cache dir");
    let file = lock_path(&dirs(true), Platform::Linux).unwrap();
    assert_eq!(file.display(), "/cache/shotpaste/shotpaste.lock");
}

#[test]
fn windows_tells_instances_apart_by_a_mutex() {
    let (mut guard, request) = Guard::acquire(&dirs(false), Platform::Windows).unwrap();
    match request {
        LockRequest::CreateMutex(name) => assert_eq!(name, "Local\\Shotpaste"),
        _ => panic!("no mutex"),
    }
    let request = guard.advance(LockReply::Mutex { already: false });
    assert!(matches!(request, LockRequest::Finish(Ok(()))));
    assert!(matches!(guard.phase, GuardPhase::Held));
}

#[test]
fn a_mutex_that_was_there_is_let_go_of() {
    let (mut guard, _) = acquire(&dirs(false), Platform::Windows).unwrap();
    let request = guard.advance(LockReply::Mutex { already: true });
    assert!(matches!(request, LockRequest::CloseMutex));
    assert_eq!(
        told(guard.advance(LockReply::Done)),
        "another shotpaste instance is already running in this session.\n  If this is unexpected, check Task Manager for `shotpaste.exe` or `wscript.exe` running the Scheduled Task."
    );
    assert!(matches!(guard.phase, GuardPhase::Refused));
}

#[test]
fn a_mutex_that_cannot_be_had_is_told() {
    let (mut guard, _) = acquire(&dirs(false), Platform::Windows).unwrap();
    assert_eq!(told(guard.advance(LockReply::NoMutex(6))), "CreateMutexW failed (code 6)");
}
