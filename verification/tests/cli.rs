use shotpaste::base_dirs::BaseDirs;
use shotpaste::cli::{
    canonicalize, choose_folders, display_available, ensure_default_dir_exists, log_dir, log_path, log_target,
    resolve_watch_dirs, uninstall, watch_mode, Mode, LOG_DEFAULT, LOG_FILE, LOG_VARIABLE,
};
use shotpaste::config::Config;
use shotpaste::day::Day;
use shotpaste::installer::plan::{Check, Step};
use shotpaste::path::FilePath;
use shotpaste::platform::Platform;

fn path(text: &str) -> FilePath {
    let mut parts: Vec<Vec<u8>> = Vec::new();
    if text.starts_with('/') {
        parts.push(b"/".to_vec());
    }
    for part in text.split('/') {
        if !part.is_empty() {
            parts.push(part.as_bytes().to_vec());
        }
    }
    let name = parts.last().cloned();
    FilePath { bytes: text.as_bytes().to_vec(), parts, name, wide: false }
}

fn shown(paths: &Vec<FilePath>) -> Vec<String> {
    paths.iter().map(|p| p.display()).collect()
}

fn nowhere() -> BaseDirs {
    BaseDirs { home: None, config: None, cache: None, data_local: None, pictures: None, desktop: None }
}

fn with_folders(dirs: Vec<FilePath>) -> Config {
    Config { watch_dirs: dirs, ..Config::default() }
}

#[test]
fn the_command_line_comes_before_the_settings() {
    let config = with_folders(vec![path("/from/settings")]);
    let dirs = BaseDirs { pictures: Some(path("/pics")), ..nowhere() };
    let chosen = choose_folders(&vec![path("/from/user")], &config, &dirs, Platform::Linux);
    assert_eq!(shown(&chosen.unwrap()), vec!["/from/user"]);
    let chosen = choose_folders(&Vec::new(), &config, &dirs, Platform::Linux);
    assert_eq!(shown(&chosen.unwrap()), vec!["/from/settings"]);
    let chosen = choose_folders(&Vec::new(), &Config::default(), &dirs, Platform::Linux);
    assert_eq!(shown(&chosen.unwrap()), vec!["/pics/Screenshots"]);
}

#[test]
fn a_default_that_cannot_be_found_is_a_failure() {
    let failure =
        choose_folders(&Vec::new(), &Config::default(), &nowhere(), Platform::Linux).unwrap_err();
    assert_eq!(
        failure.text(),
        "could not resolve default watch dir: could not resolve Pictures directory"
    );
}

#[test]
fn folders_are_resolved_and_watched_once() {
    let chosen = vec![path("/link"), path("/real"), path("/missing"), path("/missing/")];
    let known = vec![Some(path("/real")), Some(path("/real")), None, None];
    assert_eq!(shown(&resolve_watch_dirs(chosen, known)), vec!["/real", "/missing"]);
    assert!(resolve_watch_dirs(Vec::new(), Vec::new()).is_empty());
}

#[test]
fn a_folder_is_taken_as_the_system_knows_it() {
    let real = canonicalize(path("/link"), Some(path("/real")));
    assert_eq!(real.display(), "/real");
    assert_eq!(canonicalize(path("/missing"), None).display(), "/missing");
}

#[test]
fn distinct_folders_keep_their_order() {
    let chosen = vec![path("/b"), path("/a"), path("/c")];
    assert_eq!(shown(&resolve_watch_dirs(chosen, vec![None, None, None])), vec!["/b", "/a", "/c"]);
}

#[test]
fn only_the_default_folder_is_created() {
    let none: Vec<FilePath> = Vec::new();
    let one = vec![path("/pics/Screenshots")];
    let default = Config::default();
    let created = ensure_default_dir_exists(&none, &default, &one);
    assert_eq!(created.unwrap().display(), "/pics/Screenshots");
    assert!(ensure_default_dir_exists(&one, &default, &one).is_none());
    assert!(ensure_default_dir_exists(&none, &with_folders(vec![path("/a")]), &one).is_none());
    assert!(ensure_default_dir_exists(&none, &default, &none).is_none());
}

#[test]
fn linux_without_a_display_is_headless() {
    assert!(!display_available(Platform::Linux, false, false));
    assert!(display_available(Platform::Linux, true, false));
    assert!(display_available(Platform::Linux, false, true));
    assert!(display_available(Platform::Windows, false, false));
    assert!(display_available(Platform::MacOs, false, false));
    assert!(display_available(Platform::Unsupported, false, false));
}

#[test]
fn the_tray_needs_a_display_and_no_objection() {
    assert_eq!(watch_mode(false, true), Mode::Tray);
    assert_eq!(watch_mode(true, true), Mode::Headless);
    assert_eq!(watch_mode(false, false), Mode::Headless);
    assert_eq!(watch_mode(true, false), Mode::Headless);
}

#[test]
fn logs_go_below_the_cache() {
    let dirs = BaseDirs { cache: Some(path("/home/me/.cache")), ..nowhere() };
    assert_eq!(log_dir(&dirs, Platform::Linux).unwrap().display(), "/home/me/.cache/shotpaste");
    let today = Day { year: 2026, month: 5, day: 12 };
    assert_eq!(
        log_path(&dirs, Platform::Linux, today).unwrap().display(),
        "/home/me/.cache/shotpaste/shotpaste.log.2026-05-12"
    );
    assert!(log_dir(&nowhere(), Platform::Linux).is_none());
    assert!(log_path(&nowhere(), Platform::Linux, today).is_none());
    assert_eq!(LOG_VARIABLE, "SHOTPASTE_LOG");
    assert_eq!(LOG_DEFAULT, "info");
    assert_eq!(LOG_FILE, "shotpaste.log");
}

#[test]
fn without_a_log_folder_the_terminal_is_enough() {
    assert_eq!(log_target(Some(path("/c")), true).unwrap().display(), "/c");
    assert!(log_target(Some(path("/c")), false).is_none());
    assert!(log_target(None, true).is_none());
}

#[test]
fn purging_on_windows_removes_the_name_of_the_toasts_first() {
    let steps = uninstall(&nowhere(), Platform::Windows, true).unwrap();
    assert_eq!(steps.len(), 2);
    match &steps[0] {
        Step::Run { program, args, check } => {
            assert_eq!(program, "powershell.exe");
            assert_eq!(args.len(), 7);
            assert!(matches!(check, Check::Ignore));
        }
        _ => panic!("no command"),
    }
    assert_eq!(uninstall(&nowhere(), Platform::Windows, false).unwrap().len(), 1);
    let failure = uninstall(&nowhere(), Platform::Unsupported, true).unwrap_err();
    assert_eq!(failure.text(), "`shotpaste uninstall` is not implemented on this platform");
}
