use shotpaste::base_dirs::BaseDirs;
use shotpaste::config::{
    config_path, default_true, default_watch_dir, Config, ConfigSource, SavePlan, SaveStage,
};
use shotpaste::path::FilePath;
use shotpaste::platform::Platform;

fn path(text: &str) -> FilePath {
    let mut parts: Vec<Vec<u8>> = Vec::new();
    if text.starts_with('/') {
        parts.push(b"/".to_vec());
    }
    for part in text.split('/') {
        if !part.is_empty() {
            parts.push(part.as_bytes().to_vec());
        }
    }
    let name = parts.last().cloned();
    FilePath { bytes: text.as_bytes().to_vec(), parts, name, wide: false }
}

fn nowhere() -> BaseDirs {
    BaseDirs { home: None, config: None, cache: None, data_local: None, pictures: None, desktop: None }
}

fn legacy(dirs: Vec<FilePath>, dir: Option<FilePath>) -> Config {
    Config { notify_on_success: false, notify_on_error: true, watch_dirs: dirs, watch_dir: dir }
}

#[test]
fn settings_default_to_all_toasts_and_no_folders() {
    let config = Config::default();
    assert!(default_true());
    assert!(config.notify_on_success);
    assert!(config.notify_on_error);
    assert!(config.watch_dirs.is_empty());
    assert!(config.watch_dir.is_none());
}

#[test]
fn unusable_settings_count_as_none() {
    for source in [
        ConfigSource::NoFolder,
        ConfigSource::Missing,
        ConfigSource::Unreadable,
        ConfigSource::Malformed,
    ] {
        let config = Config::load(source);
        assert!(config.notify_on_success && config.notify_on_error);
        assert!(config.watch_dirs.is_empty());
    }
}

#[test]
fn loading_moves_the_single_folder_into_the_list() {
    let config = Config::load(ConfigSource::Parsed(legacy(vec![path("/a")], Some(path("/b")))));
    assert!(!config.notify_on_success);
    assert!(config.watch_dir.is_none());
    assert_eq!(config.watch_dirs.len(), 2);
    assert_eq!(config.watch_dirs[0].bytes, b"/a".to_vec());
    assert_eq!(config.watch_dirs[1].bytes, b"/b".to_vec());
}

#[test]
fn migration_adds_no_folder_twice() {
    let mut config = legacy(vec![path("/a"), path("/b")], Some(path("/b/")));
    config.migrate_legacy_watch_dir();
    assert_eq!(config.watch_dirs.len(), 2);
    assert!(config.watch_dir.is_none());
}

#[test]
fn migrating_twice_is_migrating_once() {
    let mut config = legacy(Vec::new(), Some(path("/b")));
    config.migrate_legacy_watch_dir();
    let once = config.duplicate();
    config.migrate_legacy_watch_dir();
    assert_eq!(config.watch_dirs.len(), once.watch_dirs.len());
    assert_eq!(config.watch_dirs[0].bytes, once.watch_dirs[0].bytes);
}

#[test]
fn settings_are_saved_below_the_settings_folder() {
    let dirs = BaseDirs { config: Some(path("/home/me/.config")), ..nowhere() };
    let plan = Config::default().save(&dirs, Platform::Linux).unwrap();
    assert_eq!(plan.folder.display(), "/home/me/.config/shotpaste");
    assert_eq!(plan.file.display(), "/home/me/.config/shotpaste/config.toml");
    let file = config_path(&dirs, Platform::Linux).unwrap();
    assert_eq!(file.display(), "/home/me/.config/shotpaste/config.toml");
}

#[test]
fn settings_need_a_settings_folder() {
    let failure = Config::default().save(&nowhere(), Platform::Linux).unwrap_err();
    assert_eq!(failure.text(), "could not resolve config dir");
    let failure = config_path(&nowhere(), Platform::Windows).unwrap_err();
    assert_eq!(failure.text(), "could not resolve config dir");
}

#[test]
fn saving_tells_at_which_stage_it_failed() {
    let plan = SavePlan { folder: path("/c/shotpaste"), file: path("/c/shotpaste/config.toml") };
    let cause = || "denied".to_string();
    assert_eq!(
        plan.failed(SaveStage::CreateFolder, cause()).text(),
        "failed to create /c/shotpaste: denied"
    );
    assert_eq!(
        plan.failed(SaveStage::Serialize, cause()).text(),
        "failed to serialize config: denied"
    );
    assert_eq!(
        plan.failed(SaveStage::Write, cause()).text(),
        "failed to write /c/shotpaste/config.toml: denied"
    );
}

#[test]
fn screenshots_are_looked_for_where_the_system_saves_them() {
    let dirs = BaseDirs {
        home: Some(path("/home/me")),
        pictures: Some(path("/home/me/Bilder")),
        desktop: Some(path("/Users/me/Desktop")),
        ..nowhere()
    };
    let shown = |platform| default_watch_dir(&dirs, platform).unwrap().display();
    assert_eq!(shown(Platform::Linux), "/home/me/Bilder/Screenshots");
    assert_eq!(shown(Platform::Windows), "/home/me/Bilder\\Screenshots");
    assert_eq!(shown(Platform::MacOs), "/Users/me/Desktop");
}

#[test]
fn linux_falls_back_to_pictures_at_home() {
    let dirs = BaseDirs { home: Some(path("/home/me")), ..nowhere() };
    let dir = default_watch_dir(&dirs, Platform::Linux).unwrap();
    assert_eq!(dir.display(), "/home/me/Pictures/Screenshots");
    let failure = default_watch_dir(&dirs, Platform::Windows).unwrap_err();
    assert_eq!(failure.text(), "could not resolve Pictures directory");
}

#[test]
fn no_folder_to_watch_is_told_for_each_system() {
    let told = |platform| default_watch_dir(&nowhere(), platform).unwrap_err().text();
    assert_eq!(told(Platform::Windows), "could not resolve Pictures directory");
    assert_eq!(told(Platform::Linux), "could not resolve Pictures directory");
    assert_eq!(told(Platform::MacOs), "could not resolve Desktop directory");
    assert_eq!(
        told(Platform::Unsupported),
        "unsupported platform — pass an explicit watch path"
    );
}
