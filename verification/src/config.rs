//! The user's settings and the folders that they and the screenshots live in.
use crate::base_dirs::{BaseDirs, BaseDirsView};
use crate::failure;
use crate::failure::{Failure, FailureView};
use crate::path;
use crate::path::{copy_paths, FilePath, PathView};
use crate::platform::Platform;
use vstd::prelude::*;
use vstd::string::*;

verus! {

/// The settings kept in `config.toml`.
#[derive(Debug)]
pub struct Config {
    /// Show a toast when a screenshot has reached the clipboard.
    pub notify_on_success: bool,
    /// Show a toast when a screenshot could not be put on the clipboard.
    pub notify_on_error: bool,
    /// The folders to watch; none means the system's screenshot folder.
    pub watch_dirs: Vec<FilePath>,
    /// The single folder that older files name; loading folds it into `watch_dirs`.
    pub watch_dir: Option<FilePath>,
}

/// The contents of a [`Config`].
#[verifier::ext_equal]
pub struct ConfigView {
    pub notify_on_success: bool,
    pub notify_on_error: bool,
    pub watch_dirs: Seq<PathView>,
    pub watch_dir: Option<PathView>,
}

impl View for Config {
    type V = ConfigView;

    open spec fn view(&self) -> ConfigView {
        ConfigView {
            notify_on_success: self.notify_on_success,
            notify_on_error: self.notify_on_error,
            watch_dirs: self.watch_dirs.deep_view(),
            watch_dir: self.watch_dir.deep_view(),
        }
    }
}

impl DeepView for Config {
    type V = ConfigView;

    open spec fn deep_view(&self) -> ConfigView {
        self@
    }
}

/// The settings of a user who has none: both kinds of toast, no folders.
pub open spec fn default_config() -> ConfigView {
    ConfigView {
        notify_on_success: true,
        notify_on_error: true,
        watch_dirs: Seq::empty(),
        watch_dir: None,
    }
}

/// `c` with the folder that an older file names moved into the list.
pub open spec fn migrated(c: ConfigView) -> ConfigView {
    ConfigView {
        watch_dirs: match c.watch_dir {
            Some(legacy) => if path::has_path(c.watch_dirs, legacy) {
                c.watch_dirs
            } else {
                c.watch_dirs.push(legacy)
            },
            None => c.watch_dirs,
        },
        watch_dir: None,
        ..c
    }
}

/// What came of reading `config.toml`.
#[derive(Debug)]
pub enum ConfigSource {
    /// The system names no settings folder.
    NoFolder,
    /// There is no such file.
    Missing,
    /// The file could not be read.
    Unreadable,
    /// The file is not valid settings text.
    Malformed,
    /// The settings that the file holds.
    Parsed(Config),
}

/// The settings to run with, given what reading the file gave.
pub open spec fn loaded(source: ConfigSource) -> ConfigView {
    match source {
        ConfigSource::Parsed(c) => migrated(c@),
        _ => default_config(),
    }
}

/// Where saving the settings writes to.
#[derive(Debug)]
pub struct SavePlan {
    /// The folder to create first.
    pub folder: FilePath,
    /// The file to write.
    pub file: FilePath,
}

/// The steps of saving, in order.
#[derive(Clone, Copy, Debug, PartialEq, Eq, Structural)]
pub enum SaveStage {
    CreateFolder,
    Serialize,
    Write,
}

/// The folder of the settings file.
pub open spec fn config_folder(config_dir: PathView, platform: Platform) -> PathView {
    path::joined(config_dir, "shotpaste"@, platform)
}

/// The settings file.
pub open spec fn config_file(config_dir: PathView, platform: Platform) -> PathView {
    path::joined(config_folder(config_dir, platform), "config.toml"@, platform)
}

/// The value a settings file has where it does not say.
pub fn default_true() -> (r: bool)
    ensures
        r,
{
    true
}

impl Default for Config {
    fn default() -> (r: Config)
        ensures
            r@ == default_config(),
    {
        let r = Config {
            notify_on_success: default_true(),
            notify_on_error: default_true(),
            watch_dirs: Vec::new(),
            watch_dir: None,
        };
        assert(r.watch_dirs.deep_view() =~= Seq::<PathView>::empty());
        r
    }
}

impl Config {
    /// The settings to run with, given what reading the file gave: a file that
    /// is missing or unusable counts as none.
    pub fn load(source: ConfigSource) -> (r: Config)
        ensures
            r@ == loaded(source),
            source matches ConfigSource::Parsed(c) ==> {
                &&& r.notify_on_success == c.notify_on_success
                &&& r.notify_on_error == c.notify_on_error
                &&& c.watch_dirs.deep_view().is_prefix_of(r.watch_dirs.deep_view())
            },
    {
        match source {
            ConfigSource::Parsed(config) => {
                let mut config = config;
                config.migrate_legacy_watch_dir();
                config
            },
            _ => Config::default(),
        }
    }

    /// Moves the folder that an older file names into the list, unless it is there.
    pub fn migrate_legacy_watch_dir(&mut self)
        ensures
            final(self)@ == migrated(old(self)@),
    {
        let legacy = self.watch_dir.take();
        if let Some(legacy) = legacy {
            if !path::contains(&self.watch_dirs, &legacy) {
                let ghost before = self.watch_dirs.deep_view();
                self.watch_dirs.push(legacy);
                assert(self.watch_dirs.deep_view() =~= before.push(legacy@));
            }
        }
    }

    /// Where to write the settings.
    pub fn save(&self, dirs: &BaseDirs, platform: Platform) -> (r: Result<SavePlan, Failure>)
        ensures
            (match (r, dirs@.config) {
                (Ok(plan), Some(dir)) => {
                    &&& plan.folder@ == config_folder(dir, platform)
                    &&& plan.file@ == config_file(dir, platform)
                },
                (Err(e), None) => e@ == failure::plain_failure("could not resolve config dir"@),
                _ => false,
            }),
    {
        match &dirs.config {
            Some(dir) => {
                let folder = dir.join("shotpaste", platform);
                let file = folder.join("config.toml", platform);
                Ok(SavePlan { folder, file })
            },
            None => Err(Failure::plain("could not resolve config dir".to_owned())),
        }
    }

    /// A copy of the settings.
    pub fn duplicate(&self) -> (r: Config)
        ensures
            r@ == self@,
    {
        Config {
            notify_on_success: self.notify_on_success,
            notify_on_error: self.notify_on_error,
            watch_dirs: copy_paths(&self.watch_dirs),
            watch_dir: match &self.watch_dir {
                Some(dir) => Some(dir.duplicate()),
                None => None,
            },
        }
    }
}

/// What is told when saving fails at `stage`.
pub open spec fn save_failure(
    folder: PathView,
    file: PathView,
    stage: SaveStage,
    cause: Seq<char>,
) -> FailureView {
    failure::caused_failure(
        match stage {
            SaveStage::CreateFolder => "failed to create "@ + path::shown(folder),
            SaveStage::Serialize => "failed to serialize config"@,
            SaveStage::Write => "failed to write "@ + path::shown(file),
        },
        cause,
    )
}

impl SavePlan {
    /// What to tell when saving fails at `stage`.
    pub fn failed(&self, stage: SaveStage, cause: String) -> (r: Failure)
        ensures
            r@ == save_failure(self.folder@, self.file@, stage, cause@),
    {
        let context = match stage {
            SaveStage::CreateFolder => "failed to create ".to_owned().concat(
                self.folder.display().as_str(),
            ),
            SaveStage::Serialize => "failed to serialize config".to_owned(),
            SaveStage::Write => "failed to write ".to_owned().concat(self.file.display().as_str()),
        };
        Failure::caused(context, cause)
    }
}

/// The settings file, if the system names a settings folder.
pub fn config_path(dirs: &BaseDirs, platform: Platform) -> (r: Result<FilePath, Failure>)
    ensures
        (match (r, dirs@.config) {
            (Ok(p), Some(dir)) => p@ == config_file(dir, platform),
            (Err(e), None) => e@ == failure::plain_failure("could not resolve config dir"@),
            _ => false,
        }),
{
    match &dirs.config {
        Some(dir) => Ok(dir.join("shotpaste", platform).join("config.toml", platform)),
        None => Err(Failure::plain("could not resolve config dir".to_owned())),
    }
}

/// The user's picture folder; on Linux, `Pictures` at home stands in for one that has no name.
pub open spec fn pictures_dir(dirs: BaseDirsView, platform: Platform) -> Option<PathView> {
    match dirs.pictures {
        Some(dir) => Some(dir),
        None => match dirs.home {
            Some(home) => if platform == Platform::Linux {
                Some(path::joined(home, "Pictures"@, platform))
            } else {
                None
            },
            None => None,
        },
    }
}

/// The folder that the system's screenshot tool saves to.
pub open spec fn screenshot_dir(dirs: BaseDirsView, platform: Platform) -> Result<
    PathView,
    FailureView,
> {
    match platform {
        Platform::Windows | Platform::Linux => match pictures_dir(dirs, platform) {
            Some(dir) => Ok(path::joined(dir, "Screenshots"@, platform)),
            None => Err(failure::plain_failure("could not resolve Pictures directory"@)),
        },
        Platform::MacOs => match dirs.desktop {
            Some(dir) => Ok(dir),
            None => Err(failure::plain_failure("could not resolve Desktop directory"@)),
        },
        Platform::Unsupported => Err(
            failure::plain_failure("unsupported platform — pass an explicit watch path"@),
        ),
    }
}

/// The folder that the system's screenshot tool saves to.
pub fn default_watch_dir(dirs: &BaseDirs, platform: Platform) -> (r: Result<FilePath, Failure>)
    ensures
        (match (r, screenshot_dir(dirs@, platform)) {
            (Ok(p), Ok(dir)) => p@ == dir,
            (Err(e), Err(f)) => e@ == f,
            _ => false,
        }),
{
    match platform {
        Platform::Windows => match &dirs.pictures {
            Some(dir) => Ok(dir.join("Screenshots", platform)),
            None => Err(Failure::plain("could not resolve Pictures directory".to_owned())),
        },
        Platform::MacOs => match &dirs.desktop {
            Some(dir) => Ok(dir.duplicate()),
            None => Err(Failure::plain("could not resolve Desktop directory".to_owned())),
        },
        Platform::Linux => match &dirs.pictures {
            Some(dir) => Ok(dir.join("Screenshots", platform)),
            None => match &dirs.home {
                Some(home) => Ok(home.join("Pictures", platform).join("Screenshots", platform)),
                None => Err(Failure::plain("could not resolve Pictures directory".to_owned())),
            },
        },
        Platform::Unsupported => Err(
            Failure::plain("unsupported platform — pass an explicit watch path".to_owned()),
        ),
    }
}

/// Migrating twice changes nothing more than migrating once.
pub proof fn law_migration_is_idempotent(c: ConfigView)
    ensures
        migrated(migrated(c)) == migrated(c),
{
}

/// After migration the folder that the older file named is watched, every
/// folder watched before still is, and only the list is left to be saved.
pub proof fn law_migration_keeps_folders(c: ConfigView)
    ensures
        migrated(c).watch_dir is None,
        c.watch_dir matches Some(legacy) ==> path::has_path(migrated(c).watch_dirs, legacy),
        c.watch_dirs.is_prefix_of(migrated(c).watch_dirs),
        migrated(c).notify_on_success == c.notify_on_success,
        migrated(c).notify_on_error == c.notify_on_error,
{
    if let Some(legacy) = c.watch_dir {
        let after = migrated(c).watch_dirs;
        if !path::has_path(c.watch_dirs, legacy) {
            assert(path::same_path(after[after.len() - 1], legacy));
        }
    }
}

/// Migration lists no folder twice unless one was listed twice before.
pub proof fn law_migration_keeps_folders_distinct(c: ConfigView)
    requires
        path::distinct_paths(c.watch_dirs),
    ensures
        path::distinct_paths(migrated(c).watch_dirs),
{
    if let Some(legacy) = c.watch_dir {
        if !path::has_path(c.watch_dirs, legacy) {
            let after = migrated(c).watch_dirs;
            assert forall|i: int, j: int| 0 <= i < j < after.len() implies !path::same_path(
                #[trigger] after[i],
                #[trigger] after[j],
            ) by {
                if j == c.watch_dirs.len() {
                    assert(!path::same_path(c.watch_dirs[i], legacy));
                } else {
                    assert(!path::same_path(c.watch_dirs[i], c.watch_dirs[j]));
                }
            }
        }
    }
}

/// Loading a file that was read keeps what it says: both choices on toasts,
/// and every folder in its place. Only a single folder of an older file comes
/// behind them, unless it is among them, so a file without one comes back as
/// it was saved.
pub proof fn law_loading_keeps_what_the_file_says(c: Config)
    ensures
        ({
            let got = loaded(ConfigSource::Parsed(c));
            let n = c@.watch_dirs.len() as int;
            &&& got.notify_on_success == c.notify_on_success
            &&& got.notify_on_error == c.notify_on_error
            &&& got.watch_dir is None
            &&& n <= got.watch_dirs.len() <= n + 1
            &&& forall|i: int| 0 <= i < n ==> got.watch_dirs[i] == #[trigger] c@.watch_dirs[i]
            &&& got.watch_dirs.len() == n + 1 <==> c@.watch_dir is Some && forall|i: int|
                0 <= i < n ==> (#[trigger] c@.watch_dirs[i]).parts != c@.watch_dir->0.parts
            &&& got.watch_dirs.len() == n + 1 ==> Some(got.watch_dirs[n]) == c@.watch_dir
            &&& c@.watch_dir is None ==> got == c@
        }),
{
    let got = loaded(ConfigSource::Parsed(c));
    if let Some(legacy) = c@.watch_dir {
        path::law_paths_are_their_components(c@.watch_dirs, legacy, legacy);
    }
    if c@.watch_dir is None {
        assert(got =~= c@);
    }
}

/// A file that is missing or cannot be used stands for both kinds of toast and
/// no folders.
pub proof fn law_unusable_file_stands_for_defaults(source: ConfigSource)
    requires
        !(source is Parsed),
    ensures
        loaded(source).notify_on_success,
        loaded(source).notify_on_error,
        loaded(source).watch_dirs.len() == 0,
        loaded(source).watch_dir is None,
{
}

/// The settings live in `config.toml` in the folder `shotpaste` of the
/// system's settings folder, and saving tells which of the two it stumbled on.
pub proof fn law_settings_have_one_place(dir: PathView, platform: Platform, cause: Seq<char>)
    ensures
        config_folder(dir, platform) == path::joined(dir, "shotpaste"@, platform),
        config_file(dir, platform) == path::joined(
            path::joined(dir, "shotpaste"@, platform),
            "config.toml"@,
            platform,
        ),
        forall|folder: PathView, file: PathView|
            #![trigger save_failure(folder, file, SaveStage::CreateFolder, cause)]
            save_failure(folder, file, SaveStage::CreateFolder, cause) == (FailureView {
                context: "failed to create "@ + path::shown(folder),
                cause: Some(cause),
            }),
        forall|folder: PathView, file: PathView|
            #![trigger save_failure(folder, file, SaveStage::Serialize, cause)]
            save_failure(folder, file, SaveStage::Serialize, cause) == (FailureView {
                context: "failed to serialize config"@,
                cause: Some(cause),
            }),
        forall|folder: PathView, file: PathView|
            #![trigger save_failure(folder, file, SaveStage::Write, cause)]
            save_failure(folder, file, SaveStage::Write, cause) == (FailureView {
                context: "failed to write "@ + path::shown(file),
                cause: Some(cause),
            }),
{
}

/// Screenshots are looked for in `Screenshots` below the pictures, which on
/// Linux may be `Pictures` at home, and on macOS on the desktop; where the
/// system names no such place, that is told.
pub proof fn law_screenshots_have_a_place_on_each_system(dirs: BaseDirsView, p: PathView)
    ensures
        dirs.pictures == Some(p) ==> screenshot_dir(dirs, Platform::Windows) == Ok::<
            PathView,
            FailureView,
        >(path::joined(p, "Screenshots"@, Platform::Windows)),
        dirs.pictures == Some(p) ==> screenshot_dir(dirs, Platform::Linux) == Ok::<
            PathView,
            FailureView,
        >(path::joined(p, "Screenshots"@, Platform::Linux)),
        dirs.pictures is None && dirs.home == Some(p) ==> screenshot_dir(dirs, Platform::Linux)
            == Ok::<PathView, FailureView>(
            path::joined(
                path::joined(p, "Pictures"@, Platform::Linux),
                "Screenshots"@,
                Platform::Linux,
            ),
        ),
        dirs.desktop == Some(p) ==> screenshot_dir(dirs, Platform::MacOs) == Ok::<
            PathView,
            FailureView,
        >(p),
        dirs.pictures is None ==> screenshot_dir(dirs, Platform::Windows) == Err::<
            PathView,
            FailureView,
        >(FailureView { context: "could not resolve Pictures directory"@, cause: None }),
        dirs.pictures is None && dirs.home is None ==> screenshot_dir(dirs, Platform::Linux)
            == Err::<PathView, FailureView>(
            FailureView { context: "could not resolve Pictures directory"@, cause: None },
        ),
        dirs.desktop is None ==> screenshot_dir(dirs, Platform::MacOs) == Err::<
            PathView,
            FailureView,
        >(FailureView { context: "could not resolve Desktop directory"@, cause: None }),
        screenshot_dir(dirs, Platform::Unsupported) == Err::<PathView, FailureView>(
            FailureView {
                context: "unsupported platform — pass an explicit watch path"@,
                cause: None,
            },
        ),
{
}

} // verus!
