//! What a command line asks for.
use crate::base_dirs::{BaseDirs, BaseDirsView};
use crate::config;
use crate::config::{default_watch_dir, Config, ConfigView};
use crate::day;
use crate::day::{day_format, Day};
use crate::failure;
use crate::failure::{Failure, FailureView};
use crate::installer;
use crate::installer::plan::{CheckView, Step, StepView};
use crate::installer::windows;
use crate::path;
use crate::path::{copy_paths, FilePath, PathView};
use crate::platform::Platform;
use crate::windows_shortcut;
use crate::windows_shortcut::remove_aumid_shortcut;
use vstd::prelude::*;
use vstd::string::*;

verus! {

/// The version of the program.
pub const VERSION: &'static str = "0.3.0";

/// The variable that says what to log.
pub const LOG_VARIABLE: &'static str = "SHOTPASTE_LOG";

/// What to log where the variable does not say.
pub const LOG_DEFAULT: &'static str = "info";

/// What the names of the log files start with; the day follows.
pub const LOG_FILE: &'static str = "shotpaste.log";

/// The folder of the log files.
pub open spec fn log_folder(dirs: BaseDirsView, platform: Platform) -> Option<PathView> {
    match dirs.cache {
        Some(cache) => Some(path::joined(cache, "shotpaste"@, platform)),
        None => None,
    }
}

/// The folder of the log files, if the system names a cache folder.
pub fn log_dir(dirs: &BaseDirs, platform: Platform) -> (r: Option<FilePath>)
    ensures
        r.deep_view() == log_folder(dirs@, platform),
{
    match &dirs.cache {
        Some(cache) => Some(cache.join("shotpaste", platform)),
        None => None,
    }
}

/// The log file of the day that is written `date`.
pub open spec fn log_file(dirs: BaseDirsView, platform: Platform, date: Seq<char>) -> Option<
    PathView,
> {
    match log_folder(dirs, platform) {
        Some(folder) => Some(path::joined(folder, LOG_FILE@ + "."@ + date, platform)),
        None => None,
    }
}

/// The current log file: that of today, in universal time.
pub fn log_path(dirs: &BaseDirs, platform: Platform, today: Day) -> (r: Option<FilePath>)
    ensures
        r.deep_view() == log_file(dirs@, platform, day::day_text(today)),
{
    match log_dir(dirs, platform) {
        Some(folder) => {
            let name = LOG_FILE.to_owned().concat(".").concat(day_format(today).as_str());
            Some(folder.join(name.as_str(), platform))
        },
        None => None,
    }
}

/// Whether there is a screen to show a tray on. Only Linux has users without:
/// there one of two variables says so.
pub fn display_available(platform: Platform, display: bool, wayland_display: bool) -> (r: bool)
    ensures
        r == (platform == Platform::Linux ==> display || wayland_display),
{
    match platform {
        Platform::Linux => display || wayland_display,
        _ => true,
    }
}

/// How the watcher runs.
#[derive(Clone, Copy, Debug, PartialEq, Eq, Structural)]
pub enum Mode {
    /// Without tray and toasts, logging to the terminal.
    Headless,
    /// With tray and toasts, logging to a file too.
    Tray,
}

/// How the watcher runs: headless if asked to, or if there is no screen.
pub fn watch_mode(headless: bool, has_display: bool) -> (r: Mode)
    ensures
        r == (if headless || !has_display {
            Mode::Headless
        } else {
            Mode::Tray
        }),
{
    if headless || !has_display {
        Mode::Headless
    } else {
        Mode::Tray
    }
}

/// The folders that the user has chosen: those of the command line, else those
/// of the settings, else the one that the system's screenshot tool saves to.
pub open spec fn chosen_folders(
    cli: Seq<PathView>,
    cfg: ConfigView,
    dirs: BaseDirsView,
    platform: Platform,
) -> Result<Seq<PathView>, FailureView> {
    if cli.len() > 0 {
        Ok(cli)
    } else if cfg.watch_dirs.len() > 0 {
        Ok(cfg.watch_dirs)
    } else {
        match config::screenshot_dir(dirs, platform) {
            Ok(dir) => Ok(seq![dir]),
            Err(f) => Err(
                failure::caused_failure(
                    "could not resolve default watch dir"@,
                    failure::failure_text(f),
                ),
            ),
        }
    }
}

/// The folders that the user has chosen.
pub fn choose_folders(
    cli: &Vec<FilePath>,
    cfg: &Config,
    dirs: &BaseDirs,
    platform: Platform,
) -> (r: Result<Vec<FilePath>, Failure>)
    ensures
        (match (r, chosen_folders(cli.deep_view(), cfg@, dirs@, platform)) {
            (Ok(folders), Ok(expected)) => folders.deep_view() == expected,
            (Err(e), Err(f)) => e@ == f,
            _ => false,
        }),
{
    if cli.len() > 0 {
        return Ok(copy_paths(cli));
    }
    if cfg.watch_dirs.len() > 0 {
        return Ok(copy_paths(&cfg.watch_dirs));
    }
    match default_watch_dir(dirs, platform) {
        Ok(dir) => {
            let mut folders: Vec<FilePath> = Vec::new();
            folders.push(dir);
            assert(folders.deep_view() =~= seq![dir@]);
            Ok(folders)
        },
        Err(f) => Err(
            Failure::caused("could not resolve default watch dir".to_owned(), f.text()),
        ),
    }
}

/// A folder as the system knows it, or as it was written where the system knows none.
pub open spec fn known_or_written(written: PathView, known: Option<PathView>) -> PathView {
    match known {
        Some(p) => p,
        None => written,
    }
}

/// A folder as the system knows it, or as it was written where the system
/// knows none. `known` is what the system makes of it.
pub fn canonicalize(written: FilePath, known: Option<FilePath>) -> (r: FilePath)
    ensures
        known matches Some(p) ==> r@ == p@,
        known is None ==> r@ == written@,
        r@ == known_or_written(written@, known.deep_view()),
{
    match known {
        Some(p) => p,
        None => written,
    }
}

/// Each folder as the system knows it, or as it was written where the system knows none.
pub open spec fn canonical(chosen: Seq<PathView>, known: Seq<Option<PathView>>) -> Seq<PathView> {
    Seq::new(chosen.len(), |i: int| known_or_written(chosen[i], known[i]))
}

/// `paths` without those that repeat an earlier one.
pub open spec fn without_repeats(paths: Seq<PathView>) -> Seq<PathView>
    decreases paths.len(),
{
    if paths.len() == 0 {
        seq![]
    } else {
        let front = without_repeats(paths.drop_last());
        if path::has_path(front, paths.last()) {
            front
        } else {
            front.push(paths.last())
        }
    }
}

/// The folders to watch: those chosen, as the system knows them, each once.
/// `known` holds what the system makes of each of them.
pub fn resolve_watch_dirs(chosen: Vec<FilePath>, known: Vec<Option<FilePath>>) -> (r: Vec<
    FilePath,
>)
    requires
        known@.len() == chosen@.len(),
    ensures
        r.deep_view() == without_repeats(canonical(chosen.deep_view(), known.deep_view())),
{
    let ghost all = canonical(chosen.deep_view(), known.deep_view());
    let mut out: Vec<FilePath> = Vec::new();
    let mut i: usize = 0;
    assert(out.deep_view() =~= without_repeats(all.take(0)));
    while i < chosen.len()
        invariant
            0 <= i <= chosen@.len(),
            known@.len() == chosen@.len(),
            all == canonical(chosen.deep_view(), known.deep_view()),
            out.deep_view() == without_repeats(all.take(i as int)),
        decreases chosen@.len() - i,
    {
        let found = match &known[i] {
            Some(p) => Some(p.duplicate()),
            None => None,
        };
        let resolved = canonicalize(chosen[i].duplicate(), found);
        assert(known.deep_view()[i as int] == known@[i as int].deep_view());
        assert(resolved@ == all[i as int]);
        assert(all.take(i + 1).drop_last() =~= all.take(i as int));
        if !path::contains(&out, &resolved) {
            let ghost before = out.deep_view();
            out.push(resolved);
            assert(out.deep_view() =~= before.push(all[i as int]));
        }
        i += 1;
    }
    assert(all.take(i as int) =~= all);
    out
}

/// The folder to create where it is missing: the one that stands in when the
/// user has chosen none, so that a new machine has a folder to watch.
pub open spec fn default_folder(cli: Seq<PathView>, cfg: ConfigView, watched: Seq<PathView>) -> Option<
    PathView,
> {
    if cli.len() == 0 && cfg.watch_dirs.len() == 0 && watched.len() == 1 {
        Some(watched[0])
    } else {
        None
    }
}

/// The folder to create where it is missing.
pub fn ensure_default_dir_exists(
    cli: &Vec<FilePath>,
    cfg: &Config,
    watched: &Vec<FilePath>,
) -> (r: Option<FilePath>)
    ensures
        r.deep_view() == default_folder(cli.deep_view(), cfg@, watched.deep_view()),
{
    if cli.len() == 0 && cfg.watch_dirs.len() == 0 && watched.len() == 1 {
        Some(watched[0].duplicate())
    } else {
        None
    }
}

/// Where to log beside the terminal: in the folder of the log files, if there
/// is one and it could be created.
pub fn log_target(dir: Option<FilePath>, created: bool) -> (r: Option<FilePath>)
    ensures
        r.deep_view() == (if created {
            dir.deep_view()
        } else {
            None
        }),
{
    if created {
        dir
    } else {
        None
    }
}

/// The steps of the command that ends autostart. Purging on Windows first
/// removes the name of the toasts from the registry.
pub open spec fn uninstall_steps(dirs: BaseDirsView, platform: Platform, purge: bool) -> Result<
    Seq<StepView>,
    FailureView,
> {
    match installer::uninstall_plan(dirs, platform, purge) {
        Ok(steps) => Ok(
            if purge && platform == Platform::Windows {
                seq![
                    windows::script_step(windows_shortcut::remove_script(), CheckView::Ignore),
                ] + steps
            } else {
                steps
            },
        ),
        Err(f) => Err(f),
    }
}

/// The steps of the command that ends autostart.
pub fn uninstall(dirs: &BaseDirs, platform: Platform, purge: bool) -> (r: Result<
    Vec<Step>,
    Failure,
>)
    ensures
        (match (r, uninstall_steps(dirs@, platform, purge)) {
            (Ok(steps), Ok(expected)) => steps.deep_view() == expected,
            (Err(e), Err(f)) => e@ == f,
            _ => false,
        }),
{
    let windows = match platform {
        Platform::Windows => true,
        _ => false,
    };
    match installer::uninstall(dirs, platform, purge) {
        Ok(steps) => {
            let mut steps = steps;
            if purge && windows {
                let ghost before = steps.deep_view();
                steps.insert(0, remove_aumid_shortcut());
                assert(steps.deep_view() =~= seq![
                    windows::script_step(windows_shortcut::remove_script(), CheckView::Ignore),
                ] + before);
            }
            Ok(steps)
        },
        Err(f) => Err(f),
    }
}

/// Folders on the command line stand in for those of the settings, and these
/// for the default; settings are not even looked at for the former.
pub proof fn law_command_line_comes_first(
    cli: Seq<PathView>,
    cfg: ConfigView,
    other: ConfigView,
    dirs: BaseDirsView,
    platform: Platform,
)
    ensures
        cli.len() > 0 ==> chosen_folders(cli, cfg, dirs, platform) == Ok::<
            Seq<PathView>,
            FailureView,
        >(cli),
        cli.len() > 0 ==> chosen_folders(cli, cfg, dirs, platform) == chosen_folders(
            cli,
            other,
            dirs,
            platform,
        ),
        cli.len() == 0 && cfg.watch_dirs.len() > 0 ==> chosen_folders(cli, cfg, dirs, platform)
            == Ok::<Seq<PathView>, FailureView>(cfg.watch_dirs),
{
}

/// A choice of folders is never empty: there is one, or a failure.
pub proof fn law_some_folder_is_chosen(
    cli: Seq<PathView>,
    cfg: ConfigView,
    dirs: BaseDirsView,
    platform: Platform,
)
    ensures
        chosen_folders(cli, cfg, dirs, platform) matches Ok(folders) ==> folders.len() > 0,
{
}

/// No folder is watched twice.
pub proof fn law_watched_folders_are_distinct(paths: Seq<PathView>)
    ensures
        path::distinct_paths(without_repeats(paths)),
    decreases paths.len(),
{
    if paths.len() > 0 {
        law_watched_folders_are_distinct(paths.drop_last());
        let front = without_repeats(paths.drop_last());
        let all = without_repeats(paths);
        assert forall|i: int, j: int| 0 <= i < j < all.len() implies !path::same_path(
            #[trigger] all[i],
            #[trigger] all[j],
        ) by {
            if j < front.len() {
                assert(!path::same_path(front[i], front[j]));
            } else {
                assert(!path::same_path(front[i], paths.last()));
            }
        }
    }
}

/// Every folder of the list is watched, and only those are.
pub proof fn law_every_folder_is_watched(paths: Seq<PathView>)
    ensures
        forall|i: int|
            0 <= i < paths.len() ==> path::has_path(
                without_repeats(paths),
                #[trigger] paths[i],
            ),
        forall|j: int|
            0 <= j < without_repeats(paths).len() ==> paths.contains(
                #[trigger] without_repeats(paths)[j],
            ),
        without_repeats(paths).len() <= paths.len(),
        paths.len() > 0 ==> without_repeats(paths).len() > 0 && without_repeats(paths)[0]
            == paths[0],
    decreases paths.len(),
{
    if paths.len() > 0 {
        let before = paths.drop_last();
        law_every_folder_is_watched(before);
        let front = without_repeats(before);
        let all = without_repeats(paths);
        assert forall|i: int| 0 <= i < paths.len() implies path::has_path(
            all,
            #[trigger] paths[i],
        ) by {
            if i < before.len() {
                assert(path::has_path(front, before[i]));
                let k = choose|k: int|
                    0 <= k < front.len() && path::same_path(#[trigger] front[k], before[i]);
                assert(path::same_path(all[k], paths[i]));
            } else if !path::has_path(front, paths.last()) {
                assert(path::same_path(all[all.len() - 1], paths[i]));
            }
        }
        assert forall|j: int| 0 <= j < all.len() implies paths.contains(#[trigger] all[j]) by {
            if j < front.len() {
                assert(before.contains(front[j]));
                let k = choose|k: int| 0 <= k < before.len() && before[k] == front[j];
                assert(paths[k] == all[j]);
            } else {
                assert(paths[paths.len() - 1] == all[j]);
            }
        }
    }
}

/// A list without repeats is left alone.
pub proof fn law_distinct_folders_are_kept(paths: Seq<PathView>)
    requires
        path::distinct_paths(paths),
    ensures
        without_repeats(paths) == paths,
    decreases paths.len(),
{
    if paths.len() > 0 {
        let before = paths.drop_last();
        assert forall|i: int, j: int| 0 <= i < j < before.len() implies !path::same_path(
            #[trigger] before[i],
            #[trigger] before[j],
        ) by {
            assert(!path::same_path(paths[i], paths[j]));
        }
        law_distinct_folders_are_kept(before);
        if path::has_path(before, paths.last()) {
            let k = choose|k: int|
                0 <= k < before.len() && path::same_path(#[trigger] before[k], paths.last());
            assert(path::same_path(paths[k], paths[paths.len() - 1]));
        }
        assert(before.push(paths.last()) =~= paths);
    } else {
        assert(paths =~= seq![]);
    }
}

/// Wherever the system knows a folder, that is what counts, however it was
/// written; only a folder that it does not know counts as written.
pub proof fn law_known_folder_counts(written: PathView, p: PathView)
    ensures
        known_or_written(written, Some(p)) == p,
        known_or_written(written, None) == written,
{
}

/// The folders to watch are the chosen ones as the system knows them, or as
/// they are written where it knows none: each of them is such a one, each of
/// the chosen is among them, and none is there twice. So two that the system
/// knows as the same folder are watched once, as the system knows it.
pub proof fn law_resolved_folders_are_the_known_ones(
    chosen: Seq<PathView>,
    known: Seq<Option<PathView>>,
)
    requires
        known.len() == chosen.len(),
    ensures
        ({
            let watched = without_repeats(canonical(chosen, known));
            &&& forall|j: int|
                #![trigger watched[j]]
                0 <= j < watched.len() ==> exists|i: int|
                    #![trigger chosen[i], known[i]]
                    0 <= i < chosen.len() && (known[i] == Some(watched[j]) || known[i] is None
                        && chosen[i] == watched[j])
            &&& forall|i: int|
                #![trigger known[i]]
                0 <= i < chosen.len() ==> exists|j: int|
                    0 <= j < watched.len() && (#[trigger] watched[j]).parts == (match known[i] {
                        Some(p) => p,
                        None => chosen[i],
                    }).parts
            &&& forall|j: int, k: int|
                0 <= j < k < watched.len() ==> (#[trigger] watched[j]).parts != (
                #[trigger] watched[k]).parts
        }),
{
    let all = canonical(chosen, known);
    let watched = without_repeats(all);
    law_every_folder_is_watched(all);
    law_watched_folders_are_distinct(all);
    assert forall|j: int|
        #![trigger watched[j]]
        0 <= j < watched.len() implies exists|i: int|
        #![trigger chosen[i], known[i]]
        0 <= i < chosen.len() && (known[i] == Some(watched[j]) || known[i] is None && chosen[i]
            == watched[j]) by {
        assert(all.contains(watched[j]));
        let i = choose|i: int| 0 <= i < all.len() && all[i] == watched[j];
        assert(known[i] == Some(watched[j]) || known[i] is None && chosen[i] == watched[j]);
    }
    assert forall|i: int|
        #![trigger known[i]]
        0 <= i < chosen.len() implies exists|j: int|
        0 <= j < watched.len() && (#[trigger] watched[j]).parts == (match known[i] {
            Some(p) => p,
            None => chosen[i],
        }).parts by {
        assert(path::has_path(watched, all[i]));
        let j = choose|j: int|
            0 <= j < watched.len() && path::same_path(#[trigger] watched[j], all[i]);
        assert(watched[j].parts == all[i].parts);
    }
    assert forall|j: int, k: int| 0 <= j < k < watched.len() implies (#[trigger] watched[j]).parts
        != (#[trigger] watched[k]).parts by {
        assert(!path::same_path(watched[j], watched[k]));
    }
}

/// A further folder is watched behind the others, unless it repeats one of
/// them; so folders are watched in the order in which they first come up.
pub proof fn law_folders_are_watched_in_order(paths: Seq<PathView>, p: PathView)
    ensures
        without_repeats(Seq::empty()) == Seq::<PathView>::empty(),
        (exists|i: int| 0 <= i < paths.len() && (#[trigger] paths[i]).parts == p.parts)
            ==> without_repeats(paths.push(p)) == without_repeats(paths),
        !(exists|i: int| 0 <= i < paths.len() && (#[trigger] paths[i]).parts == p.parts)
            ==> without_repeats(paths.push(p)) == without_repeats(paths).push(p),
{
    assert(paths.push(p).drop_last() =~= paths);
    law_every_folder_is_watched(paths);
    let watched = without_repeats(paths);
    if exists|i: int| 0 <= i < paths.len() && (#[trigger] paths[i]).parts == p.parts {
        let i = choose|i: int| 0 <= i < paths.len() && (#[trigger] paths[i]).parts == p.parts;
        assert(path::has_path(watched, paths[i]));
        let j = choose|j: int|
            0 <= j < watched.len() && path::same_path(#[trigger] watched[j], paths[i]);
        assert(path::same_path(watched[j], p));
    }
    if path::has_path(watched, p) {
        let j = choose|j: int|
            0 <= j < watched.len() && path::same_path(#[trigger] watched[j], p);
        assert(paths.contains(watched[j]));
        let i = choose|i: int| 0 <= i < paths.len() && paths[i] == watched[j];
        assert(paths[i].parts == p.parts);
    }
}

/// Without folders on the command line and in the settings, the one that the
/// system's screenshot tool saves to is chosen, and that there is none is told.
pub proof fn law_default_folder_comes_last(
    cfg: ConfigView,
    dirs: BaseDirsView,
    platform: Platform,
    dir: PathView,
    f: FailureView,
)
    requires
        cfg.watch_dirs.len() == 0,
    ensures
        config::screenshot_dir(dirs, platform) == Ok::<PathView, FailureView>(dir)
            ==> chosen_folders(Seq::empty(), cfg, dirs, platform) == Ok::<
            Seq<PathView>,
            FailureView,
        >(seq![dir]),
        config::screenshot_dir(dirs, platform) == Err::<PathView, FailureView>(f)
            ==> chosen_folders(Seq::empty(), cfg, dirs, platform) == Err::<
            Seq<PathView>,
            FailureView,
        >(
            FailureView {
                context: "could not resolve default watch dir"@,
                cause: Some(failure::failure_text(f)),
            },
        ),
{
}

/// A folder is created exactly where it is the only one and the user has
/// chosen none.
pub proof fn law_only_the_default_folder_is_created(
    cli: Seq<PathView>,
    cfg: ConfigView,
    watched: Seq<PathView>,
    dir: PathView,
)
    ensures
        default_folder(cli, cfg, watched) == Some(dir) <==> cli.len() == 0 && cfg.watch_dirs.len()
            == 0 && watched == seq![dir],
{
    if default_folder(cli, cfg, watched) == Some(dir) {
        assert(watched =~= seq![dir]);
    }
}

/// The logs of all days lie in the folder `shotpaste` of the cache, each named
/// for its day.
pub proof fn law_each_day_has_its_log(dirs: BaseDirsView, platform: Platform, date: Seq<char>)
    ensures
        dirs.cache matches Some(cache) ==> {
            &&& log_folder(dirs, platform) == Some(path::joined(cache, "shotpaste"@, platform))
            &&& log_file(dirs, platform, date) == Some(
                path::joined(
                    path::joined(cache, "shotpaste"@, platform),
                    "shotpaste.log"@ + "."@ + date,
                    platform,
                ),
            )
        },
        dirs.cache is None ==> log_folder(dirs, platform) is None && log_file(
            dirs,
            platform,
            date,
        ) is None,
{
}

/// The command that ends autostart does what ending autostart takes. Purging
/// on Windows tries to remove the name of the toasts before that.
pub proof fn law_purge_removes_the_name_of_the_toasts(
    dirs: BaseDirsView,
    platform: Platform,
    purge: bool,
    steps: Seq<StepView>,
    f: FailureView,
)
    ensures
        installer::uninstall_plan(dirs, platform, purge) == Err::<Seq<StepView>, FailureView>(f)
            ==> uninstall_steps(dirs, platform, purge) == Err::<Seq<StepView>, FailureView>(f),
        installer::uninstall_plan(dirs, platform, purge) == Ok::<Seq<StepView>, FailureView>(steps)
            && !(purge && platform == Platform::Windows) ==> uninstall_steps(dirs, platform, purge)
            == Ok::<Seq<StepView>, FailureView>(steps),
        installer::uninstall_plan(dirs, Platform::Windows, true) == Ok::<
            Seq<StepView>,
            FailureView,
        >(steps) ==> uninstall_steps(dirs, Platform::Windows, true) == Ok::<
            Seq<StepView>,
            FailureView,
        >(
            seq![
                windows::script_step(windows_shortcut::remove_script(), CheckView::Ignore),
            ] + steps,
        ),
{
}

} // verus!
