//! Starting the watcher when the user logs in.
//!
//! Windows has a scheduled task for it, macOS a LaunchAgent and Linux a
//! systemd unit of the user. Registering is repeatable: it always writes the
//! entry anew, for the program that asks.
use crate::base_dirs::{BaseDirs, BaseDirsView};
use crate::config;
use crate::config::SavePlan;
use crate::failure;
use crate::failure::{Failure, FailureView};
use crate::installer::plan::{Step, StepView};
use crate::path::{FilePath, PathView};
use crate::platform::Platform;
use vstd::prelude::*;
use vstd::string::*;

pub mod laws;
pub mod linux;
pub mod macos;
pub mod plan;
pub mod status;
pub mod windows;

pub use status::status;

verus! {

/// The contents of what the system answered when asked for the program's own path.
pub open spec fn exe_view(exe: Result<FilePath, String>) -> Result<PathView, Seq<char>> {
    match exe {
        Ok(p) => Ok(p@),
        Err(cause) => Err(cause@),
    }
}

/// The steps that give the user a settings file, unless there is one.
pub open spec fn config_steps(dirs: BaseDirsView, platform: Platform) -> Seq<StepView> {
    match dirs.config {
        Some(dir) => seq![
            StepView::IfExists { path: config::config_file(dir, platform), count: 1 },
            StepView::SaveDefaults {
                folder: config::config_folder(dir, platform),
                file: config::config_file(dir, platform),
            },
        ],
        None => seq![],
    }
}

/// The steps that remove the settings, if there are any.
pub open spec fn purge_steps(dirs: BaseDirsView, platform: Platform) -> Seq<StepView> {
    match dirs.config {
        Some(dir) => seq![
            StepView::UnlessExists { path: config::config_folder(dir, platform), count: 1 },
            StepView::RemoveDir {
                path: config::config_folder(dir, platform),
                context: "failed to remove config dir"@,
            },
        ],
        None => seq![],
    }
}

/// The steps that register the program on a system that has a way to.
pub open spec fn register_steps(
    exe: PathView,
    dirs: BaseDirsView,
    platform: Platform,
    from_tray: bool,
) -> Result<Seq<StepView>, FailureView> {
    match platform {
        Platform::Windows => windows::install_steps(exe, dirs, from_tray),
        Platform::MacOs => macos::install_steps(exe, dirs),
        Platform::Linux => linux::install_steps(exe, dirs),
        Platform::Unsupported => Err(
            failure::plain_failure("`shotpaste install` is not implemented on this platform"@),
        ),
    }
}

/// The steps of registering the program, or why there are none.
pub open spec fn install_plan(
    exe: Result<PathView, Seq<char>>,
    dirs: BaseDirsView,
    platform: Platform,
    from_tray: bool,
) -> Result<Seq<StepView>, FailureView> {
    match (platform, exe) {
        (Platform::Unsupported, _) => Err(
            failure::plain_failure("`shotpaste install` is not implemented on this platform"@),
        ),
        (_, Err(cause)) => Err(
            failure::caused_failure("failed to determine shotpaste binary path"@, cause),
        ),
        (_, Ok(exe)) => match register_steps(exe, dirs, platform, from_tray) {
            Ok(steps) => Ok(steps + config_steps(dirs, platform)),
            Err(f) => Err(f),
        },
    }
}

/// The steps of ending autostart, without those on the settings.
pub open spec fn unregister_steps(dirs: BaseDirsView, platform: Platform) -> Result<
    Seq<StepView>,
    FailureView,
> {
    match platform {
        Platform::Windows => Ok(windows::uninstall_steps(dirs)),
        Platform::MacOs => macos::uninstall_steps(dirs),
        Platform::Linux => Ok(linux::uninstall_steps(dirs)),
        Platform::Unsupported => Err(
            failure::plain_failure("`shotpaste uninstall` is not implemented on this platform"@),
        ),
    }
}

/// The steps of ending autostart, and of removing the settings if `purge`.
pub open spec fn uninstall_plan(dirs: BaseDirsView, platform: Platform, purge: bool) -> Result<
    Seq<StepView>,
    FailureView,
> {
    match unregister_steps(dirs, platform) {
        Ok(steps) => if purge {
            Ok(steps + purge_steps(dirs, platform))
        } else {
            Ok(steps)
        },
        Err(f) => Err(f),
    }
}

/// The steps of registering the program `exe`. `from_tray` says that the
/// watcher runs already, and is not to be started once more.
pub fn install(
    exe: &Result<FilePath, String>,
    dirs: &BaseDirs,
    platform: Platform,
    from_tray: bool,
) -> (r: Result<Vec<Step>, Failure>)
    ensures
        (match (r, install_plan(exe_view(*exe), dirs@, platform, from_tray)) {
            (Ok(steps), Ok(expected)) => steps.deep_view() == expected,
            (Err(e), Err(f)) => e@ == f,
            _ => false,
        }),
{
    if let Platform::Unsupported = platform {
        return Err(
            Failure::plain("`shotpaste install` is not implemented on this platform".to_owned()),
        );
    }
    let exe = match exe {
        Ok(p) => p,
        Err(cause) => {
            return Err(
                Failure::caused(
                    "failed to determine shotpaste binary path".to_owned(),
                    cause.clone(),
                ),
            );
        },
    };
    let registered = match platform {
        Platform::Windows => windows::install(exe, dirs, from_tray),
        Platform::MacOs => macos::install(exe, dirs),
        _ => linux::install(exe, dirs),
    };
    match registered {
        Ok(steps) => {
            let mut steps = steps;
            let ghost before = steps.deep_view();
            if let Some(dir) = &dirs.config {
                let folder = dir.join("shotpaste", platform);
                let file = folder.join("config.toml", platform);
                steps.push(Step::IfExists { path: file.duplicate(), count: 1 });
                steps.push(Step::SaveDefaults(SavePlan { folder, file }));
            }
            assert(steps.deep_view() =~= before + config_steps(dirs@, platform));
            Ok(steps)
        },
        Err(f) => Err(f),
    }
}

/// The steps of ending autostart, and of removing the settings if `purge`.
pub fn uninstall(dirs: &BaseDirs, platform: Platform, purge: bool) -> (r: Result<
    Vec<Step>,
    Failure,
>)
    ensures
        (match (r, uninstall_plan(dirs@, platform, purge)) {
            (Ok(steps), Ok(expected)) => steps.deep_view() == expected,
            (Err(e), Err(f)) => e@ == f,
            _ => false,
        }),
{
    let ended = match platform {
        Platform::Windows => Ok(windows::uninstall(dirs)),
        Platform::MacOs => macos::uninstall(dirs),
        Platform::Linux => Ok(linux::uninstall(dirs)),
        Platform::Unsupported => Err(
            Failure::plain("`shotpaste uninstall` is not implemented on this platform".to_owned()),
        ),
    };
    match ended {
        Ok(steps) => {
            let mut steps = steps;
            if purge {
                purge_config(&mut steps, dirs, platform);
            }
            Ok(steps)
        },
        Err(f) => Err(f),
    }
}

/// The steps of turning autostart on or off in the tray: on registers the
/// program without starting it once more, off ends autostart and leaves the
/// settings alone.
pub fn autostart_steps(
    on: bool,
    exe: &Result<FilePath, String>,
    dirs: &BaseDirs,
    platform: Platform,
) -> (r: Result<Vec<Step>, Failure>)
    ensures
        (match (
            r,
            if on {
                install_plan(exe_view(*exe), dirs@, platform, true)
            } else {
                uninstall_plan(dirs@, platform, false)
            },
        ) {
            (Ok(steps), Ok(expected)) => steps.deep_view() == expected,
            (Err(e), Err(f)) => e@ == f,
            _ => false,
        }),
{
    if on {
        install(exe, dirs, platform, true)
    } else {
        uninstall(dirs, platform, false)
    }
}

/// Adds the steps that remove the settings.
pub fn purge_config(steps: &mut Vec<Step>, dirs: &BaseDirs, platform: Platform)
    ensures
        final(steps).deep_view() == old(steps).deep_view() + purge_steps(dirs@, platform),
{
    if let Some(dir) = &dirs.config {
        let folder = dir.join("shotpaste", platform);
        steps.push(Step::UnlessExists { path: folder.duplicate(), count: 1 });
        steps.push(
            Step::RemoveDir { path: folder, context: "failed to remove config dir".to_owned() },
        );
    }
    assert(steps.deep_view() =~= old(steps).deep_view() + purge_steps(dirs@, platform));
}

/// The file that is there while autostart is registered.
pub open spec fn marker(dirs: BaseDirsView, platform: Platform) -> Option<PathView> {
    match platform {
        Platform::Windows => windows::vbs_file(dirs),
        Platform::MacOs => macos::plist_file(dirs),
        Platform::Linux => linux::unit_file(dirs),
        Platform::Unsupported => None,
    }
}

/// The file that is there while autostart is registered. Without one,
/// autostart counts as not registered.
pub fn installer_installed(dirs: &BaseDirs, platform: Platform) -> (r: Option<FilePath>)
    ensures
        r.deep_view() == marker(dirs@, platform),
{
    let found = match platform {
        Platform::Windows => windows::vbs_path(dirs),
        Platform::MacOs => macos::plist_path(dirs),
        Platform::Linux => linux::unit_path(dirs),
        Platform::Unsupported => {
            return None;
        },
    };
    match found {
        Ok(p) => Some(p),
        Err(_) => None,
    }
}

} // verus!
