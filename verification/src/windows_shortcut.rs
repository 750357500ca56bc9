//! The name under which Windows shows the toasts, in the user's registry.
use crate::failure;
use crate::failure::{Failure, FailureView};
use crate::installer;
use crate::installer::plan::{Check, CheckView, Step, StepView};
use crate::installer::windows;
use crate::installer::windows::run_script;
use crate::notify::AUMID;
use crate::path;
use crate::path::{FilePath, PathView};
use crate::powershell;
use crate::powershell::ps_squote;
use vstd::prelude::*;
use vstd::string::*;

verus! {

/// The registry key that holds one key for each such name.
pub const KEY_ROOT: &'static str = "HKCU:\\Software\\Classes\\AppUserModelId\\";

/// Gives the name `aumid` a title to show and the icon of the program `exe`.
pub open spec fn register_script(aumid: Seq<char>, exe: Seq<char>) -> Seq<char> {
    "$ErrorActionPreference='Stop';$key = "@ + powershell::quoted(KEY_ROOT@) + " + "@
        + powershell::quoted(aumid)
        + ";if (-not (Test-Path $key)) { New-Item -Path $key -Force | Out-Null };New-ItemProperty -Path $key -Name 'DisplayName' -Value 'shotpaste' -PropertyType String -Force | Out-Null;New-ItemProperty -Path $key -Name 'IconUri' -Value "@
        + powershell::quoted(exe) + " -PropertyType String -Force | Out-Null;"@
}

/// Removes what was registered for [`AUMID`]; that there is none is no failure.
pub open spec fn remove_script() -> Seq<char> {
    "$ErrorActionPreference='SilentlyContinue';Remove-Item -Path "@ + powershell::quoted(
        KEY_ROOT@ + AUMID@,
    ) + " -Recurse -Force;"@
}

/// The step that registers the name `aumid` for the program `exe`, or why there is none.
pub open spec fn register_step(aumid: Seq<char>, exe: Result<PathView, Seq<char>>) -> Result<
    StepView,
    FailureView,
> {
    match exe {
        Err(cause) => Err(
            failure::caused_failure("failed to determine shotpaste binary path"@, cause),
        ),
        Ok(exe) => match path::path_text(exe) {
            None => Err(
                failure::plain_failure(
                    "shotpaste path is not valid UTF-8 (rename the install dir)"@,
                ),
            ),
            Some(exe_text) => Ok(
                windows::script_step(
                    register_script(aumid, exe_text),
                    CheckView::Success(
                        "failed to invoke PowerShell"@,
                        "AUMID registration failed: "@,
                    ),
                ),
            ),
        },
    }
}

/// The step that registers the name `aumid` for the program `exe`. It may be
/// done any number of times.
pub fn ensure_aumid_shortcut(aumid: &str, exe: &Result<FilePath, String>) -> (r: Result<
    Step,
    Failure,
>)
    ensures
        (match (r, register_step(aumid@, installer::exe_view(*exe))) {
            (Ok(step), Ok(expected)) => step.deep_view() == expected,
            (Err(e), Err(f)) => e@ == f,
            _ => false,
        }),
{
    match exe {
        Err(cause) => Err(
            Failure::caused("failed to determine shotpaste binary path".to_owned(), cause.clone()),
        ),
        Ok(exe) => match exe.to_text() {
            None => Err(
                Failure::plain(
                    "shotpaste path is not valid UTF-8 (rename the install dir)".to_owned(),
                ),
            ),
            Some(exe_text) => {
                let script = "$ErrorActionPreference='Stop';$key = ".to_owned().concat(
                    ps_squote(KEY_ROOT).as_str(),
                ).concat(" + ").concat(ps_squote(aumid).as_str()).concat(
                    ";if (-not (Test-Path $key)) { New-Item -Path $key -Force | Out-Null };New-ItemProperty -Path $key -Name 'DisplayName' -Value 'shotpaste' -PropertyType String -Force | Out-Null;New-ItemProperty -Path $key -Name 'IconUri' -Value ",
                ).concat(ps_squote(exe_text.as_str()).as_str()).concat(
                    " -PropertyType String -Force | Out-Null;",
                );
                Ok(
                    run_script(
                        script,
                        Check::Success(
                            "failed to invoke PowerShell".to_owned(),
                            "AUMID registration failed: ".to_owned(),
                        ),
                    ),
                )
            },
        },
    }
}

/// The step that removes what was registered for [`AUMID`]. Whatever comes of
/// it is passed over.
pub fn remove_aumid_shortcut() -> (r: Step)
    ensures
        r.deep_view() == windows::script_step(remove_script(), CheckView::Ignore),
{
    let key = KEY_ROOT.to_owned().concat(AUMID);
    let script = "$ErrorActionPreference='SilentlyContinue';Remove-Item -Path ".to_owned().concat(
        ps_squote(key.as_str()).as_str(),
    ).concat(" -Recurse -Force;");
    run_script(script, Check::Ignore)
}

/// The scripts name the registry key, the name of the toasts and the program
/// in quotes, and so each in one piece.
pub proof fn law_scripts_name_the_key(aumid: Seq<char>, exe: Seq<char>)
    ensures
        register_script(aumid, exe) == "$ErrorActionPreference='Stop';$key = "@
            + powershell::quoted("HKCU:\\Software\\Classes\\AppUserModelId\\"@) + " + "@
            + powershell::quoted(aumid)
            + ";if (-not (Test-Path $key)) { New-Item -Path $key -Force | Out-Null };New-ItemProperty -Path $key -Name 'DisplayName' -Value 'shotpaste' -PropertyType String -Force | Out-Null;New-ItemProperty -Path $key -Name 'IconUri' -Value "@
            + powershell::quoted(exe) + " -PropertyType String -Force | Out-Null;"@,
        remove_script() == "$ErrorActionPreference='SilentlyContinue';Remove-Item -Path "@
            + powershell::quoted("HKCU:\\Software\\Classes\\AppUserModelId\\"@ + "dev.shotpaste.watcher"@)
            + " -Recurse -Force;"@,
{
}

/// The name is registered by a script for the program that asks, which has to
/// succeed; it fails only where the program's path is not known or no text.
pub proof fn law_name_is_registered_for_the_asking_program(
    aumid: Seq<char>,
    exe: PathView,
    cause: Seq<char>,
)
    ensures
        path::path_text(exe) matches Some(exe_text) ==> register_step(aumid, Ok(exe)) == Ok::<
            StepView,
            FailureView,
        >(
            windows::script_step(
                register_script(aumid, exe_text),
                CheckView::Success("failed to invoke PowerShell"@, "AUMID registration failed: "@),
            ),
        ),
        path::path_text(exe) is None ==> register_step(aumid, Ok(exe)) == Err::<
            StepView,
            FailureView,
        >(
            FailureView {
                context: "shotpaste path is not valid UTF-8 (rename the install dir)"@,
                cause: None,
            },
        ),
        register_step(aumid, Err(cause)) == Err::<StepView, FailureView>(
            FailureView {
                context: "failed to determine shotpaste binary path"@,
                cause: Some(cause),
            },
        ),
{
}

} // verus!
