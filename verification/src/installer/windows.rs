//! Autostart on Windows: a scheduled task at logon that runs a script which
//! starts the watcher without a window.
use crate::base_dirs::{BaseDirs, BaseDirsView};
use crate::failure;
use crate::failure::{Failure, FailureView};
use crate::installer::plan::{Arg, ArgView, Check, CheckView, Step, StepView};
use crate::path;
use crate::path::{FilePath, PathView};
use crate::platform::Platform;
use crate::powershell;
use crate::powershell::{ps_squote, run_powershell, POWERSHELL};
use crate::text;
use crate::text::{from_utf8_lossy, last_line, replace_char, same_text, split, strip_prefix, trim};
use vstd::prelude::*;
use vstd::string::*;

verus! {

/// The name of the scheduled task.
pub const TASK_NAME: &'static str = "Shotpaste";

/// The name of the script that starts the watcher.
pub const VBS_NAME: &'static str = "shotpaste-watch.vbs";

/// The file of the script that starts the watcher.
pub open spec fn vbs_file(dirs: BaseDirsView) -> Option<PathView> {
    match dirs.data_local {
        Some(local) => Some(
            path::joined(
                path::joined(local, "shotpaste"@, Platform::Windows),
                VBS_NAME@,
                Platform::Windows,
            ),
        ),
        None => None,
    }
}

/// The folder of that file.
pub open spec fn vbs_folder(local: PathView) -> PathView {
    path::joined(local, "shotpaste"@, Platform::Windows)
}

/// The file of the script that starts the watcher.
pub fn vbs_path(dirs: &BaseDirs) -> (r: Result<FilePath, Failure>)
    ensures
        (match (r, vbs_file(dirs@)) {
            (Ok(p), Some(file)) => p@ == file,
            (Err(e), None) => e@ == failure::plain_failure("failed to resolve LocalAppData"@),
            _ => false,
        }),
{
    match &dirs.data_local {
        Some(local) => Ok(
            local.join("shotpaste", Platform::Windows).join(VBS_NAME, Platform::Windows),
        ),
        None => Err(Failure::plain("failed to resolve LocalAppData".to_owned())),
    }
}

/// The script that starts the watcher `exe` with its window hidden.
pub open spec fn vbs_text(exe: Seq<char>) -> Seq<char> {
    "Set oShell = CreateObject(\"WScript.Shell\")\r\noShell.Run \"\"\""@ + text::replaced(
        exe,
        '"',
        "\"\""@,
    ) + "\"\" watch\", 0, False\r\n"@
}

fn vbs_body(exe: &str) -> (r: String)
    ensures
        r@ == vbs_text(exe@),
{
    "Set oShell = CreateObject(\"WScript.Shell\")\r\noShell.Run \"\"\"".to_owned().concat(
        replace_char(exe, '"', "\"\"").as_str(),
    ).concat("\"\" watch\", 0, False\r\n")
}

/// Registers the task; its action is to run the script `vbs`.
pub open spec fn register_script(vbs: Seq<char>) -> Seq<char> {
    "$ErrorActionPreference='Stop';$action = New-ScheduledTaskAction -Execute "@
        + powershell::quoted("wscript.exe"@) + " -Argument "@ + powershell::quoted(
        "\""@ + vbs + "\""@,
    )
        + ";$trigger = New-ScheduledTaskTrigger -AtLogOn -User $env:USERNAME;$settings = New-ScheduledTaskSettingsSet -AllowStartIfOnBatteries -DontStopIfGoingOnBatteries -StartWhenAvailable;$task = New-ScheduledTask -Action $action -Trigger $trigger -Settings $settings;Register-ScheduledTask -TaskName "@
        + powershell::quoted(TASK_NAME@) + " -InputObject $task -Force | Out-Null;"@
}

/// Starts the task.
pub open spec fn start_script() -> Seq<char> {
    "Start-ScheduledTask -TaskName "@ + powershell::quoted(TASK_NAME@) + ";"@
}

/// Registers the task and starts it, unless the watcher that asks runs already.
pub open spec fn install_script(vbs: Seq<char>, from_tray: bool) -> Seq<char> {
    if from_tray {
        register_script(vbs)
    } else {
        register_script(vbs) + start_script()
    }
}

fn script_for_install(vbs: &str, from_tray: bool) -> (r: String)
    ensures
        r@ == install_script(vbs@, from_tray),
{
    let argument = "\"".to_owned().concat(vbs).concat("\"");
    let register =
        "$ErrorActionPreference='Stop';$action = New-ScheduledTaskAction -Execute ".to_owned().concat(
        ps_squote("wscript.exe").as_str(),
    ).concat(" -Argument ").concat(ps_squote(argument.as_str()).as_str()).concat(
        ";$trigger = New-ScheduledTaskTrigger -AtLogOn -User $env:USERNAME;$settings = New-ScheduledTaskSettingsSet -AllowStartIfOnBatteries -DontStopIfGoingOnBatteries -StartWhenAvailable;$task = New-ScheduledTask -Action $action -Trigger $trigger -Settings $settings;Register-ScheduledTask -TaskName ",
    ).concat(ps_squote(TASK_NAME).as_str()).concat(" -InputObject $task -Force | Out-Null;");
    if from_tray {
        register
    } else {
        let start = "Start-ScheduledTask -TaskName ".to_owned().concat(
            ps_squote(TASK_NAME).as_str(),
        ).concat(";");
        register.concat(start.as_str())
    }
}

/// Stops the task and removes it; that there is none is no failure.
pub open spec fn uninstall_script() -> Seq<char> {
    "$ErrorActionPreference='SilentlyContinue';try { Stop-ScheduledTask -TaskName "@
        + powershell::quoted(TASK_NAME@) + " } catch {};Unregister-ScheduledTask -TaskName "@
        + powershell::quoted(TASK_NAME@) + " -Confirm:$false;"@
}

fn script_for_uninstall() -> (r: String)
    ensures
        r@ == uninstall_script(),
{
    "$ErrorActionPreference='SilentlyContinue';try { Stop-ScheduledTask -TaskName ".to_owned().concat(
        ps_squote(TASK_NAME).as_str(),
    ).concat(" } catch {};Unregister-ScheduledTask -TaskName ").concat(
        ps_squote(TASK_NAME).as_str(),
    ).concat(" -Confirm:$false;")
}

/// Writes one line on the task.
pub open spec fn status_script() -> Seq<char> {
    "$ErrorActionPreference='Stop';try { $t = Get-ScheduledTask -TaskName "@ + powershell::quoted(
        TASK_NAME@,
    ) + " -ErrorAction Stop; $i = Get-ScheduledTaskInfo -TaskName "@ + powershell::quoted(
        TASK_NAME@,
    )
        + "; 'REGISTERED|' + $t.State + '|' + $i.LastRunTime + '|' + $i.LastTaskResult; } catch { 'MISSING' };"@
}

/// The script that writes one line on the task.
pub fn script_for_status() -> (r: String)
    ensures
        r@ == status_script(),
{
    "$ErrorActionPreference='Stop';try { $t = Get-ScheduledTask -TaskName ".to_owned().concat(
        ps_squote(TASK_NAME).as_str(),
    ).concat(" -ErrorAction Stop; $i = Get-ScheduledTaskInfo -TaskName ").concat(
        ps_squote(TASK_NAME).as_str(),
    ).concat(
        "; 'REGISTERED|' + $t.State + '|' + $i.LastRunTime + '|' + $i.LastTaskResult; } catch { 'MISSING' };",
    )
}

/// The step that has PowerShell run `script`.
pub open spec fn script_step(script: Seq<char>, check: CheckView) -> StepView {
    StepView::Run {
        program: POWERSHELL@,
        args: powershell::script_words(script).map_values(|w: Seq<char>| ArgView::Text(w)),
        check,
    }
}

pub(crate) fn run_script(script: String, check: Check) -> (r: Step)
    ensures
        r.deep_view() == script_step(script@, check@),
{
    let mut words = run_powershell(script);
    let ghost all = words.deep_view();
    let mut args: Vec<Arg> = Vec::new();
    let n: usize = words.len();
    let mut i: usize = 0;
    while i < n
        invariant
            0 <= i <= n,
            n == words@.len(),
            words.deep_view() == all,
            args@.len() == i,
            forall|j: int| 0 <= j < i ==> (#[trigger] args@[j]).deep_view() == ArgView::Text(all[j]),
        decreases n - i,
    {
        args.push(Arg::Text(words[i].clone()));
        i += 1;
    }
    assert(args.deep_view() =~= all.map_values(|w: Seq<char>| ArgView::Text(w)));
    Step::Run { program: POWERSHELL.to_owned(), args, check }
}

/// The steps that register the watcher `exe`, without those on the settings.
pub open spec fn install_steps(
    exe: PathView,
    dirs: BaseDirsView,
    from_tray: bool,
) -> Result<Seq<StepView>, FailureView> {
    match (path::path_text(exe), dirs.data_local) {
        (None, _) => Err(
            failure::plain_failure("shotpaste path is not valid UTF-8 (rename the install dir)"@),
        ),
        (_, None) => Err(failure::plain_failure("failed to resolve LocalAppData"@)),
        (Some(exe_text), Some(local)) => {
            let vbs = path::joined(vbs_folder(local), VBS_NAME@, Platform::Windows);
            Ok(
                seq![
                    StepView::CreateDir {
                        path: vbs_folder(local),
                        context: "failed to create shotpaste state dir"@,
                    },
                    StepView::WriteFile {
                        path: vbs,
                        text: vbs_text(exe_text),
                        context: "failed to write VBS shim"@,
                    },
                    match path::path_text(vbs) {
                        Some(vbs_text) => script_step(
                            install_script(vbs_text, from_tray),
                            CheckView::Success(
                                "failed to invoke PowerShell"@,
                                "Register-ScheduledTask failed: "@,
                            ),
                        ),
                        None => StepView::Abort(
                            failure::plain_failure("VBS path is not valid UTF-8"@),
                        ),
                    },
                ],
            )
        },
    }
}

/// The steps that register the watcher `exe`.
pub fn install(exe: &FilePath, dirs: &BaseDirs, from_tray: bool) -> (r: Result<
    Vec<Step>,
    Failure,
>)
    ensures
        (match (r, install_steps(exe@, dirs@, from_tray)) {
            (Ok(steps), Ok(expected)) => steps.deep_view() == expected,
            (Err(e), Err(f)) => e@ == f,
            _ => false,
        }),
{
    let exe_text = match exe.to_text() {
        Some(s) => s,
        None => {
            return Err(
                Failure::plain(
                    "shotpaste path is not valid UTF-8 (rename the install dir)".to_owned(),
                ),
            );
        },
    };
    let folder = match &dirs.data_local {
        Some(local) => local.join("shotpaste", Platform::Windows),
        None => {
            return Err(Failure::plain("failed to resolve LocalAppData".to_owned()));
        },
    };
    let vbs = folder.join(VBS_NAME, Platform::Windows);
    let last = match vbs.to_text() {
        Some(s) => run_script(
            script_for_install(s.as_str(), from_tray),
            Check::Success(
                "failed to invoke PowerShell".to_owned(),
                "Register-ScheduledTask failed: ".to_owned(),
            ),
        ),
        None => Step::Abort(Failure::plain("VBS path is not valid UTF-8".to_owned())),
    };
    let mut steps: Vec<Step> = Vec::new();
    steps.push(
        Step::CreateDir { path: folder, context: "failed to create shotpaste state dir".to_owned() },
    );
    steps.push(
        Step::WriteFile {
            path: vbs,
            text: vbs_body(exe_text.as_str()),
            context: "failed to write VBS shim".to_owned(),
        },
    );
    steps.push(last);
    assert(steps.deep_view() =~= install_steps(exe@, dirs@, from_tray)->Ok_0);
    Ok(steps)
}

/// The steps that end autostart, without those on the settings.
pub open spec fn uninstall_steps(dirs: BaseDirsView) -> Seq<StepView> {
    let first = script_step(
        uninstall_script(),
        CheckView::Start("failed to invoke PowerShell"@),
    );
    match vbs_file(dirs) {
        Some(vbs) => seq![
            first,
            StepView::UnlessExists { path: vbs, count: 1 },
            StepView::RemoveFile { path: vbs, tell: None },
        ],
        None => seq![first],
    }
}

/// The steps that end autostart.
pub fn uninstall(dirs: &BaseDirs) -> (r: Vec<Step>)
    ensures
        r.deep_view() == uninstall_steps(dirs@),
{
    let mut steps: Vec<Step> = Vec::new();
    steps.push(
        run_script(
            script_for_uninstall(),
            Check::Start("failed to invoke PowerShell".to_owned()),
        ),
    );
    if let Ok(vbs) = vbs_path(dirs) {
        steps.push(Step::UnlessExists { path: vbs.duplicate(), count: 1 });
        steps.push(Step::RemoveFile { path: vbs, tell: None });
    }
    assert(steps.deep_view() =~= uninstall_steps(dirs@));
    steps
}

/// The piece `i` of a split text, or `?` if there are fewer.
pub open spec fn piece(pieces: Seq<Seq<char>>, i: int) -> Seq<char> {
    if i < pieces.len() {
        pieces[i]
    } else {
        "?"@
    }
}

/// What to tell about the line that the status script wrote.
pub open spec fn status_lines(line: Seq<char>) -> Seq<Seq<char>> {
    if line == "MISSING"@ {
        seq![
            "shotpaste: not installed (Scheduled Task '"@ + TASK_NAME@ + "' missing)."@,
            "  run `shotpaste install` to register it"@,
        ]
    } else {
        match text::after_prefix(line, "REGISTERED|"@) {
            Some(rest) => {
                let pieces = text::split_at_char(rest, '|');
                seq![
                    "shotpaste: Scheduled Task '"@ + TASK_NAME@ + "' is registered."@,
                    "  state:       "@ + piece(pieces, 0),
                    "  last run:    "@ + piece(pieces, 1),
                    "  last result: "@ + piece(pieces, 2),
                ]
            },
            None => seq!["shotpaste: status check returned unexpected output: "@ + line],
        }
    }
}

/// The line that counts in what the status script wrote: the last one.
pub open spec fn status_line(stdout: Seq<u8>) -> Seq<char> {
    text::trimmed(text::last_line_text(text::lossy_text(stdout)))
}

fn piece_of(pieces: &Vec<String>, i: usize) -> (r: String)
    ensures
        r@ == piece(pieces.deep_view(), i as int),
{
    if i < pieces.len() {
        pieces[i].clone()
    } else {
        "?".to_owned()
    }
}

/// What to tell about the task, given what the status script wrote.
pub fn status(stdout: &Vec<u8>) -> (r: Vec<String>)
    ensures
        r.deep_view() == status_lines(status_line(stdout@)),
{
    let line = trim(last_line(from_utf8_lossy(stdout).as_str()).as_str());
    lines_for(line.as_str())
}

/// What to tell about the task, given the line on it.
pub fn lines_for(line: &str) -> (r: Vec<String>)
    ensures
        r.deep_view() == status_lines(line@),
{
    let mut lines: Vec<String> = Vec::new();
    if same_text(line, "MISSING") {
        lines.push(
            "shotpaste: not installed (Scheduled Task '".to_owned().concat(TASK_NAME).concat(
                "' missing).",
            ),
        );
        lines.push("  run `shotpaste install` to register it".to_owned());
    } else {
        match strip_prefix(line, "REGISTERED|") {
            Some(rest) => {
                let pieces = split(rest.as_str(), '|');
                lines.push(
                    "shotpaste: Scheduled Task '".to_owned().concat(TASK_NAME).concat(
                        "' is registered.",
                    ),
                );
                lines.push("  state:       ".to_owned().concat(piece_of(&pieces, 0).as_str()));
                lines.push("  last run:    ".to_owned().concat(piece_of(&pieces, 1).as_str()));
                lines.push("  last result: ".to_owned().concat(piece_of(&pieces, 2).as_str()));
            },
            None => {
                lines.push(
                    "shotpaste: status check returned unexpected output: ".to_owned().concat(line),
                );
            },
        }
    }
    assert(lines.deep_view() =~= status_lines(line@));
    lines
}

/// The script that starts the watcher names its path with the quotes doubled,
/// and so in one piece, and hides its window.
pub proof fn law_script_starts_the_watcher(exe: Seq<char>)
    ensures
        vbs_text(exe) == "Set oShell = CreateObject(\"WScript.Shell\")\r\noShell.Run \"\"\""@
            + text::replaced(exe, '"', "\"\""@) + "\"\" watch\", 0, False\r\n"@,
{
}

/// The scripts for PowerShell name the task and the file in quotes, and so
/// each in one piece.
pub proof fn law_scripts_name_the_task(vbs: Seq<char>)
    ensures
        ({
            let task = powershell::quoted("Shotpaste"@);
            let register =
                "$ErrorActionPreference='Stop';$action = New-ScheduledTaskAction -Execute "@
                + powershell::quoted("wscript.exe"@) + " -Argument "@ + powershell::quoted(
                "\""@ + vbs + "\""@,
            )
                + ";$trigger = New-ScheduledTaskTrigger -AtLogOn -User $env:USERNAME;$settings = New-ScheduledTaskSettingsSet -AllowStartIfOnBatteries -DontStopIfGoingOnBatteries -StartWhenAvailable;$task = New-ScheduledTask -Action $action -Trigger $trigger -Settings $settings;Register-ScheduledTask -TaskName "@
                + task + " -InputObject $task -Force | Out-Null;"@;
            &&& install_script(vbs, true) == register
            &&& install_script(vbs, false) == register + ("Start-ScheduledTask -TaskName "@ + task
                + ";"@)
            &&& uninstall_script()
                == "$ErrorActionPreference='SilentlyContinue';try { Stop-ScheduledTask -TaskName "@
                + task + " } catch {};Unregister-ScheduledTask -TaskName "@ + task
                + " -Confirm:$false;"@
            &&& status_script()
                == "$ErrorActionPreference='Stop';try { $t = Get-ScheduledTask -TaskName "@ + task
                + " -ErrorAction Stop; $i = Get-ScheduledTaskInfo -TaskName "@ + task
                + "; 'REGISTERED|' + $t.State + '|' + $i.LastRunTime + '|' + $i.LastTaskResult; } catch { 'MISSING' };"@
        }),
{
}

/// A script is run by PowerShell, as the last of its words, and judged as asked.
pub proof fn law_script_is_run_by_powershell(script: Seq<char>, check: CheckView)
    ensures
        script_step(script, check) == (StepView::Run {
            program: "powershell.exe"@,
            args: seq![
                ArgView::Text("-NoLogo"@),
                ArgView::Text("-NoProfile"@),
                ArgView::Text("-NonInteractive"@),
                ArgView::Text("-ExecutionPolicy"@),
                ArgView::Text("Bypass"@),
                ArgView::Text("-Command"@),
                ArgView::Text(script),
            ],
            check,
        }),
{
    assert(script_step(script, check)->args =~= seq![
        ArgView::Text("-NoLogo"@),
        ArgView::Text("-NoProfile"@),
        ArgView::Text("-NonInteractive"@),
        ArgView::Text("-ExecutionPolicy"@),
        ArgView::Text("Bypass"@),
        ArgView::Text("-Command"@),
        ArgView::Text(script),
    ]);
}

/// Registering creates the folder of the script, writes the script and
/// registers the task; it fails only on a path that is no text, or without a
/// folder for the data.
pub proof fn law_task_is_registered(
    exe: PathView,
    dirs: BaseDirsView,
    local: PathView,
    exe_text: Seq<char>,
    from_tray: bool,
)
    ensures
        ({
            let folder = path::joined(local, "shotpaste"@, Platform::Windows);
            let vbs = path::joined(folder, "shotpaste-watch.vbs"@, Platform::Windows);
            &&& dirs.data_local == Some(local) ==> vbs_file(dirs) == Some(vbs)
            &&& dirs.data_local is None ==> vbs_file(dirs) is None
            &&& path::path_text(exe) == Some(exe_text) && dirs.data_local == Some(local) ==> {
                let steps = install_steps(exe, dirs, from_tray)->Ok_0;
                &&& install_steps(exe, dirs, from_tray) is Ok
                &&& steps.len() == 3
                &&& steps[0] == (StepView::CreateDir {
                    path: folder,
                    context: "failed to create shotpaste state dir"@,
                })
                &&& steps[1] == (StepView::WriteFile {
                    path: vbs,
                    text: vbs_text(exe_text),
                    context: "failed to write VBS shim"@,
                })
                &&& path::path_text(vbs) matches Some(s) ==> steps[2] == script_step(
                    install_script(s, from_tray),
                    CheckView::Success(
                        "failed to invoke PowerShell"@,
                        "Register-ScheduledTask failed: "@,
                    ),
                )
                &&& path::path_text(vbs) is None ==> steps[2] == StepView::Abort(
                    FailureView { context: "VBS path is not valid UTF-8"@, cause: None },
                )
            }
            &&& path::path_text(exe) is None ==> install_steps(exe, dirs, from_tray) == Err::<
                Seq<StepView>,
                FailureView,
            >(
                FailureView {
                    context: "shotpaste path is not valid UTF-8 (rename the install dir)"@,
                    cause: None,
                },
            )
            &&& path::path_text(exe) is Some && dirs.data_local is None ==> install_steps(
                exe,
                dirs,
                from_tray,
            ) == Err::<Seq<StepView>, FailureView>(
                FailureView { context: "failed to resolve LocalAppData"@, cause: None },
            )
        }),
{
}

/// Ending autostart stops and removes the task, and then tries to remove the
/// script if it is there.
pub proof fn law_task_is_removed(dirs: BaseDirsView, vbs: PathView)
    ensures
        ({
            let remove = script_step(
                uninstall_script(),
                CheckView::Start("failed to invoke PowerShell"@),
            );
            &&& vbs_file(dirs) == Some(vbs) ==> uninstall_steps(dirs) == seq![
                remove,
                StepView::UnlessExists { path: vbs, count: 1 },
                StepView::RemoveFile { path: vbs, tell: None },
            ]
            &&& vbs_file(dirs) is None ==> uninstall_steps(dirs) == seq![remove]
        }),
{
}

/// The line of the status script is read piece by piece, and what is missing
/// in it shown as a question mark; any other line is told as it is. Of several
/// lines the last one counts.
pub proof fn law_line_on_the_task_is_told(rest: Seq<char>, line: Seq<char>, stdout: Seq<u8>)
    ensures
        status_lines("MISSING"@) == seq![
            "shotpaste: not installed (Scheduled Task '"@ + "Shotpaste"@ + "' missing)."@,
            "  run `shotpaste install` to register it"@,
        ],
        ({
            let pieces = text::split_at_char(rest, '|');
            status_lines("REGISTERED|"@ + rest) == seq![
                "shotpaste: Scheduled Task '"@ + "Shotpaste"@ + "' is registered."@,
                "  state:       "@ + piece(pieces, 0),
                "  last run:    "@ + piece(pieces, 1),
                "  last result: "@ + piece(pieces, 2),
            ]
        }),
        line != "MISSING"@ && !"REGISTERED|"@.is_prefix_of(line) ==> status_lines(line) == seq![
            "shotpaste: status check returned unexpected output: "@ + line,
        ],
        status_line(stdout) == text::trimmed(text::last_line_text(text::lossy_text(stdout))),
{
    reveal_strlit("MISSING");
    reveal_strlit("REGISTERED|");
    let whole = "REGISTERED|"@ + rest;
    assert(whole[0] == 'R');
    text::law_prefix_and_rest_make_up_the_text(whole, "REGISTERED|"@, rest);
}

/// A piece of the line is itself, and one that is missing a question mark.
pub proof fn law_missing_piece_is_a_question_mark(pieces: Seq<Seq<char>>, i: int)
    requires
        0 <= i,
    ensures
        i < pieces.len() ==> piece(pieces, i) == pieces[i],
        i >= pieces.len() ==> piece(pieces, i) == "?"@,
{
}

} // verus!
