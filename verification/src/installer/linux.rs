//! Autostart on Linux: a systemd unit of the user.
use crate::base_dirs::{BaseDirs, BaseDirsView};
use crate::failure;
use crate::failure::{Failure, FailureView};
use crate::installer::plan;
use crate::installer::plan::{
    written_text, Arg, ArgView, Check, CheckView, Reply, ReplyView, Step, StepView,
};
use crate::path;
use crate::path::{FilePath, PathView};
use crate::platform::Platform;
use vstd::prelude::*;
use vstd::string::*;

verus! {

/// The name of the unit.
pub const UNIT_NAME: &'static str = "shotpaste.service";

/// The unit's text up to the path of the program.
pub const UNIT_HEAD: &'static str = "[Unit]\nDescription=shotpaste — atomic multi-format clipboard for screenshots\nAfter=graphical-session.target\nPartOf=graphical-session.target\n\n[Service]\nType=simple\nExecStart=";

/// The unit's text after the path of the program.
pub const UNIT_TAIL: &'static str = " watch\nRestart=on-failure\nRestartSec=5\n\n[Install]\nWantedBy=graphical-session.target\n";

/// The folder of the user's units.
pub open spec fn unit_folder(config: PathView) -> PathView {
    path::joined(path::joined(config, "systemd"@, Platform::Linux), "user"@, Platform::Linux)
}

/// The file of the unit.
pub open spec fn unit_file(dirs: BaseDirsView) -> Option<PathView> {
    match dirs.config {
        Some(config) => Some(path::joined(unit_folder(config), UNIT_NAME@, Platform::Linux)),
        None => None,
    }
}

/// The text of the unit that starts the watcher `exe`.
pub open spec fn unit_text(exe: Seq<char>) -> Seq<char> {
    UNIT_HEAD@ + exe + UNIT_TAIL@
}

/// The file of the unit.
pub fn unit_path(dirs: &BaseDirs) -> (r: Result<FilePath, Failure>)
    ensures
        (match (r, unit_file(dirs@)) {
            (Ok(p), Some(file)) => p@ == file,
            (Err(e), None) => e@ == failure::plain_failure("failed to resolve config dir"@),
            _ => false,
        }),
{
    match &dirs.config {
        Some(config) => Ok(
            config.join("systemd", Platform::Linux).join("user", Platform::Linux).join(
                UNIT_NAME,
                Platform::Linux,
            ),
        ),
        None => Err(Failure::plain("failed to resolve config dir".to_owned())),
    }
}

/// The step that calls `systemctl --user` with two more words.
pub open spec fn systemctl_step(first: Seq<char>, more: Seq<Seq<char>>, check: CheckView) -> StepView {
    StepView::Run {
        program: "systemctl"@,
        args: seq![ArgView::Text("--user"@), ArgView::Text(first)] + more.map_values(
            |w: Seq<char>| ArgView::Text(w),
        ),
        check,
    }
}

fn reload() -> (r: Step)
    ensures
        r.deep_view() == systemctl_step("daemon-reload"@, seq![], CheckView::Ignore),
{
    let mut args: Vec<Arg> = Vec::new();
    args.push(Arg::Text("--user".to_owned()));
    args.push(Arg::Text("daemon-reload".to_owned()));
    let step = Step::Run { program: "systemctl".to_owned(), args, check: Check::Ignore };
    assert(step.deep_view() =~~= systemctl_step("daemon-reload"@, seq![], CheckView::Ignore));
    step
}

fn change(verb: &str, check: Check) -> (r: Step)
    ensures
        r.deep_view() == systemctl_step(verb@, seq!["--now"@, UNIT_NAME@], check@),
{
    let mut args: Vec<Arg> = Vec::new();
    args.push(Arg::Text("--user".to_owned()));
    args.push(Arg::Text(verb.to_owned()));
    args.push(Arg::Text("--now".to_owned()));
    args.push(Arg::Text(UNIT_NAME.to_owned()));
    let step = Step::Run { program: "systemctl".to_owned(), args, check };
    assert(step.deep_view() =~~= systemctl_step(verb@, seq!["--now"@, UNIT_NAME@], check@));
    step
}

/// The steps that register the watcher `exe`, without those on the settings.
pub open spec fn install_steps(exe: PathView, dirs: BaseDirsView) -> Result<
    Seq<StepView>,
    FailureView,
> {
    match (path::path_text(exe), dirs.config) {
        (None, _) => Err(failure::plain_failure("shotpaste path is not valid UTF-8"@)),
        (_, None) => Err(failure::plain_failure("failed to resolve config dir"@)),
        (Some(exe_text), Some(config)) => Ok(
            seq![
                StepView::CreateDir {
                    path: unit_folder(config),
                    context: "failed to create systemd user dir"@,
                },
                StepView::WriteFile {
                    path: path::joined(unit_folder(config), UNIT_NAME@, Platform::Linux),
                    text: unit_text(exe_text),
                    context: "failed to write systemd unit"@,
                },
                systemctl_step("daemon-reload"@, seq![], CheckView::Ignore),
                systemctl_step(
                    "enable"@,
                    seq!["--now"@, UNIT_NAME@],
                    CheckView::Success(
                        "failed to invoke systemctl"@,
                        "`systemctl --user enable --now "@ + UNIT_NAME@ + "` failed: "@,
                    ),
                ),
            ],
        ),
    }
}

/// The steps that register the watcher `exe`.
pub fn install(exe: &FilePath, dirs: &BaseDirs) -> (r: Result<Vec<Step>, Failure>)
    ensures
        (match (r, install_steps(exe@, dirs@)) {
            (Ok(steps), Ok(expected)) => steps.deep_view() == expected,
            (Err(e), Err(f)) => e@ == f,
            _ => false,
        }),
{
    let exe_text = match exe.to_text() {
        Some(s) => s,
        None => {
            return Err(Failure::plain("shotpaste path is not valid UTF-8".to_owned()));
        },
    };
    let folder = match &dirs.config {
        Some(config) => config.join("systemd", Platform::Linux).join("user", Platform::Linux),
        None => {
            return Err(Failure::plain("failed to resolve config dir".to_owned()));
        },
    };
    let unit = folder.join(UNIT_NAME, Platform::Linux);
    let text = UNIT_HEAD.to_owned().concat(exe_text.as_str()).concat(UNIT_TAIL);
    let mut steps: Vec<Step> = Vec::new();
    steps.push(
        Step::CreateDir { path: folder, context: "failed to create systemd user dir".to_owned() },
    );
    steps.push(
        Step::WriteFile { path: unit, text, context: "failed to write systemd unit".to_owned() },
    );
    steps.push(reload());
    let told = "`systemctl --user enable --now ".to_owned().concat(UNIT_NAME).concat("` failed: ");
    steps.push(
        change("enable", Check::Success("failed to invoke systemctl".to_owned(), told)),
    );
    assert(steps.deep_view() =~= install_steps(exe@, dirs@)->Ok_0);
    Ok(steps)
}

/// The steps that end autostart, without those on the settings.
pub open spec fn uninstall_steps(dirs: BaseDirsView) -> Seq<StepView> {
    let first = systemctl_step("disable"@, seq!["--now"@, UNIT_NAME@], CheckView::Ignore);
    match unit_file(dirs) {
        Some(unit) => seq![
            first,
            StepView::UnlessExists { path: unit, count: 1 },
            StepView::RemoveFile { path: unit, tell: Some("failed to remove systemd unit"@) },
            systemctl_step("daemon-reload"@, seq![], CheckView::Ignore),
        ],
        None => seq![
            first,
            StepView::Abort(failure::plain_failure("failed to resolve config dir"@)),
        ],
    }
}

/// The steps that end autostart.
pub fn uninstall(dirs: &BaseDirs) -> (r: Vec<Step>)
    ensures
        r.deep_view() == uninstall_steps(dirs@),
{
    let mut steps: Vec<Step> = Vec::new();
    steps.push(change("disable", Check::Ignore));
    match unit_path(dirs) {
        Ok(unit) => {
            steps.push(Step::UnlessExists { path: unit.duplicate(), count: 1 });
            steps.push(
                Step::RemoveFile {
                    path: unit,
                    tell: Some("failed to remove systemd unit".to_owned()),
                },
            );
            steps.push(reload());
        },
        Err(f) => {
            steps.push(Step::Abort(f));
        },
    }
    assert(steps.deep_view() =~= uninstall_steps(dirs@));
    steps
}

/// What `systemctl` answered to a question.
pub open spec fn systemctl_answer(reply: ReplyView) -> Seq<char> {
    match reply {
        ReplyView::Output { success, stdout, stderr } => plan::written(stdout),
        _ => "<systemctl unavailable>"@,
    }
}

/// What `systemctl` answered to a question, whatever it thought of it.
pub fn run_systemctl(reply: &Reply) -> (r: String)
    ensures
        r@ == systemctl_answer(reply@),
{
    match reply {
        Reply::Output { stdout, .. } => written_text(stdout),
        _ => "<systemctl unavailable>".to_owned(),
    }
}

/// What to tell when there is no unit.
pub open spec fn missing_lines(unit: PathView) -> Seq<Seq<char>> {
    seq![
        "shotpaste: not installed (no systemd unit at "@ + path::shown(unit) + ")."@,
        "  run `shotpaste install` to register it"@,
    ]
}

/// What to tell when there is no unit.
pub fn missing(unit: &FilePath) -> (r: Vec<String>)
    ensures
        r.deep_view() == missing_lines(unit@),
{
    let mut lines: Vec<String> = Vec::new();
    lines.push(
        "shotpaste: not installed (no systemd unit at ".to_owned().concat(
            unit.display().as_str(),
        ).concat(")."),
    );
    lines.push("  run `shotpaste install` to register it".to_owned());
    assert(lines.deep_view() =~= missing_lines(unit@));
    lines
}

/// What to tell about the unit.
pub open spec fn status_lines(unit: PathView, active: Seq<char>, enabled: Seq<char>) -> Seq<
    Seq<char>,
> {
    seq![
        "shotpaste: systemd user unit '"@ + UNIT_NAME@ + "'"@,
        "  active:  "@ + active,
        "  enabled: "@ + enabled,
        "  unit:    "@ + path::shown(unit),
        "  details: systemctl --user status "@ + UNIT_NAME@,
    ]
}

/// What to tell about the unit.
pub fn status(unit: &FilePath, active: &str, enabled: &str) -> (r: Vec<String>)
    ensures
        r.deep_view() == status_lines(unit@, active@, enabled@),
{
    let mut lines: Vec<String> = Vec::new();
    lines.push("shotpaste: systemd user unit '".to_owned().concat(UNIT_NAME).concat("'"));
    lines.push("  active:  ".to_owned().concat(active));
    lines.push("  enabled: ".to_owned().concat(enabled));
    lines.push("  unit:    ".to_owned().concat(unit.display().as_str()));
    lines.push("  details: systemctl --user status ".to_owned().concat(UNIT_NAME));
    assert(lines.deep_view() =~= status_lines(unit@, active@, enabled@));
    lines
}

/// Registering creates the folder of the user's units, writes the unit there
/// and has systemd read it and start it now and at every login; it fails only
/// on a path that is no text, or without a settings folder.
pub proof fn law_unit_is_written_and_enabled(
    exe: PathView,
    dirs: BaseDirsView,
    exe_text: Seq<char>,
    config: PathView,
)
    ensures
        path::path_text(exe) == Some(exe_text) && dirs.config == Some(config) ==> {
            let folder = path::joined(
                path::joined(config, "systemd"@, Platform::Linux),
                "user"@,
                Platform::Linux,
            );
            let name = ArgView::Text("shotpaste.service"@);
            let user = ArgView::Text("--user"@);
            install_steps(exe, dirs) == Ok::<Seq<StepView>, FailureView>(
                seq![
                    StepView::CreateDir {
                        path: folder,
                        context: "failed to create systemd user dir"@,
                    },
                    StepView::WriteFile {
                        path: path::joined(folder, "shotpaste.service"@, Platform::Linux),
                        text: "[Unit]\nDescription=shotpaste — atomic multi-format clipboard for screenshots\nAfter=graphical-session.target\nPartOf=graphical-session.target\n\n[Service]\nType=simple\nExecStart="@ + exe_text + " watch\nRestart=on-failure\nRestartSec=5\n\n[Install]\nWantedBy=graphical-session.target\n"@,
                        context: "failed to write systemd unit"@,
                    },
                    StepView::Run {
                        program: "systemctl"@,
                        args: seq![user, ArgView::Text("daemon-reload"@)],
                        check: CheckView::Ignore,
                    },
                    StepView::Run {
                        program: "systemctl"@,
                        args: seq![user, ArgView::Text("enable"@), ArgView::Text("--now"@), name],
                        check: CheckView::Success(
                            "failed to invoke systemctl"@,
                            "`systemctl --user enable --now "@ + "shotpaste.service"@
                                + "` failed: "@,
                        ),
                    },
                ],
            )
        },
        path::path_text(exe) is None ==> install_steps(exe, dirs) == Err::<
            Seq<StepView>,
            FailureView,
        >(FailureView { context: "shotpaste path is not valid UTF-8"@, cause: None }),
        path::path_text(exe) is Some && dirs.config is None ==> install_steps(exe, dirs) == Err::<
            Seq<StepView>,
            FailureView,
        >(FailureView { context: "failed to resolve config dir"@, cause: None }),
{
    if path::path_text(exe) == Some(exe_text) && dirs.config == Some(config) {
        let steps = install_steps(exe, dirs)->Ok_0;
        assert(steps[2]->args =~= seq![ArgView::Text("--user"@), ArgView::Text("daemon-reload"@)]);
        assert(steps[3]->args =~= seq![
            ArgView::Text("--user"@),
            ArgView::Text("enable"@),
            ArgView::Text("--now"@),
            ArgView::Text("shotpaste.service"@),
        ]);
    }
}

/// Ending autostart stops the unit and keeps it from starting, removes its
/// file if it is there, and has systemd read its units anew.
pub proof fn law_unit_is_disabled_and_removed(dirs: BaseDirsView, config: PathView)
    ensures
        ({
            let user = ArgView::Text("--user"@);
            let disable = StepView::Run {
                program: "systemctl"@,
                args: seq![
                    user,
                    ArgView::Text("disable"@),
                    ArgView::Text("--now"@),
                    ArgView::Text("shotpaste.service"@),
                ],
                check: CheckView::Ignore,
            };
            let unit = path::joined(
                path::joined(
                    path::joined(config, "systemd"@, Platform::Linux),
                    "user"@,
                    Platform::Linux,
                ),
                "shotpaste.service"@,
                Platform::Linux,
            );
            &&& dirs.config == Some(config) ==> unit_file(dirs) == Some(unit)
            &&& dirs.config == Some(config) ==> uninstall_steps(dirs) == seq![
                disable,
                StepView::UnlessExists { path: unit, count: 1 },
                StepView::RemoveFile { path: unit, tell: Some("failed to remove systemd unit"@) },
                StepView::Run {
                    program: "systemctl"@,
                    args: seq![user, ArgView::Text("daemon-reload"@)],
                    check: CheckView::Ignore,
                },
            ]
            &&& dirs.config is None ==> unit_file(dirs) is None
            &&& dirs.config is None ==> uninstall_steps(dirs) == seq![
                disable,
                StepView::Abort(
                    FailureView { context: "failed to resolve config dir"@, cause: None },
                ),
            ]
        }),
{
    let steps = uninstall_steps(dirs);
    assert(steps[0]->args =~= seq![
        ArgView::Text("--user"@),
        ArgView::Text("disable"@),
        ArgView::Text("--now"@),
        ArgView::Text("shotpaste.service"@),
    ]);
    if dirs.config is Some {
        assert(steps[3]->args =~= seq![ArgView::Text("--user"@), ArgView::Text("daemon-reload"@)]);
    }
}

/// The user is told what systemd wrote, without the space around it, whether
/// or not it took the question well; and where the unit is or should be.
pub proof fn law_answers_of_systemd_are_told(
    unit: PathView,
    success: bool,
    stdout: Seq<u8>,
    stderr: Seq<u8>,
    cause: Seq<char>,
    active: Seq<char>,
    enabled: Seq<char>,
)
    ensures
        systemctl_answer(ReplyView::Output { success, stdout, stderr }) == plan::written(stdout),
        systemctl_answer(ReplyView::Failed(cause)) == "<systemctl unavailable>"@,
        missing_lines(unit) == seq![
            "shotpaste: not installed (no systemd unit at "@ + path::shown(unit) + ")."@,
            "  run `shotpaste install` to register it"@,
        ],
        status_lines(unit, active, enabled) == seq![
            "shotpaste: systemd user unit '"@ + "shotpaste.service"@ + "'"@,
            "  active:  "@ + active,
            "  enabled: "@ + enabled,
            "  unit:    "@ + path::shown(unit),
            "  details: systemctl --user status "@ + "shotpaste.service"@,
        ],
{
}

} // verus!
