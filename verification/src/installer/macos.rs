//! Autostart on macOS: a LaunchAgent of the user.
use crate::base_dirs::{BaseDirs, BaseDirsView};
use crate::failure;
use crate::failure::{Failure, FailureView};
use crate::installer::plan::{Arg, ArgView, Check, CheckView, Reply, ReplyView, Step, StepView};
use crate::path;
use crate::path::{FilePath, PathView};
use crate::platform::Platform;
use vstd::prelude::*;
use vstd::string::*;

verus! {

/// The name of the agent.
pub const LABEL: &'static str = "dev.shotpaste.watcher";

/// The name of the agent's file.
pub const PLIST_NAME: &'static str = "dev.shotpaste.watcher.plist";

/// The file's text up to the name of the agent.
pub const PLIST_HEAD: &'static str = "<?xml version=\"1.0\" encoding=\"UTF-8\"?>\n<!DOCTYPE plist PUBLIC \"-//Apple//DTD PLIST 1.0//EN\" \"http://www.apple.com/DTDs/PropertyList-1.0.dtd\">\n<plist version=\"1.0\">\n<dict>\n    <key>Label</key>\n    <string>";

/// The file's text between the name of the agent and the path of the program.
pub const PLIST_PROGRAM: &'static str = "</string>\n    <key>ProgramArguments</key>\n    <array>\n        <string>";

/// The file's text between the path of the program and that of the first log.
pub const PLIST_STDOUT: &'static str = "</string>\n        <string>watch</string>\n    </array>\n    <key>RunAtLoad</key>\n    <true/>\n    <key>KeepAlive</key>\n    <true/>\n    <key>StandardOutPath</key>\n    <string>";

/// The file's text between the paths of the two logs.
pub const PLIST_STDERR: &'static str = "</string>\n    <key>StandardErrorPath</key>\n    <string>";

/// The file's text after the path of the second log.
pub const PLIST_TAIL: &'static str = "</string>\n</dict>\n</plist>\n";

/// The folder of the user's agents.
pub open spec fn plist_folder(home: PathView) -> PathView {
    path::joined(path::joined(home, "Library"@, Platform::MacOs), "LaunchAgents"@, Platform::MacOs)
}

/// The file of the agent.
pub open spec fn plist_file(dirs: BaseDirsView) -> Option<PathView> {
    match dirs.home {
        Some(home) => Some(path::joined(plist_folder(home), PLIST_NAME@, Platform::MacOs)),
        None => None,
    }
}

/// The folder of the agent's log.
pub open spec fn log_folder(home: PathView) -> PathView {
    path::joined(path::joined(home, "Library"@, Platform::MacOs), "Logs"@, Platform::MacOs)
}

/// The agent's log.
pub open spec fn log_file(dirs: BaseDirsView) -> Option<PathView> {
    match dirs.home {
        Some(home) => Some(path::joined(log_folder(home), "shotpaste.log"@, Platform::MacOs)),
        None => None,
    }
}

/// The text of the agent that starts the watcher `exe` and logs to `log`.
pub open spec fn plist_text(exe: Seq<char>, log: Seq<char>) -> Seq<char> {
    PLIST_HEAD@ + LABEL@ + PLIST_PROGRAM@ + exe + PLIST_STDOUT@ + log + PLIST_STDERR@ + log
        + PLIST_TAIL@
}

fn plist_body(exe: &str, log: &str) -> (r: String)
    ensures
        r@ == plist_text(exe@, log@),
{
    PLIST_HEAD.to_owned().concat(LABEL).concat(PLIST_PROGRAM).concat(exe).concat(
        PLIST_STDOUT,
    ).concat(log).concat(PLIST_STDERR).concat(log).concat(PLIST_TAIL)
}

/// The file of the agent.
pub fn plist_path(dirs: &BaseDirs) -> (r: Result<FilePath, Failure>)
    ensures
        (match (r, plist_file(dirs@)) {
            (Ok(p), Some(file)) => p@ == file,
            (Err(e), None) => e@ == failure::plain_failure("failed to resolve home dir"@),
            _ => false,
        }),
{
    match &dirs.home {
        Some(home) => Ok(
            home.join("Library", Platform::MacOs).join("LaunchAgents", Platform::MacOs).join(
                PLIST_NAME,
                Platform::MacOs,
            ),
        ),
        None => Err(Failure::plain("failed to resolve home dir".to_owned())),
    }
}

/// The agent's log.
pub fn log_path(dirs: &BaseDirs) -> (r: Result<FilePath, Failure>)
    ensures
        (match (r, log_file(dirs@)) {
            (Ok(p), Some(file)) => p@ == file,
            (Err(e), None) => e@ == failure::plain_failure("failed to resolve home dir"@),
            _ => false,
        }),
{
    match &dirs.home {
        Some(home) => Ok(
            home.join("Library", Platform::MacOs).join("Logs", Platform::MacOs).join(
                "shotpaste.log",
                Platform::MacOs,
            ),
        ),
        None => Err(Failure::plain("failed to resolve home dir".to_owned())),
    }
}

/// The step that has `launchctl` do `verb` with the agent `plist` of the user.
pub open spec fn launchctl_step(verb: Seq<char>, plist: Seq<char>, check: CheckView) -> StepView {
    StepView::Run {
        program: "launchctl"@,
        args: seq![ArgView::Text(verb), ArgView::UserDomain, ArgView::Text(plist)],
        check,
    }
}

fn launchctl(verb: &str, plist: &str, check: Check) -> (r: Step)
    ensures
        r.deep_view() == launchctl_step(verb@, plist@, check@),
{
    let mut args: Vec<Arg> = Vec::new();
    args.push(Arg::Text(verb.to_owned()));
    args.push(Arg::UserDomain);
    args.push(Arg::Text(plist.to_owned()));
    let step = Step::Run { program: "launchctl".to_owned(), args, check };
    assert(step.deep_view() =~~= launchctl_step(verb@, plist@, check@));
    step
}

/// The steps that load the agent `plist`, which may be loaded already.
pub open spec fn load_steps(plist: PathView) -> Seq<StepView> {
    match path::path_text(plist) {
        Some(s) => seq![
            StepView::AskUid,
            launchctl_step("bootout"@, s, CheckView::Ignore),
            launchctl_step(
                "bootstrap"@,
                s,
                CheckView::Success(
                    "failed to invoke launchctl"@,
                    "launchctl bootstrap failed: "@,
                ),
            ),
        ],
        None => seq![
            StepView::AskUid,
            StepView::Abort(failure::plain_failure("plist path is not valid UTF-8"@)),
        ],
    }
}

/// The steps that register the watcher `exe`, without those on the settings.
pub open spec fn install_steps(exe: PathView, dirs: BaseDirsView) -> Result<
    Seq<StepView>,
    FailureView,
> {
    match (path::path_text(exe), dirs.home) {
        (None, _) => Err(failure::plain_failure("shotpaste path is not valid UTF-8"@)),
        (_, None) => Err(failure::plain_failure("failed to resolve home dir"@)),
        (Some(exe_text), Some(home)) => {
            let log = path::joined(log_folder(home), "shotpaste.log"@, Platform::MacOs);
            let plist = path::joined(plist_folder(home), PLIST_NAME@, Platform::MacOs);
            match path::path_text(log) {
                None => Err(failure::plain_failure("log path is not valid UTF-8"@)),
                Some(log_text) => Ok(
                    seq![
                        StepView::CreateDir {
                            path: plist_folder(home),
                            context: "failed to create LaunchAgents dir"@,
                        },
                        StepView::CreateDir {
                            path: log_folder(home),
                            context: "failed to create Logs dir"@,
                        },
                        StepView::WriteFile {
                            path: plist,
                            text: plist_text(exe_text, log_text),
                            context: "failed to write LaunchAgent plist"@,
                        },
                    ] + load_steps(plist),
                ),
            }
        },
    }
}

/// The steps that register the watcher `exe`.
pub fn install(exe: &FilePath, dirs: &BaseDirs) -> (r: Result<Vec<Step>, Failure>)
    ensures
        (match (r, install_steps(exe@, dirs@)) {
            (Ok(steps), Ok(expected)) => steps.deep_view() == expected,
            (Err(e), Err(f)) => e@ == f,
            _ => false,
        }),
{
    let exe_text = match exe.to_text() {
        Some(s) => s,
        None => {
            return Err(Failure::plain("shotpaste path is not valid UTF-8".to_owned()));
        },
    };
    let library = match &dirs.home {
        Some(home) => home.join("Library", Platform::MacOs),
        None => {
            return Err(Failure::plain("failed to resolve home dir".to_owned()));
        },
    };
    let logs = library.join("Logs", Platform::MacOs);
    let log = logs.join("shotpaste.log", Platform::MacOs);
    let log_text = match log.to_text() {
        Some(s) => s,
        None => {
            return Err(Failure::plain("log path is not valid UTF-8".to_owned()));
        },
    };
    let agents = library.join("LaunchAgents", Platform::MacOs);
    let plist = agents.join(PLIST_NAME, Platform::MacOs);
    let plist_arg = plist.to_text();
    let mut steps: Vec<Step> = Vec::new();
    steps.push(
        Step::CreateDir { path: agents, context: "failed to create LaunchAgents dir".to_owned() },
    );
    steps.push(Step::CreateDir { path: logs, context: "failed to create Logs dir".to_owned() });
    steps.push(
        Step::WriteFile {
            path: plist,
            text: plist_body(exe_text.as_str(), log_text.as_str()),
            context: "failed to write LaunchAgent plist".to_owned(),
        },
    );
    steps.push(Step::AskUid);
    match plist_arg {
        Some(s) => {
            steps.push(launchctl("bootout", s.as_str(), Check::Ignore));
            steps.push(
                launchctl(
                    "bootstrap",
                    s.as_str(),
                    Check::Success(
                        "failed to invoke launchctl".to_owned(),
                        "launchctl bootstrap failed: ".to_owned(),
                    ),
                ),
            );
        },
        None => {
            steps.push(Step::Abort(Failure::plain("plist path is not valid UTF-8".to_owned())));
        },
    }
    assert(steps.deep_view() =~= install_steps(exe@, dirs@)->Ok_0);
    Ok(steps)
}

/// The steps that end autostart where there is an agent, without those on the settings.
pub open spec fn uninstall_steps(dirs: BaseDirsView) -> Result<Seq<StepView>, FailureView> {
    match plist_file(dirs) {
        None => Err(failure::plain_failure("failed to resolve home dir"@)),
        Some(plist) => Ok(
            seq![
                StepView::UnlessExists { path: plist, count: 3 },
                StepView::AskUid,
                match path::path_text(plist) {
                    Some(s) => launchctl_step("bootout"@, s, CheckView::Ignore),
                    None => StepView::Abort(
                        failure::plain_failure("plist path is not valid UTF-8"@),
                    ),
                },
                StepView::RemoveFile { path: plist, tell: Some("failed to remove plist"@) },
            ],
        ),
    }
}

/// The steps that end autostart.
pub fn uninstall(dirs: &BaseDirs) -> (r: Result<Vec<Step>, Failure>)
    ensures
        (match (r, uninstall_steps(dirs@)) {
            (Ok(steps), Ok(expected)) => steps.deep_view() == expected,
            (Err(e), Err(f)) => e@ == f,
            _ => false,
        }),
{
    let plist = match plist_path(dirs) {
        Ok(p) => p,
        Err(f) => {
            return Err(f);
        },
    };
    let unload = match plist.to_text() {
        Some(s) => launchctl("bootout", s.as_str(), Check::Ignore),
        None => Step::Abort(Failure::plain("plist path is not valid UTF-8".to_owned())),
    };
    let mut steps: Vec<Step> = Vec::new();
    steps.push(Step::UnlessExists { path: plist.duplicate(), count: 3 });
    steps.push(Step::AskUid);
    steps.push(unload);
    steps.push(
        Step::RemoveFile { path: plist, tell: Some("failed to remove plist".to_owned()) },
    );
    assert(steps.deep_view() =~= uninstall_steps(dirs@)->Ok_0);
    Ok(steps)
}

/// Whether a command ran and succeeded.
pub open spec fn succeeded(reply: ReplyView) -> bool {
    reply matches ReplyView::Output { success, .. } && success
}

/// Whether a command ran and succeeded.
pub fn is_success(reply: &Reply) -> (r: bool)
    ensures
        r == succeeded(reply@),
{
    match reply {
        Reply::Output { success, .. } => *success,
        _ => false,
    }
}

/// What to tell when there is no agent.
pub open spec fn missing_lines() -> Seq<Seq<char>> {
    seq![
        "shotpaste: not installed (no LaunchAgent plist)."@,
        "  run `shotpaste install` to register it"@,
    ]
}

/// What to tell when there is no agent.
pub fn missing() -> (r: Vec<String>)
    ensures
        r.deep_view() == missing_lines(),
{
    let mut lines: Vec<String> = Vec::new();
    lines.push("shotpaste: not installed (no LaunchAgent plist).".to_owned());
    lines.push("  run `shotpaste install` to register it".to_owned());
    assert(lines.deep_view() =~= missing_lines());
    lines
}

/// The agent as launchd knows it, for the user with the number `uid`.
pub open spec fn service_target(uid: Seq<char>) -> Seq<char> {
    "gui/"@ + uid + "/"@ + LABEL@
}

/// The agent as launchd knows it.
pub fn service_of(uid: &str) -> (r: String)
    ensures
        r@ == service_target(uid@),
{
    "gui/".to_owned().concat(uid).concat("/").concat(LABEL)
}

/// What to tell about the agent `plist`.
pub open spec fn status_lines(plist: PathView, uid: Seq<char>, loaded: bool) -> Seq<Seq<char>> {
    seq![
        "shotpaste: LaunchAgent '"@ + LABEL@ + "' "@ + (if loaded {
            "is loaded"@
        } else {
            "is NOT loaded"@
        }) + "."@,
        "  plist:   "@ + path::shown(plist),
        "  details: launchctl print "@ + service_target(uid),
    ]
}

/// What to tell about the agent `plist`.
pub fn status(plist: &FilePath, uid: &str, loaded: bool) -> (r: Vec<String>)
    ensures
        r.deep_view() == status_lines(plist@, uid@, loaded),
{
    let state = if loaded {
        "is loaded"
    } else {
        "is NOT loaded"
    };
    let mut lines: Vec<String> = Vec::new();
    lines.push(
        "shotpaste: LaunchAgent '".to_owned().concat(LABEL).concat("' ").concat(state).concat("."),
    );
    lines.push("  plist:   ".to_owned().concat(plist.display().as_str()));
    lines.push("  details: launchctl print ".to_owned().concat(service_of(uid).as_str()));
    assert(lines.deep_view() =~= status_lines(plist@, uid@, loaded));
    lines
}

/// The text of the agent names it, starts the watcher with the given path at
/// login and whenever it has ended, and sends all output to one log.
pub proof fn law_agent_starts_the_watcher(exe: Seq<char>, log: Seq<char>)
    ensures
        plist_text(exe, log) == "<?xml version=\"1.0\" encoding=\"UTF-8\"?>\n<!DOCTYPE plist PUBLIC \"-//Apple//DTD PLIST 1.0//EN\" \"http://www.apple.com/DTDs/PropertyList-1.0.dtd\">\n<plist version=\"1.0\">\n<dict>\n    <key>Label</key>\n    <string>"@
            + "dev.shotpaste.watcher"@
            + "</string>\n    <key>ProgramArguments</key>\n    <array>\n        <string>"@
            + exe
            + "</string>\n        <string>watch</string>\n    </array>\n    <key>RunAtLoad</key>\n    <true/>\n    <key>KeepAlive</key>\n    <true/>\n    <key>StandardOutPath</key>\n    <string>"@
            + log + "</string>\n    <key>StandardErrorPath</key>\n    <string>"@ + log
            + "</string>\n</dict>\n</plist>\n"@,
{
}

/// Registering creates the folders of the agents and of the logs, writes the
/// agent and loads it, having tried to unload one that may be loaded; it fails
/// only on a path that is no text, or without a home.
pub proof fn law_agent_is_written_and_loaded(
    exe: PathView,
    dirs: BaseDirsView,
    home: PathView,
    exe_text: Seq<char>,
    log_text: Seq<char>,
)
    requires
        dirs.home == Some(home),
        path::path_text(exe) == Some(exe_text),
    ensures
        ({
            let library = path::joined(home, "Library"@, Platform::MacOs);
            let agents = path::joined(library, "LaunchAgents"@, Platform::MacOs);
            let logs = path::joined(library, "Logs"@, Platform::MacOs);
            let plist = path::joined(agents, "dev.shotpaste.watcher.plist"@, Platform::MacOs);
            let log = path::joined(logs, "shotpaste.log"@, Platform::MacOs);
            &&& plist_file(dirs) == Some(plist)
            &&& log_file(dirs) == Some(log)
            &&& path::path_text(log) is None ==> install_steps(exe, dirs) == Err::<
                Seq<StepView>,
                FailureView,
            >(FailureView { context: "log path is not valid UTF-8"@, cause: None })
            &&& path::path_text(log) == Some(log_text) ==> {
                let steps = install_steps(exe, dirs)->Ok_0;
                &&& install_steps(exe, dirs) is Ok
                &&& steps[0] == (StepView::CreateDir {
                    path: agents,
                    context: "failed to create LaunchAgents dir"@,
                })
                &&& steps[1] == (StepView::CreateDir {
                    path: logs,
                    context: "failed to create Logs dir"@,
                })
                &&& steps[2] == (StepView::WriteFile {
                    path: plist,
                    text: plist_text(exe_text, log_text),
                    context: "failed to write LaunchAgent plist"@,
                })
                &&& steps[3] == StepView::AskUid
                &&& path::path_text(plist) is None ==> steps.len() == 5 && steps[4]
                    == StepView::Abort(
                    FailureView { context: "plist path is not valid UTF-8"@, cause: None },
                )
                &&& path::path_text(plist) matches Some(s) ==> {
                    &&& steps.len() == 6
                    &&& steps[4] == (StepView::Run {
                        program: "launchctl"@,
                        args: seq![
                            ArgView::Text("bootout"@),
                            ArgView::UserDomain,
                            ArgView::Text(s),
                        ],
                        check: CheckView::Ignore,
                    })
                    &&& steps[5] == (StepView::Run {
                        program: "launchctl"@,
                        args: seq![
                            ArgView::Text("bootstrap"@),
                            ArgView::UserDomain,
                            ArgView::Text(s),
                        ],
                        check: CheckView::Success(
                            "failed to invoke launchctl"@,
                            "launchctl bootstrap failed: "@,
                        ),
                    })
                }
            }
        }),
{
}

/// Without a home there is no agent to write or remove, and a program whose
/// path is no text is not registered.
pub proof fn law_agent_needs_a_home_and_a_text(exe: PathView, dirs: BaseDirsView)
    ensures
        path::path_text(exe) is None ==> install_steps(exe, dirs) == Err::<
            Seq<StepView>,
            FailureView,
        >(FailureView { context: "shotpaste path is not valid UTF-8"@, cause: None }),
        path::path_text(exe) is Some && dirs.home is None ==> install_steps(exe, dirs) == Err::<
            Seq<StepView>,
            FailureView,
        >(FailureView { context: "failed to resolve home dir"@, cause: None }),
        dirs.home is None ==> plist_file(dirs) is None && log_file(dirs) is None,
        dirs.home is None ==> uninstall_steps(dirs) == Err::<Seq<StepView>, FailureView>(
            FailureView { context: "failed to resolve home dir"@, cause: None },
        ),
{
}

/// Ending autostart does nothing without the agent; with it, the agent is
/// unloaded, if it is loaded, and its file removed.
pub proof fn law_agent_is_unloaded_and_removed(dirs: BaseDirsView, plist: PathView)
    requires
        plist_file(dirs) == Some(plist),
    ensures
        uninstall_steps(dirs) matches Ok(steps) && {
            &&& steps.len() == 4
            &&& steps[0] == (StepView::UnlessExists { path: plist, count: 3 })
            &&& steps[1] == StepView::AskUid
            &&& path::path_text(plist) matches Some(s) ==> steps[2] == (StepView::Run {
                program: "launchctl"@,
                args: seq![ArgView::Text("bootout"@), ArgView::UserDomain, ArgView::Text(s)],
                check: CheckView::Ignore,
            })
            &&& path::path_text(plist) is None ==> steps[2] == StepView::Abort(
                FailureView { context: "plist path is not valid UTF-8"@, cause: None },
            )
            &&& steps[3] == (StepView::RemoveFile {
                path: plist,
                tell: Some("failed to remove plist"@),
            })
        },
{
}

/// The agent counts as loaded where launchd knows it, and only then.
pub proof fn law_answers_of_launchd_are_told(
    plist: PathView,
    uid: Seq<char>,
    success: bool,
    stdout: Seq<u8>,
    stderr: Seq<u8>,
    cause: Seq<char>,
)
    ensures
        succeeded(ReplyView::Output { success, stdout, stderr }) == success,
        !succeeded(ReplyView::Failed(cause)),
        service_target(uid) == "gui/"@ + uid + "/"@ + "dev.shotpaste.watcher"@,
        missing_lines() == seq![
            "shotpaste: not installed (no LaunchAgent plist)."@,
            "  run `shotpaste install` to register it"@,
        ],
        status_lines(plist, uid, true) == seq![
            "shotpaste: LaunchAgent '"@ + "dev.shotpaste.watcher"@ + "' "@ + "is loaded"@ + "."@,
            "  plist:   "@ + path::shown(plist),
            "  details: launchctl print "@ + service_target(uid),
        ],
        status_lines(plist, uid, false) == seq![
            "shotpaste: LaunchAgent '"@ + "dev.shotpaste.watcher"@ + "' "@ + "is NOT loaded"@
                + "."@,
            "  plist:   "@ + path::shown(plist),
            "  details: launchctl print "@ + service_target(uid),
        ],
{
}

} // verus!
