//! Telling the user whether autostart is registered.
use crate::base_dirs::{BaseDirs, BaseDirsView};
use crate::failure;
use crate::failure::{Failure, FailureView};
use crate::installer::linux;
use crate::installer::linux::UNIT_NAME;
use crate::installer::macos;
use crate::installer::plan;
use crate::installer::plan::{current_uid, OutcomeView, Reply, ReplyView};
use crate::installer::windows;
use crate::path::{FilePath, PathView};
use crate::platform::Platform;
use crate::powershell;
use crate::powershell::{run_powershell, POWERSHELL};
use vstd::pervasive::unreached;
use vstd::prelude::*;
use vstd::string::*;

verus! {

/// Where the question stands: which answer it waits for.
#[derive(Debug)]
pub enum StatusPhase {
    /// Whether the unit is there.
    Unit(FilePath),
    /// Whether it is active.
    UnitActive(FilePath),
    /// Whether it is enabled.
    UnitEnabled(FilePath, String),
    /// Whether the agent is there.
    Agent(FilePath),
    /// The user's number.
    AgentUid(FilePath),
    /// Whether it is loaded.
    AgentLoaded(FilePath, String),
    /// What PowerShell says of the task.
    Task,
    Ended,
}

/// The contents of a [`StatusPhase`].
#[verifier::ext_equal]
pub enum StatusPhaseView {
    Unit(PathView),
    UnitActive(PathView),
    UnitEnabled(PathView, Seq<char>),
    Agent(PathView),
    AgentUid(PathView),
    AgentLoaded(PathView, Seq<char>),
    Task,
    Ended,
}

impl View for StatusPhase {
    type V = StatusPhaseView;

    open spec fn view(&self) -> StatusPhaseView {
        match *self {
            StatusPhase::Unit(p) => StatusPhaseView::Unit(p@),
            StatusPhase::UnitActive(p) => StatusPhaseView::UnitActive(p@),
            StatusPhase::UnitEnabled(p, s) => StatusPhaseView::UnitEnabled(p@, s@),
            StatusPhase::Agent(p) => StatusPhaseView::Agent(p@),
            StatusPhase::AgentUid(p) => StatusPhaseView::AgentUid(p@),
            StatusPhase::AgentLoaded(p, s) => StatusPhaseView::AgentLoaded(p@, s@),
            StatusPhase::Task => StatusPhaseView::Task,
            StatusPhase::Ended => StatusPhaseView::Ended,
        }
    }
}

/// What the question asks of the system.
#[derive(Debug)]
pub enum StatusRequest {
    /// Whether there is something at the path.
    Exists(FilePath),
    Run { program: String, args: Vec<String> },
    /// Tell the user these lines; the question is answered.
    Print(Vec<String>),
    /// The question cannot be answered.
    Fail(Failure),
}

/// The contents of a [`StatusRequest`].
#[verifier::ext_equal]
pub enum StatusRequestView {
    Exists(PathView),
    Run { program: Seq<char>, args: Seq<Seq<char>> },
    Print(Seq<Seq<char>>),
    Fail(FailureView),
}

impl View for StatusRequest {
    type V = StatusRequestView;

    open spec fn view(&self) -> StatusRequestView {
        match *self {
            StatusRequest::Exists(p) => StatusRequestView::Exists(p@),
            StatusRequest::Run { program, args } => StatusRequestView::Run {
                program: program@,
                args: args.deep_view(),
            },
            StatusRequest::Print(lines) => StatusRequestView::Print(lines.deep_view()),
            StatusRequest::Fail(f) => StatusRequestView::Fail(f@),
        }
    }
}

/// A question about autostart under way.
#[derive(Debug)]
pub struct StatusJob {
    pub phase: StatusPhase,
}

/// How the question begins, or why it cannot be asked.
pub open spec fn status_begin(dirs: BaseDirsView, platform: Platform) -> Result<
    (StatusPhaseView, StatusRequestView),
    FailureView,
> {
    match platform {
        Platform::Windows => Ok(
            (
                StatusPhaseView::Task,
                StatusRequestView::Run {
                    program: POWERSHELL@,
                    args: powershell::script_words(windows::status_script()),
                },
            ),
        ),
        Platform::MacOs => match macos::plist_file(dirs) {
            Some(p) => Ok((StatusPhaseView::Agent(p), StatusRequestView::Exists(p))),
            None => Err(failure::plain_failure("failed to resolve home dir"@)),
        },
        Platform::Linux => match linux::unit_file(dirs) {
            Some(p) => Ok((StatusPhaseView::Unit(p), StatusRequestView::Exists(p))),
            None => Err(failure::plain_failure("failed to resolve config dir"@)),
        },
        Platform::Unsupported => Err(
            failure::plain_failure("`shotpaste status` is not implemented on this platform"@),
        ),
    }
}

/// Whether `reply` answers what the question waits for.
pub open spec fn status_answers(phase: StatusPhaseView, reply: ReplyView) -> bool {
    match phase {
        StatusPhaseView::Unit(_) | StatusPhaseView::Agent(_) => reply is Exists,
        StatusPhaseView::Ended => false,
        _ => reply is Failed || reply is Output,
    }
}

/// The question put to systemd about the unit.
pub open spec fn unit_question(verb: Seq<char>) -> StatusRequestView {
    StatusRequestView::Run { program: "systemctl"@, args: seq!["--user"@, verb, UNIT_NAME@] }
}

/// The end of the question, with something to tell.
pub open spec fn told(lines: Seq<Seq<char>>) -> (StatusPhaseView, StatusRequestView) {
    (StatusPhaseView::Ended, StatusRequestView::Print(lines))
}

/// What the question does with an answer.
pub open spec fn status_next(phase: StatusPhaseView, reply: ReplyView) -> (
    StatusPhaseView,
    StatusRequestView,
) {
    match phase {
        StatusPhaseView::Unit(p) => if reply == ReplyView::Exists(false) {
            told(linux::missing_lines(p))
        } else {
            (StatusPhaseView::UnitActive(p), unit_question("is-active"@))
        },
        StatusPhaseView::UnitActive(p) => (
            StatusPhaseView::UnitEnabled(p, linux::systemctl_answer(reply)),
            unit_question("is-enabled"@),
        ),
        StatusPhaseView::UnitEnabled(p, active) => told(
            linux::status_lines(p, active, linux::systemctl_answer(reply)),
        ),
        StatusPhaseView::Agent(p) => if reply == ReplyView::Exists(false) {
            told(macos::missing_lines())
        } else {
            (
                StatusPhaseView::AgentUid(p),
                StatusRequestView::Run { program: "id"@, args: seq!["-u"@] },
            )
        },
        StatusPhaseView::AgentUid(p) => match plan::uid_outcome(reply) {
            OutcomeView::Uid(uid) => (
                StatusPhaseView::AgentLoaded(p, uid),
                StatusRequestView::Run {
                    program: "launchctl"@,
                    args: seq!["print"@, macos::service_target(uid)],
                },
            ),
            OutcomeView::Fail(f) => (StatusPhaseView::Ended, StatusRequestView::Fail(f)),
            _ => told(seq![]),
        },
        StatusPhaseView::AgentLoaded(p, uid) => told(
            macos::status_lines(p, uid, macos::succeeded(reply)),
        ),
        StatusPhaseView::Task => match reply {
            ReplyView::Failed(cause) => (
                StatusPhaseView::Ended,
                StatusRequestView::Fail(
                    failure::caused_failure("failed to invoke PowerShell"@, cause),
                ),
            ),
            ReplyView::Output { success, stdout, stderr } => told(
                windows::status_lines(windows::status_line(stdout)),
            ),
            _ => told(seq![]),
        },
        StatusPhaseView::Ended => told(seq![]),
    }
}

/// Begins to find out whether autostart is registered.
pub fn status(dirs: &BaseDirs, platform: Platform) -> (r: Result<
    (StatusJob, StatusRequest),
    Failure,
>)
    ensures
        (match (r, status_begin(dirs@, platform)) {
            (Ok((job, request)), Ok(expected)) => (job.phase@, request@) == expected,
            (Err(e), Err(f)) => e@ == f,
            _ => false,
        }),
{
    match platform {
        Platform::Windows => Ok(
            (
                StatusJob { phase: StatusPhase::Task },
                StatusRequest::Run {
                    program: POWERSHELL.to_owned(),
                    args: run_powershell(windows::script_for_status()),
                },
            ),
        ),
        Platform::MacOs => match macos::plist_path(dirs) {
            Ok(p) => Ok(
                (
                    StatusJob { phase: StatusPhase::Agent(p.duplicate()) },
                    StatusRequest::Exists(p),
                ),
            ),
            Err(f) => Err(f),
        },
        Platform::Linux => match linux::unit_path(dirs) {
            Ok(p) => Ok(
                (StatusJob { phase: StatusPhase::Unit(p.duplicate()) }, StatusRequest::Exists(p)),
            ),
            Err(f) => Err(f),
        },
        Platform::Unsupported => Err(
            Failure::plain("`shotpaste status` is not implemented on this platform".to_owned()),
        ),
    }
}

fn ask_unit(verb: &str) -> (r: StatusRequest)
    ensures
        r@ == unit_question(verb@),
{
    let mut args: Vec<String> = Vec::new();
    args.push("--user".to_owned());
    args.push(verb.to_owned());
    args.push(UNIT_NAME.to_owned());
    assert(args.deep_view() =~= seq!["--user"@, verb@, UNIT_NAME@]);
    StatusRequest::Run { program: "systemctl".to_owned(), args }
}

impl StatusJob {
    /// Takes the answer to what was asked last; answers what to ask or tell next.
    pub fn advance(&mut self, reply: Reply) -> (r: StatusRequest)
        requires
            status_answers(old(self).phase@, reply@),
        ensures
            (final(self).phase@, r@) == status_next(old(self).phase@, reply@),
    {
        let mut phase = StatusPhase::Ended;
        std::mem::swap(&mut phase, &mut self.phase);
        match phase {
            StatusPhase::Unit(p) => match reply {
                Reply::Exists(false) => StatusRequest::Print(linux::missing(&p)),
                _ => {
                    self.phase = StatusPhase::UnitActive(p);
                    ask_unit("is-active")
                },
            },
            StatusPhase::UnitActive(p) => {
                self.phase = StatusPhase::UnitEnabled(p, linux::run_systemctl(&reply));
                ask_unit("is-enabled")
            },
            StatusPhase::UnitEnabled(p, active) => {
                let enabled = linux::run_systemctl(&reply);
                StatusRequest::Print(linux::status(&p, active.as_str(), enabled.as_str()))
            },
            StatusPhase::Agent(p) => match reply {
                Reply::Exists(false) => StatusRequest::Print(macos::missing()),
                _ => {
                    self.phase = StatusPhase::AgentUid(p);
                    let mut args: Vec<String> = Vec::new();
                    args.push("-u".to_owned());
                    assert(args.deep_view() =~= seq!["-u"@]);
                    StatusRequest::Run { program: "id".to_owned(), args }
                },
            },
            StatusPhase::AgentUid(p) => match current_uid(reply) {
                Ok(uid) => {
                    let mut args: Vec<String> = Vec::new();
                    args.push("print".to_owned());
                    args.push(macos::service_of(uid.as_str()));
                    assert(args.deep_view() =~= seq!["print"@, macos::service_target(uid@)]);
                    self.phase = StatusPhase::AgentLoaded(p, uid);
                    StatusRequest::Run { program: "launchctl".to_owned(), args }
                },
                Err(f) => StatusRequest::Fail(f),
            },
            StatusPhase::AgentLoaded(p, uid) => StatusRequest::Print(
                macos::status(&p, uid.as_str(), macos::is_success(&reply)),
            ),
            StatusPhase::Task => match reply {
                Reply::Failed(cause) => StatusRequest::Fail(
                    Failure::caused("failed to invoke PowerShell".to_owned(), cause),
                ),
                Reply::Output { success: _, stdout, stderr: _ } => StatusRequest::Print(
                    windows::status(&stdout),
                ),
                _ => unreached(),
            },
            StatusPhase::Ended => unreached(),
        }
    }
}

/// The question goes to systemd, launchd or the task scheduler, as the system
/// has it: on Windows at once, elsewhere after a look for the entry. Where it
/// cannot be asked the user is told why.
pub proof fn law_question_goes_to_the_system(
    dirs: BaseDirsView,
    p: PathView,
)
    ensures
        status_begin(dirs, Platform::Windows) == Ok::<
            (StatusPhaseView, StatusRequestView),
            FailureView,
        >(
            (
                StatusPhaseView::Task,
                StatusRequestView::Run {
                    program: "powershell.exe"@,
                    args: powershell::script_words(windows::status_script()),
                },
            ),
        ),
        macos::plist_file(dirs) == Some(p) ==> status_begin(dirs, Platform::MacOs) == Ok::<
            (StatusPhaseView, StatusRequestView),
            FailureView,
        >((StatusPhaseView::Agent(p), StatusRequestView::Exists(p))),
        macos::plist_file(dirs) is None ==> status_begin(dirs, Platform::MacOs) == Err::<
            (StatusPhaseView, StatusRequestView),
            FailureView,
        >(FailureView { context: "failed to resolve home dir"@, cause: None }),
        linux::unit_file(dirs) == Some(p) ==> status_begin(dirs, Platform::Linux) == Ok::<
            (StatusPhaseView, StatusRequestView),
            FailureView,
        >((StatusPhaseView::Unit(p), StatusRequestView::Exists(p))),
        linux::unit_file(dirs) is None ==> status_begin(dirs, Platform::Linux) == Err::<
            (StatusPhaseView, StatusRequestView),
            FailureView,
        >(FailureView { context: "failed to resolve config dir"@, cause: None }),
        status_begin(dirs, Platform::Unsupported) == Err::<
            (StatusPhaseView, StatusRequestView),
            FailureView,
        >(
            FailureView {
                context: "`shotpaste status` is not implemented on this platform"@,
                cause: None,
            },
        ),
{
}

/// A unit that is there is asked about twice, whether it is active and whether
/// it is enabled, and both answers are told in this order.
pub proof fn law_unit_is_asked_about_twice(p: PathView, first: ReplyView, second: ReplyView)
    requires
        first is Failed || first is Output,
        second is Failed || second is Output,
    ensures
        ({
            let (active, asked_active) = status_next(
                StatusPhaseView::Unit(p),
                ReplyView::Exists(true),
            );
            let (enabled, asked_enabled) = status_next(active, first);
            &&& asked_active == (StatusRequestView::Run {
                program: "systemctl"@,
                args: seq!["--user"@, "is-active"@, "shotpaste.service"@],
            })
            &&& asked_enabled == (StatusRequestView::Run {
                program: "systemctl"@,
                args: seq!["--user"@, "is-enabled"@, "shotpaste.service"@],
            })
            &&& status_next(enabled, second) == (
                StatusPhaseView::Ended,
                StatusRequestView::Print(
                    linux::status_lines(
                        p,
                        linux::systemctl_answer(first),
                        linux::systemctl_answer(second),
                    ),
                ),
            )
            &&& status_next(StatusPhaseView::Unit(p), ReplyView::Exists(false)) == (
                StatusPhaseView::Ended,
                StatusRequestView::Print(linux::missing_lines(p)),
            )
        }),
{
}

/// An agent that is there is asked about under the user's number, and the
/// answer is told; without the number the question fails.
pub proof fn law_agent_is_asked_about_by_number(
    p: PathView,
    uid: Seq<char>,
    f: FailureView,
    first: ReplyView,
    second: ReplyView,
)
    requires
        second is Failed || second is Output,
    ensures
        ({
            let (numbered, asked_number) = status_next(
                StatusPhaseView::Agent(p),
                ReplyView::Exists(true),
            );
            let (loaded, asked_loaded) = status_next(numbered, first);
            &&& asked_number == (StatusRequestView::Run { program: "id"@, args: seq!["-u"@] })
            &&& plan::uid_outcome(first) == OutcomeView::Uid(uid) ==> {
                &&& asked_loaded == (StatusRequestView::Run {
                    program: "launchctl"@,
                    args: seq!["print"@, "gui/"@ + uid + "/"@ + "dev.shotpaste.watcher"@],
                })
                &&& status_next(loaded, second) == (
                    StatusPhaseView::Ended,
                    StatusRequestView::Print(
                        macos::status_lines(p, uid, macos::succeeded(second)),
                    ),
                )
            }
            &&& plan::uid_outcome(first) == OutcomeView::Fail(f) ==> status_next(numbered, first)
                == (StatusPhaseView::Ended, StatusRequestView::Fail(f))
            &&& status_next(StatusPhaseView::Agent(p), ReplyView::Exists(false)) == (
                StatusPhaseView::Ended,
                StatusRequestView::Print(macos::missing_lines()),
            )
        }),
{
}

/// On Windows the user is told what the script wrote about the task, or that
/// PowerShell did not start.
pub proof fn law_task_is_told_as_the_script_wrote(
    success: bool,
    stdout: Seq<u8>,
    stderr: Seq<u8>,
    cause: Seq<char>,
)
    ensures
        status_next(StatusPhaseView::Task, ReplyView::Output { success, stdout, stderr }) == (
            StatusPhaseView::Ended,
            StatusRequestView::Print(windows::status_lines(windows::status_line(stdout))),
        ),
        status_next(StatusPhaseView::Task, ReplyView::Failed(cause)) == (
            StatusPhaseView::Ended,
            StatusRequestView::Fail(
                FailureView { context: "failed to invoke PowerShell"@, cause: Some(cause) },
            ),
        ),
{
}

} // verus!
