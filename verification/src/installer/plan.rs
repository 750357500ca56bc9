//! Work on the system as a list of steps, and the walk through such a list.
use crate::config::{Config, ConfigView, SavePlan};
use crate::failure;
use crate::failure::{Failure, FailureView};
use crate::path::{FilePath, PathView};
use crate::text;
use crate::text::{from_utf8, from_utf8_lossy, trim};
use vstd::pervasive::unreached;
use vstd::prelude::*;
use vstd::string::*;
use vstd::utf8::*;

verus! {

/// A word of a command line.
#[derive(Debug)]
pub enum Arg {
    Text(String),
    /// `gui/` and the user's number: the domain that launchd keeps for the user.
    UserDomain,
}

/// The contents of an [`Arg`].
#[verifier::ext_equal]
pub enum ArgView {
    Text(Seq<char>),
    UserDomain,
}

impl DeepView for Arg {
    type V = ArgView;

    open spec fn deep_view(&self) -> ArgView {
        match *self {
            Arg::Text(s) => ArgView::Text(s@),
            Arg::UserDomain => ArgView::UserDomain,
        }
    }
}

/// The word itself, for the user with the number `uid`.
pub open spec fn word(arg: ArgView, uid: Seq<char>) -> Seq<char> {
    match arg {
        ArgView::Text(s) => s,
        ArgView::UserDomain => "gui/"@ + uid,
    }
}

/// The words of a command line, for the user with the number `uid`.
pub open spec fn words(args: Seq<ArgView>, uid: Seq<char>) -> Seq<Seq<char>> {
    args.map_values(|arg: ArgView| word(arg, uid))
}

/// Which outcome of a command ends the work.
#[derive(Debug)]
pub enum Check {
    /// None: the command is tried, and that is all.
    Ignore,
    /// That it could not be started; the text says so.
    Start(String),
    /// That it could not be started, or that it failed; the second text is put
    /// before what the command wrote about it.
    Success(String, String),
}

/// The contents of a [`Check`].
#[verifier::ext_equal]
pub enum CheckView {
    Ignore,
    Start(Seq<char>),
    Success(Seq<char>, Seq<char>),
}

impl View for Check {
    type V = CheckView;

    open spec fn view(&self) -> CheckView {
        match *self {
            Check::Ignore => CheckView::Ignore,
            Check::Start(s) => CheckView::Start(s@),
            Check::Success(s, t) => CheckView::Success(s@, t@),
        }
    }
}

/// One step of the work.
#[derive(Debug)]
pub enum Step {
    /// Create the folder and those it lies in; a failure ends the work with `context`.
    CreateDir { path: FilePath, context: String },
    /// Write the file anew; a failure ends the work with `context`.
    WriteFile { path: FilePath, text: String, context: String },
    /// Remove the file; a failure ends the work if there is something to `tell`.
    RemoveFile { path: FilePath, tell: Option<String> },
    /// Remove the folder with all it holds; a failure ends the work with `context`.
    RemoveDir { path: FilePath, context: String },
    /// Leave out the next `count` steps unless something is at `path`.
    UnlessExists { path: FilePath, count: usize },
    /// Leave out the next `count` steps if something is at `path`.
    IfExists { path: FilePath, count: usize },
    /// Ask for the number of the user.
    AskUid,
    /// Run a command.
    Run { program: String, args: Vec<Arg>, check: Check },
    /// Save default settings; a failure is passed over.
    SaveDefaults(SavePlan),
    /// End the work with a failure.
    Abort(Failure),
}

/// The contents of a [`Step`].
#[verifier::ext_equal]
pub enum StepView {
    CreateDir { path: PathView, context: Seq<char> },
    WriteFile { path: PathView, text: Seq<char>, context: Seq<char> },
    RemoveFile { path: PathView, tell: Option<Seq<char>> },
    RemoveDir { path: PathView, context: Seq<char> },
    UnlessExists { path: PathView, count: nat },
    IfExists { path: PathView, count: nat },
    AskUid,
    Run { program: Seq<char>, args: Seq<ArgView>, check: CheckView },
    SaveDefaults { folder: PathView, file: PathView },
    Abort(FailureView),
}

impl DeepView for Step {
    type V = StepView;

    open spec fn deep_view(&self) -> StepView {
        match *self {
            Step::CreateDir { path, context } => StepView::CreateDir {
                path: path@,
                context: context@,
            },
            Step::WriteFile { path, text, context } => StepView::WriteFile {
                path: path@,
                text: text@,
                context: context@,
            },
            Step::RemoveFile { path, tell } => StepView::RemoveFile {
                path: path@,
                tell: tell.deep_view(),
            },
            Step::RemoveDir { path, context } => StepView::RemoveDir {
                path: path@,
                context: context@,
            },
            Step::UnlessExists { path, count } => StepView::UnlessExists {
                path: path@,
                count: count as nat,
            },
            Step::IfExists { path, count } => StepView::IfExists {
                path: path@,
                count: count as nat,
            },
            Step::AskUid => StepView::AskUid,
            Step::Run { program, args, check } => StepView::Run {
                program: program@,
                args: args.deep_view(),
                check: check@,
            },
            Step::SaveDefaults(plan) => StepView::SaveDefaults {
                folder: plan.folder@,
                file: plan.file@,
            },
            Step::Abort(f) => StepView::Abort(f@),
        }
    }
}

/// What the work asks of the system.
#[derive(Debug)]
pub enum Request {
    CreateDir(FilePath),
    WriteFile { path: FilePath, text: String },
    RemoveFile(FilePath),
    RemoveDir(FilePath),
    /// Whether there is something at the path.
    Exists(FilePath),
    Run { program: String, args: Vec<String> },
    SaveConfig { plan: SavePlan, config: Config },
    /// The work has ended.
    Finish(Result<(), Failure>),
}

/// The contents of a [`Request`].
#[verifier::ext_equal]
pub enum RequestView {
    CreateDir(PathView),
    WriteFile { path: PathView, text: Seq<char> },
    RemoveFile(PathView),
    RemoveDir(PathView),
    Exists(PathView),
    Run { program: Seq<char>, args: Seq<Seq<char>> },
    SaveConfig { folder: PathView, file: PathView, config: ConfigView },
    Finish(Result<(), FailureView>),
}

impl View for Request {
    type V = RequestView;

    open spec fn view(&self) -> RequestView {
        match *self {
            Request::CreateDir(p) => RequestView::CreateDir(p@),
            Request::WriteFile { path, text } => RequestView::WriteFile { path: path@, text: text@ },
            Request::RemoveFile(p) => RequestView::RemoveFile(p@),
            Request::RemoveDir(p) => RequestView::RemoveDir(p@),
            Request::Exists(p) => RequestView::Exists(p@),
            Request::Run { program, args } => RequestView::Run {
                program: program@,
                args: args.deep_view(),
            },
            Request::SaveConfig { plan, config } => RequestView::SaveConfig {
                folder: plan.folder@,
                file: plan.file@,
                config: config@,
            },
            Request::Finish(Ok(())) => RequestView::Finish(Ok(())),
            Request::Finish(Err(e)) => RequestView::Finish(Err(e@)),
        }
    }
}

/// What the system answers.
#[derive(Debug)]
pub enum Reply {
    Done,
    /// The request failed, or the command did not start, with the system's own words.
    Failed(String),
    Exists(bool),
    /// The command ran.
    Output { success: bool, stdout: Vec<u8>, stderr: Vec<u8> },
}

/// The contents of a [`Reply`].
#[verifier::ext_equal]
pub enum ReplyView {
    Done,
    Failed(Seq<char>),
    Exists(bool),
    Output { success: bool, stdout: Seq<u8>, stderr: Seq<u8> },
}

impl View for Reply {
    type V = ReplyView;

    open spec fn view(&self) -> ReplyView {
        match *self {
            Reply::Done => ReplyView::Done,
            Reply::Failed(cause) => ReplyView::Failed(cause@),
            Reply::Exists(b) => ReplyView::Exists(b),
            Reply::Output { success, stdout, stderr } => ReplyView::Output {
                success,
                stdout: stdout@,
                stderr: stderr@,
            },
        }
    }
}

/// What a command wrote, as one piece of text.
pub open spec fn written(bytes: Seq<u8>) -> Seq<char> {
    text::trimmed(text::lossy_text(bytes))
}

/// What came of a step.
#[derive(Debug)]
pub enum Outcome {
    /// On to the next step.
    Next,
    /// On to the next step, with the user's number known.
    Uid(String),
    /// Past this many of the next steps.
    Skip(usize),
    /// The work ends.
    Fail(Failure),
}

/// The contents of an [`Outcome`].
#[verifier::ext_equal]
pub enum OutcomeView {
    Next,
    Uid(Seq<char>),
    Skip(nat),
    Fail(FailureView),
}

impl View for Outcome {
    type V = OutcomeView;

    open spec fn view(&self) -> OutcomeView {
        match *self {
            Outcome::Next => OutcomeView::Next,
            Outcome::Uid(s) => OutcomeView::Uid(s@),
            Outcome::Skip(n) => OutcomeView::Skip(n as nat),
            Outcome::Fail(f) => OutcomeView::Fail(f@),
        }
    }
}

/// What `step` asks for, for the user with the number `uid`.
pub open spec fn asked(step: StepView, uid: Seq<char>) -> RequestView {
    match step {
        StepView::CreateDir { path, context } => RequestView::CreateDir(path),
        StepView::WriteFile { path, text, context } => RequestView::WriteFile { path, text },
        StepView::RemoveFile { path, tell } => RequestView::RemoveFile(path),
        StepView::RemoveDir { path, context } => RequestView::RemoveDir(path),
        StepView::UnlessExists { path, count } => RequestView::Exists(path),
        StepView::IfExists { path, count } => RequestView::Exists(path),
        StepView::AskUid => RequestView::Run { program: "id"@, args: seq!["-u"@] },
        StepView::Run { program, args, check } => RequestView::Run {
            program,
            args: words(args, uid),
        },
        StepView::SaveDefaults { folder, file } => RequestView::SaveConfig {
            folder,
            file,
            config: crate::config::default_config(),
        },
        StepView::Abort(f) => RequestView::Finish(Err(f)),
    }
}

/// Whether `reply` answers `request`.
pub open spec fn reply_fits(request: RequestView, reply: ReplyView) -> bool {
    match request {
        RequestView::Exists(_) => reply is Exists,
        RequestView::Run { .. } => reply is Failed || reply is Output,
        RequestView::Finish(_) => false,
        _ => reply is Done || reply is Failed,
    }
}

/// What came of asking for the user's number.
pub open spec fn uid_outcome(reply: ReplyView) -> OutcomeView {
    match reply {
        ReplyView::Failed(cause) => OutcomeView::Fail(
            failure::caused_failure("failed to invoke `id -u`"@, cause),
        ),
        ReplyView::Output { success, stdout, stderr } => if !success {
            OutcomeView::Fail(failure::plain_failure("`id -u` failed"@))
        } else if valid_utf8(stdout) {
            OutcomeView::Uid(text::trimmed(decode_utf8(stdout)))
        } else {
            OutcomeView::Fail(
                failure::caused_failure("`id -u` output is not UTF-8"@, text::utf8_fault(stdout)),
            )
        },
        _ => OutcomeView::Next,
    }
}

/// What came of a command with the given `check`.
pub open spec fn run_outcome(check: CheckView, reply: ReplyView) -> OutcomeView {
    match (check, reply) {
        (CheckView::Start(context), ReplyView::Failed(cause)) => OutcomeView::Fail(
            failure::caused_failure(context, cause),
        ),
        (CheckView::Success(context, prefix), ReplyView::Failed(cause)) => OutcomeView::Fail(
            failure::caused_failure(context, cause),
        ),
        (
            CheckView::Success(context, prefix),
            ReplyView::Output { success, stdout, stderr },
        ) => if success {
            OutcomeView::Next
        } else {
            OutcomeView::Fail(failure::plain_failure(prefix + written(stderr)))
        },
        _ => OutcomeView::Next,
    }
}

/// What came of `step`.
pub open spec fn outcome(step: StepView, reply: ReplyView) -> OutcomeView {
    match (step, reply) {
        (StepView::CreateDir { path, context }, ReplyView::Failed(cause)) => OutcomeView::Fail(
            failure::caused_failure(context, cause),
        ),
        (StepView::WriteFile { path, text, context }, ReplyView::Failed(cause)) =>
            OutcomeView::Fail(failure::caused_failure(context, cause)),
        (StepView::RemoveFile { path, tell: Some(context) }, ReplyView::Failed(cause)) =>
            OutcomeView::Fail(failure::caused_failure(context, cause)),
        (StepView::RemoveDir { path, context }, ReplyView::Failed(cause)) => OutcomeView::Fail(
            failure::caused_failure(context, cause),
        ),
        (StepView::UnlessExists { path, count }, ReplyView::Exists(there)) => if there {
            OutcomeView::Next
        } else {
            OutcomeView::Skip(count)
        },
        (StepView::IfExists { path, count }, ReplyView::Exists(there)) => if there {
            OutcomeView::Skip(count)
        } else {
            OutcomeView::Next
        },
        (StepView::AskUid, _) => uid_outcome(reply),
        (StepView::Run { program, args, check }, _) => run_outcome(check, reply),
        _ => OutcomeView::Next,
    }
}

/// Work under way.
#[derive(Debug)]
pub struct Job {
    pub steps: Vec<Step>,
    /// The step that is being done; one past the last when the work has ended.
    pub at: usize,
    /// The number of the user, empty until it was asked for.
    pub uid: String,
}

/// The contents of a [`Job`].
#[verifier::ext_equal]
pub struct JobView {
    pub steps: Seq<StepView>,
    pub at: nat,
    pub uid: Seq<char>,
}

impl View for Job {
    type V = JobView;

    open spec fn view(&self) -> JobView {
        JobView { steps: self.steps.deep_view(), at: self.at as nat, uid: self.uid@ }
    }
}

/// What work asks for where it stands.
pub open spec fn job_request(job: JobView) -> RequestView {
    if job.at < job.steps.len() {
        asked(job.steps[job.at as int], job.uid)
    } else {
        RequestView::Finish(Ok(()))
    }
}

/// The work at the step `at`, or at its end if there is none.
pub open spec fn job_at(job: JobView, at: nat) -> JobView {
    JobView {
        at: if at < job.steps.len() {
            at
        } else {
            job.steps.len()
        },
        ..job
    }
}

/// What the work does with an answer: where it stands, and what it asks next.
pub open spec fn job_next(job: JobView, reply: ReplyView) -> (JobView, RequestView) {
    match outcome(job.steps[job.at as int], reply) {
        OutcomeView::Next => {
            let after = job_at(job, job.at + 1);
            (after, job_request(after))
        },
        OutcomeView::Uid(uid) => {
            let after = job_at(JobView { uid, ..job }, job.at + 1);
            (after, job_request(after))
        },
        OutcomeView::Skip(count) => {
            let after = job_at(job, job.at + 1 + count);
            (after, job_request(after))
        },
        OutcomeView::Fail(f) => (
            job_at(job, job.steps.len()),
            RequestView::Finish(Err(f)),
        ),
    }
}

impl Arg {
    fn word(&self, uid: &String) -> (r: String)
        ensures
            r@ == word(self.deep_view(), uid@),
    {
        match self {
            Arg::Text(s) => s.clone(),
            Arg::UserDomain => "gui/".to_owned().concat(uid.as_str()),
        }
    }
}

fn words_of(args: &Vec<Arg>, uid: &String) -> (r: Vec<String>)
    ensures
        r.deep_view() == words(args.deep_view(), uid@),
{
    let mut out: Vec<String> = Vec::new();
    let mut i: usize = 0;
    while i < args.len()
        invariant
            0 <= i <= args@.len(),
            out@.len() == i,
            forall|j: int|
                0 <= j < i ==> (#[trigger] out@[j])@ == word(args@[j].deep_view(), uid@),
        decreases args@.len() - i,
    {
        out.push(args[i].word(uid));
        i += 1;
    }
    assert(out.deep_view() =~= words(args.deep_view(), uid@));
    out
}

/// Makes a copy of the save plan.
fn copy_plan(plan: &SavePlan) -> (r: SavePlan)
    ensures
        r.folder@ == plan.folder@,
        r.file@ == plan.file@,
{
    SavePlan { folder: plan.folder.duplicate(), file: plan.file.duplicate() }
}

/// What a command wrote, as one piece of text.
pub fn written_text(bytes: &Vec<u8>) -> (r: String)
    ensures
        r@ == written(bytes@),
{
    trim(from_utf8_lossy(bytes).as_str())
}

/// The number that `id -u` wrote.
pub fn current_uid(reply: Reply) -> (r: Result<String, Failure>)
    requires
        reply@ is Failed || reply@ is Output,
    ensures
        (match r {
            Ok(uid) => uid_outcome(reply@) == OutcomeView::Uid(uid@),
            Err(f) => uid_outcome(reply@) == OutcomeView::Fail(f@),
        }),
{
    match reply {
        Reply::Failed(cause) => Err(
            Failure::caused("failed to invoke `id -u`".to_owned(), cause),
        ),
        Reply::Output { success, stdout, stderr: _ } => {
            if !success {
                return Err(Failure::plain("`id -u` failed".to_owned()));
            }
            match from_utf8(&stdout) {
                Ok(s) => Ok(trim(s.as_str())),
                Err(fault) => Err(
                    Failure::caused("`id -u` output is not UTF-8".to_owned(), fault),
                ),
            }
        },
        _ => unreached(),
    }
}

impl Step {
    fn ask(&self, uid: &String) -> (r: Request)
        ensures
            r@ == asked(self.deep_view(), uid@),
    {
        match self {
            Step::CreateDir { path, .. } => Request::CreateDir(path.duplicate()),
            Step::WriteFile { path, text, .. } => Request::WriteFile {
                path: path.duplicate(),
                text: text.clone(),
            },
            Step::RemoveFile { path, .. } => Request::RemoveFile(path.duplicate()),
            Step::RemoveDir { path, .. } => Request::RemoveDir(path.duplicate()),
            Step::UnlessExists { path, .. } => Request::Exists(path.duplicate()),
            Step::IfExists { path, .. } => Request::Exists(path.duplicate()),
            Step::AskUid => {
                let mut args: Vec<String> = Vec::new();
                args.push("-u".to_owned());
                assert(args.deep_view() =~= seq!["-u"@]);
                Request::Run { program: "id".to_owned(), args }
            },
            Step::Run { program, args, .. } => Request::Run {
                program: program.clone(),
                args: words_of(args, uid),
            },
            Step::SaveDefaults(plan) => Request::SaveConfig {
                plan: copy_plan(plan),
                config: Config::default(),
            },
            Step::Abort(f) => Request::Finish(Err(f.duplicate())),
        }
    }

    fn settle(&self, reply: Reply, uid: &String) -> (r: Outcome)
        requires
            reply_fits(asked(self.deep_view(), uid@), reply@),
        ensures
            r@ == outcome(self.deep_view(), reply@),
    {
        match self {
            Step::CreateDir { context, .. } => match reply {
                Reply::Failed(cause) => Outcome::Fail(Failure::caused(context.clone(), cause)),
                _ => Outcome::Next,
            },
            Step::WriteFile { context, .. } => match reply {
                Reply::Failed(cause) => Outcome::Fail(Failure::caused(context.clone(), cause)),
                _ => Outcome::Next,
            },
            Step::RemoveFile { tell, .. } => match reply {
                Reply::Failed(cause) => match tell {
                    Some(context) => Outcome::Fail(Failure::caused(context.clone(), cause)),
                    None => Outcome::Next,
                },
                _ => Outcome::Next,
            },
            Step::RemoveDir { context, .. } => match reply {
                Reply::Failed(cause) => Outcome::Fail(Failure::caused(context.clone(), cause)),
                _ => Outcome::Next,
            },
            Step::UnlessExists { count, .. } => match reply {
                Reply::Exists(false) => Outcome::Skip(*count),
                _ => Outcome::Next,
            },
            Step::IfExists { count, .. } => match reply {
                Reply::Exists(true) => Outcome::Skip(*count),
                _ => Outcome::Next,
            },
            Step::AskUid => match current_uid(reply) {
                Ok(uid) => Outcome::Uid(uid),
                Err(f) => Outcome::Fail(f),
            },
            Step::Run { check, .. } => match check {
                Check::Ignore => Outcome::Next,
                Check::Start(context) => match reply {
                    Reply::Failed(cause) => Outcome::Fail(Failure::caused(context.clone(), cause)),
                    _ => Outcome::Next,
                },
                Check::Success(context, prefix) => match reply {
                    Reply::Failed(cause) => Outcome::Fail(Failure::caused(context.clone(), cause)),
                    Reply::Output { success, stdout: _, stderr } => if success {
                        Outcome::Next
                    } else {
                        let told = written_text(&stderr);
                        Outcome::Fail(Failure::plain(prefix.clone().concat(told.as_str())))
                    },
                    _ => Outcome::Next,
                },
            },
            Step::SaveDefaults(_) => Outcome::Next,
            Step::Abort(_) => Outcome::Next,
        }
    }
}

impl Job {
    /// Begins the work; answers what to ask first.
    pub fn begin(steps: Vec<Step>) -> (r: (Job, Request))
        ensures
            r.0@ == (JobView { steps: steps.deep_view(), at: 0, uid: Seq::empty() }),
            r.1@ == job_request(r.0@),
    {
        let job = Job { steps, at: 0, uid: String::new() };
        assert(job.uid@ =~= Seq::<char>::empty());
        let request = job.request();
        (job, request)
    }

    fn request(&self) -> (r: Request)
        ensures
            r@ == job_request(self@),
    {
        if self.at < self.steps.len() {
            self.steps[self.at].ask(&self.uid)
        } else {
            Request::Finish(Ok(()))
        }
    }

    /// Takes the answer to what was asked last; answers what to ask next.
    pub fn advance(&mut self, reply: Reply) -> (r: Request)
        requires
            reply_fits(job_request(old(self)@), reply@),
        ensures
            (final(self)@, r@) == job_next(old(self)@, reply@),
    {
        let n: usize = self.steps.len();
        match self.steps[self.at].settle(reply, &self.uid) {
            Outcome::Next => {
                self.at = self.at + 1;
            },
            Outcome::Uid(uid) => {
                self.uid = uid;
                self.at = self.at + 1;
            },
            Outcome::Skip(count) => {
                let left: usize = n - self.at - 1;
                if count < left {
                    self.at = self.at + 1 + count;
                } else {
                    self.at = n;
                }
            },
            Outcome::Fail(f) => {
                self.at = n;
                return Request::Finish(Err(f));
            },
        }
        self.request()
    }
}

/// Each step asks for what it stands for, with its own path, text and words;
/// the domain of the user stands for `gui/` and the user's number.
pub proof fn law_steps_ask_for_what_they_are(
    path: PathView,
    text: Seq<char>,
    context: Seq<char>,
    tell: Option<Seq<char>>,
    count: nat,
    file: PathView,
    f: FailureView,
    uid: Seq<char>,
)
    ensures
        asked(StepView::CreateDir { path, context }, uid) == RequestView::CreateDir(path),
        asked(StepView::WriteFile { path, text, context }, uid) == (RequestView::WriteFile {
            path,
            text,
        }),
        asked(StepView::RemoveFile { path, tell }, uid) == RequestView::RemoveFile(path),
        asked(StepView::RemoveDir { path, context }, uid) == RequestView::RemoveDir(path),
        asked(StepView::UnlessExists { path, count }, uid) == RequestView::Exists(path),
        asked(StepView::IfExists { path, count }, uid) == RequestView::Exists(path),
        asked(StepView::AskUid, uid) == (RequestView::Run { program: "id"@, args: seq!["-u"@] }),
        asked(StepView::SaveDefaults { folder: path, file }, uid) == (RequestView::SaveConfig {
            folder: path,
            file,
            config: ConfigView {
                notify_on_success: true,
                notify_on_error: true,
                watch_dirs: Seq::empty(),
                watch_dir: None,
            },
        }),
        asked(StepView::Abort(f), uid) == RequestView::Finish(Err(f)),
{
}

/// A command is run with its words in order, each as it is written, but the
/// domain of the user as `gui/` and the user's number.
pub proof fn law_commands_are_run_word_for_word(
    program: Seq<char>,
    args: Seq<ArgView>,
    check: CheckView,
    uid: Seq<char>,
    i: int,
)
    requires
        0 <= i < args.len(),
    ensures
        ({
            let request = asked(StepView::Run { program, args, check }, uid);
            &&& request matches RequestView::Run { program: p, args: run_args }
            &&& p == program
            &&& run_args.len() == args.len()
            &&& args[i] matches ArgView::Text(s) ==> run_args[i] == s
            &&& args[i] is UserDomain ==> run_args[i] == "gui/"@ + uid
        }),
{
}

/// What comes of a step: one that fails ends the work and tells what it was
/// and why, unless it may fail; a look for a file passes over the steps that
/// depend on it, as many as it says; and every other step leads on.
pub proof fn law_steps_end_or_lead_on(
    path: PathView,
    text: Seq<char>,
    context: Seq<char>,
    count: nat,
    file: PathView,
    cause: Seq<char>,
)
    ensures
        ({
            let failed = ReplyView::Failed(cause);
            let told = OutcomeView::Fail(FailureView { context, cause: Some(cause) });
            let create = StepView::CreateDir { path, context };
            let write = StepView::WriteFile { path, text, context };
            let remove = StepView::RemoveFile { path, tell: Some(context) };
            let try_remove = StepView::RemoveFile { path, tell: None };
            let remove_dir = StepView::RemoveDir { path, context };
            let save = StepView::SaveDefaults { folder: path, file };
            &&& outcome(create, failed) == told && outcome(create, ReplyView::Done) is Next
            &&& outcome(write, failed) == told && outcome(write, ReplyView::Done) is Next
            &&& outcome(remove, failed) == told && outcome(remove, ReplyView::Done) is Next
            &&& outcome(try_remove, failed) is Next && outcome(try_remove, ReplyView::Done) is Next
            &&& outcome(remove_dir, failed) == told && outcome(remove_dir, ReplyView::Done) is Next
            &&& outcome(save, failed) is Next && outcome(save, ReplyView::Done) is Next
            &&& outcome(StepView::UnlessExists { path, count }, ReplyView::Exists(true)) is Next
            &&& outcome(StepView::UnlessExists { path, count }, ReplyView::Exists(false))
                == OutcomeView::Skip(count)
            &&& outcome(StepView::IfExists { path, count }, ReplyView::Exists(true))
                == OutcomeView::Skip(count)
            &&& outcome(StepView::IfExists { path, count }, ReplyView::Exists(false)) is Next
        }),
{
}

/// What comes of a command: one that is only tried leads on in any case, one
/// that has to start ends the work only if it does not start, and one that has
/// to succeed also if it fails, with what it wrote about it.
pub proof fn law_commands_are_judged_as_asked(
    program: Seq<char>,
    args: Seq<ArgView>,
    context: Seq<char>,
    prefix: Seq<char>,
    cause: Seq<char>,
    success: bool,
    stdout: Seq<u8>,
    stderr: Seq<u8>,
)
    ensures
        ({
            let failed = ReplyView::Failed(cause);
            let ran = ReplyView::Output { success, stdout, stderr };
            let told = OutcomeView::Fail(FailureView { context, cause: Some(cause) });
            let tried = StepView::Run { program, args, check: CheckView::Ignore };
            let started = StepView::Run { program, args, check: CheckView::Start(context) };
            let done = StepView::Run { program, args, check: CheckView::Success(context, prefix) };
            &&& outcome(tried, failed) is Next
            &&& outcome(tried, ran) is Next
            &&& outcome(started, failed) == told
            &&& outcome(started, ran) is Next
            &&& outcome(done, failed) == told
            &&& success ==> outcome(done, ran) is Next
            &&& !success ==> outcome(done, ran) == OutcomeView::Fail(
                FailureView {
                    context: prefix + text::trimmed(text::lossy_text(stderr)),
                    cause: None,
                },
            )
        }),
{
}

/// The user's number is what `id -u` wrote, without the space around it, if
/// the command succeeded and wrote text; else the work ends.
pub proof fn law_number_of_the_user_is_what_id_wrote(
    cause: Seq<char>,
    stdout: Seq<u8>,
    stderr: Seq<u8>,
)
    ensures
        outcome(StepView::AskUid, ReplyView::Failed(cause)) == OutcomeView::Fail(
            FailureView { context: "failed to invoke `id -u`"@, cause: Some(cause) },
        ),
        outcome(StepView::AskUid, ReplyView::Output { success: false, stdout, stderr })
            == OutcomeView::Fail(FailureView { context: "`id -u` failed"@, cause: None }),
        valid_utf8(stdout) ==> outcome(
            StepView::AskUid,
            ReplyView::Output { success: true, stdout, stderr },
        ) == OutcomeView::Uid(text::trimmed(decode_utf8(stdout))),
        !valid_utf8(stdout) ==> outcome(
            StepView::AskUid,
            ReplyView::Output { success: true, stdout, stderr },
        ) == OutcomeView::Fail(
            FailureView {
                context: "`id -u` output is not UTF-8"@,
                cause: Some(text::utf8_fault(stdout)),
            },
        ),
{
}

/// The work walks through its steps: on to the next one, or past those that
/// are passed over, and from the last one to its end. The user's number, once
/// known, is used from then on. A failure ends it there and then.
pub proof fn law_work_walks_through_its_steps(job: JobView, reply: ReplyView)
    requires
        job.at < job.steps.len(),
    ensures
        ({
            let (after, request) = job_next(job, reply);
            let n = job.steps.len();
            let came = outcome(job.steps[job.at as int], reply);
            &&& after.steps == job.steps
            &&& came is Next ==> after.at == job.at + 1 && after.uid == job.uid
            &&& came matches OutcomeView::Uid(uid) ==> after.at == job.at + 1 && after.uid == uid
            &&& came matches OutcomeView::Skip(count) ==> {
                &&& after.uid == job.uid
                &&& job.at + 1 + count <= n ==> after.at == job.at + 1 + count
                &&& job.at + 1 + count > n ==> after.at == n
            }
            &&& came matches OutcomeView::Fail(f) ==> after.at == n && request
                == RequestView::Finish(Err(f))
            &&& !(came is Fail) && after.at < n ==> request == asked(
                job.steps[after.at as int],
                after.uid,
            )
            &&& !(came is Fail) && after.at == n ==> request == RequestView::Finish(Ok(()))
        }),
{
}

/// Work begins with its first step, and work without steps is done at once.
pub proof fn law_work_begins_with_its_first_step(steps: Seq<StepView>, uid: Seq<char>)
    ensures
        steps.len() > 0 ==> job_request(JobView { steps, at: 0, uid }) == asked(steps[0], uid),
        steps.len() == 0 ==> job_request(JobView { steps, at: 0, uid }) == RequestView::Finish(
            Ok(()),
        ),
{
}

/// What a command wrote is told without the white space around it.
pub proof fn law_written_text_has_no_space_around_it(bytes: Seq<u8>)
    ensures
        written(bytes) == text::trimmed(text::lossy_text(bytes)),
{
}

} // verus!
