//! The watcher's loop, one step at a time: each answer of the system leads to
//! the next thing to ask of it.
use crate::failure;
use crate::failure::{Failure, FailureView};
use crate::path::{copy_paths, FilePath, PathView};
use crate::platform::Platform;
use crate::watcher::events;
use crate::watcher::events::{screenshots, FileEvent, FileEventView};
use crate::watcher::seen;
use crate::watcher::seen::{Fingerprint, Seen};
use vstd::pervasive::unreached;
use vstd::prelude::*;

verus! {

/// How long the system gathers events before it hands them on, in milliseconds.
pub const DEBOUNCE_MILLIS: u64 = 200;

/// How long the loop waits for events before it looks for a request to stop,
/// in milliseconds. It also looks after each batch of events.
pub const SHUTDOWN_POLL_MILLIS: u64 = 500;

/// Is told of each push.
pub trait WatcherSink: Send + 'static {
    fn pushed(&self, path: &FilePath);

    fn failed(&self, path: &FilePath, err: &Failure);
}

/// A sink that leaves it to the log.
#[derive(Debug)]
pub struct LogSink;

impl WatcherSink for LogSink {
    fn pushed(&self, _path: &FilePath) {
    }

    fn failed(&self, _path: &FilePath, _err: &Failure) {
    }
}

/// Where the loop stands: which answer it waits for.
#[derive(Debug)]
pub enum Phase {
    Creating,
    /// Asked to watch the folder at this index.
    Registering(usize),
    Polling,
    CheckingStop,
    Fingerprinting(FilePath),
    Pushing(FilePath, Option<Fingerprint>),
    Stopped,
}

/// The contents of a [`Phase`].
#[verifier::ext_equal]
pub enum PhaseView {
    Creating,
    Registering(int),
    Polling,
    CheckingStop,
    Fingerprinting(PathView),
    Pushing(PathView, Option<Fingerprint>),
    Stopped,
}

impl View for Phase {
    type V = PhaseView;

    open spec fn view(&self) -> PhaseView {
        match *self {
            Phase::Creating => PhaseView::Creating,
            Phase::Registering(i) => PhaseView::Registering(i as int),
            Phase::Polling => PhaseView::Polling,
            Phase::CheckingStop => PhaseView::CheckingStop,
            Phase::Fingerprinting(p) => PhaseView::Fingerprinting(p@),
            Phase::Pushing(p, fp) => PhaseView::Pushing(p@, fp),
            Phase::Stopped => PhaseView::Stopped,
        }
    }
}

/// What the loop asks of the system.
#[derive(Debug)]
pub enum Request {
    /// Create the source of events.
    Create,
    /// Watch this folder, not those below it.
    Watch(FilePath),
    /// Wait for events.
    Poll,
    /// Look for a request to stop.
    CheckStop,
    /// Read the state of this file.
    ReadFingerprint(FilePath),
    /// Put this screenshot on the clipboard.
    Push(FilePath),
    /// The loop has ended.
    Finish(Result<(), Failure>),
}

/// The contents of a [`Request`].
#[verifier::ext_equal]
pub enum RequestView {
    Create,
    Watch(PathView),
    Poll,
    CheckStop,
    ReadFingerprint(PathView),
    Push(PathView),
    Finish(Result<(), FailureView>),
}

impl View for Request {
    type V = RequestView;

    open spec fn view(&self) -> RequestView {
        match *self {
            Request::Create => RequestView::Create,
            Request::Watch(p) => RequestView::Watch(p@),
            Request::Poll => RequestView::Poll,
            Request::CheckStop => RequestView::CheckStop,
            Request::ReadFingerprint(p) => RequestView::ReadFingerprint(p@),
            Request::Push(p) => RequestView::Push(p@),
            Request::Finish(Ok(())) => RequestView::Finish(Ok(())),
            Request::Finish(Err(e)) => RequestView::Finish(Err(e@)),
        }
    }
}

/// What the system answers.
#[derive(Debug)]
pub enum Reply {
    Created,
    CreateFailed(String),
    /// Whether the folder is watched now.
    Watched(bool),
    Events(Vec<FileEvent>),
    /// The source of events reported errors of its own.
    Errors,
    TimedOut,
    /// The source of events is gone.
    BackendClosed,
    /// Whether there is a request to stop, or nobody left to make one.
    Stop(bool),
    Fingerprint(Option<Fingerprint>),
    Pushed,
    PushFailed(Failure),
}

/// The contents of a [`Reply`].
#[verifier::ext_equal]
pub enum ReplyView {
    Created,
    CreateFailed(Seq<char>),
    Watched(bool),
    Events(Seq<FileEventView>),
    Errors,
    TimedOut,
    BackendClosed,
    Stop(bool),
    Fingerprint(Option<Fingerprint>),
    Pushed,
    PushFailed(FailureView),
}

impl View for Reply {
    type V = ReplyView;

    open spec fn view(&self) -> ReplyView {
        match *self {
            Reply::Created => ReplyView::Created,
            Reply::CreateFailed(cause) => ReplyView::CreateFailed(cause@),
            Reply::Watched(ok) => ReplyView::Watched(ok),
            Reply::Events(events) => ReplyView::Events(events.deep_view()),
            Reply::Errors => ReplyView::Errors,
            Reply::TimedOut => ReplyView::TimedOut,
            Reply::BackendClosed => ReplyView::BackendClosed,
            Reply::Stop(stop) => ReplyView::Stop(stop),
            Reply::Fingerprint(fp) => ReplyView::Fingerprint(fp),
            Reply::Pushed => ReplyView::Pushed,
            Reply::PushFailed(e) => ReplyView::PushFailed(e@),
        }
    }
}

/// What the sink is told.
#[derive(Debug)]
pub enum Report {
    Pushed(FilePath),
    Failed(FilePath, Failure),
}

/// The contents of a [`Report`].
#[verifier::ext_equal]
pub enum ReportView {
    Pushed(PathView),
    Failed(PathView, FailureView),
}

impl DeepView for Report {
    type V = ReportView;

    open spec fn deep_view(&self) -> ReportView {
        match *self {
            Report::Pushed(p) => ReportView::Pushed(p@),
            Report::Failed(p, e) => ReportView::Failed(p@, e@),
        }
    }
}

/// The loop.
#[derive(Debug)]
pub struct WatchLoop {
    pub dirs: Vec<FilePath>,
    pub platform: Platform,
    /// Whether anybody can ask the loop to stop.
    pub stoppable: bool,
    pub phase: Phase,
    /// How many folders are watched.
    pub registered: usize,
    /// The announced screenshots that are still to be looked at.
    pub pending: Vec<FilePath>,
    pub seen: Seen,
}

/// The contents of a [`WatchLoop`], but for what it remembers.
#[verifier::ext_equal]
pub struct LoopView {
    pub dirs: Seq<PathView>,
    pub platform: Platform,
    pub stoppable: bool,
    pub phase: PhaseView,
    pub registered: nat,
    pub pending: Seq<PathView>,
}

impl View for WatchLoop {
    type V = LoopView;

    open spec fn view(&self) -> LoopView {
        LoopView {
            dirs: self.dirs.deep_view(),
            platform: self.platform,
            stoppable: self.stoppable,
            phase: self.phase@,
            registered: self.registered as nat,
            pending: self.pending.deep_view(),
        }
    }
}

/// Whether `reply` answers what the loop waits for.
pub open spec fn answers(phase: PhaseView, reply: ReplyView) -> bool {
    match phase {
        PhaseView::Creating => reply is Created || reply is CreateFailed,
        PhaseView::Registering(_) => reply is Watched,
        PhaseView::Polling => reply is Events || reply is Errors || reply is TimedOut
            || reply is BackendClosed,
        PhaseView::CheckingStop => reply is Stop,
        PhaseView::Fingerprinting(_) => reply is Fingerprint,
        PhaseView::Pushing(_, _) => reply is Pushed || reply is PushFailed,
        PhaseView::Stopped => false,
    }
}

/// What holds of a loop at all times.
pub open spec fn loop_sound(s: LoopView) -> bool {
    &&& s.dirs.len() > 0
    &&& match s.phase {
        PhaseView::Creating => s.registered == 0,
        PhaseView::Registering(i) => 0 <= i < s.dirs.len() && s.registered <= i,
        PhaseView::Stopped => s.registered <= s.dirs.len(),
        _ => 0 < s.registered <= s.dirs.len(),
    }
}

/// A loop that has just begun.
pub open spec fn begun(dirs: Seq<PathView>, platform: Platform, stoppable: bool) -> LoopView {
    LoopView {
        dirs,
        platform,
        stoppable,
        phase: PhaseView::Creating,
        registered: 0,
        pending: Seq::empty(),
    }
}

/// The loop and what it tells and asks after an answer.
#[verifier::ext_equal]
pub struct Outcome {
    pub state: LoopView,
    pub report: Option<ReportView>,
    pub request: RequestView,
}

/// Waits for further events; a loop that can be asked to stop first looks
/// whether it was.
pub open spec fn wait(s: LoopView, report: Option<ReportView>) -> Outcome {
    if s.stoppable {
        Outcome {
            state: LoopView { phase: PhaseView::CheckingStop, ..s },
            report,
            request: RequestView::CheckStop,
        }
    } else {
        Outcome {
            state: LoopView { phase: PhaseView::Polling, ..s },
            report,
            request: RequestView::Poll,
        }
    }
}

/// Goes on to the next announced screenshot, or waits for further events.
pub open spec fn proceed(s: LoopView, report: Option<ReportView>) -> Outcome {
    if s.pending.len() == 0 {
        wait(s, report)
    } else {
        let p = s.pending.first();
        Outcome {
            state: LoopView {
                phase: PhaseView::Fingerprinting(p),
                pending: s.pending.drop_first(),
                ..s
            },
            report,
            request: RequestView::ReadFingerprint(p),
        }
    }
}

/// Goes on to wait for the answer to `request` in `phase`.
pub open spec fn ask(s: LoopView, phase: PhaseView, request: RequestView) -> Outcome {
    Outcome { state: LoopView { phase, ..s }, report: None, request }
}

/// Ends the loop.
pub open spec fn finish(s: LoopView, result: Result<(), FailureView>) -> Outcome {
    ask(s, PhaseView::Stopped, RequestView::Finish(result))
}

/// Goes on to the folder after the one at `i`; once all have been tried at
/// least one has to be watched.
pub open spec fn register_next(s: LoopView, i: int) -> Outcome {
    if i + 1 < s.dirs.len() {
        ask(s, PhaseView::Registering(i + 1), RequestView::Watch(s.dirs[i + 1]))
    } else if s.registered == 0 {
        finish(
            s,
            Err(failure::plain_failure("no watchable directories — see preceding warnings"@)),
        )
    } else {
        ask(s, PhaseView::Polling, RequestView::Poll)
    }
}

/// Whether the screenshot was pushed in the state `now` lately, at this path
/// or as a copy of the same name in another folder.
pub open spec fn already_pushed(
    memory: Map<Seq<Seq<u8>>, Fingerprint>,
    p: PathView,
    now: Option<Fingerprint>,
) -> bool {
    now matches Some(fp) && seen::known(memory, p.parts, fp)
}

/// What the loop does with an answer, given what it remembers.
pub open spec fn next(
    s: LoopView,
    memory: Map<Seq<Seq<u8>>, Fingerprint>,
    reply: ReplyView,
) -> Outcome {
    match (s.phase, reply) {
        (PhaseView::Creating, ReplyView::Created) => ask(
            s,
            PhaseView::Registering(0),
            RequestView::Watch(s.dirs[0]),
        ),
        (PhaseView::Creating, ReplyView::CreateFailed(cause)) => finish(
            s,
            Err(failure::caused_failure("failed to create file watcher"@, cause)),
        ),
        (PhaseView::Registering(i), ReplyView::Watched(ok)) => register_next(
            if ok {
                LoopView { registered: s.registered + 1, ..s }
            } else {
                s
            },
            i,
        ),
        (PhaseView::Polling, ReplyView::Events(events)) => proceed(
            LoopView { pending: events::announced(events, s.platform), ..s },
            None,
        ),
        (PhaseView::Polling, ReplyView::TimedOut) | (PhaseView::Polling, ReplyView::Errors) => wait(
            s,
            None,
        ),
        (PhaseView::Polling, ReplyView::BackendClosed) => finish(s, Ok(())),
        (PhaseView::CheckingStop, ReplyView::Stop(true)) => finish(s, Ok(())),
        (PhaseView::Fingerprinting(p), ReplyView::Fingerprint(fp)) => if already_pushed(
            memory,
            p,
            fp,
        ) {
            proceed(s, None)
        } else {
            ask(s, PhaseView::Pushing(p, fp), RequestView::Push(p))
        },
        (PhaseView::Pushing(p, _), ReplyView::Pushed) => proceed(s, Some(ReportView::Pushed(p))),
        (PhaseView::Pushing(p, _), ReplyView::PushFailed(e)) => proceed(
            s,
            Some(ReportView::Failed(p, e)),
        ),
        _ => ask(s, PhaseView::Polling, RequestView::Poll),
    }
}

/// Whether `after` is what the loop remembers after an answer, if it
/// remembered `before`: only a push that succeeded is remembered, and only
/// with the state that was read before it.
pub open spec fn memory_after(
    s: LoopView,
    before: Map<Seq<Seq<u8>>, Fingerprint>,
    reply: ReplyView,
    after: Map<Seq<Seq<u8>>, Fingerprint>,
) -> bool {
    match (s.phase, reply) {
        (PhaseView::Pushing(p, Some(fp)), ReplyView::Pushed) => seen::memorised(
            before,
            p.parts,
            fp,
            after,
        ),
        _ => after == before,
    }
}

fn begin(dirs: &Vec<FilePath>, platform: Platform, stoppable: bool) -> (r: Result<
    (WatchLoop, Request),
    Failure,
>)
    ensures
        (match r {
            Ok((l, request)) => {
                &&& dirs@.len() > 0
                &&& l@ == begun(dirs.deep_view(), platform, stoppable)
                &&& l.wf()
                &&& l.seen@ == Map::<Seq<Seq<u8>>, Fingerprint>::empty()
                &&& request@ == RequestView::Create
            },
            Err(e) => dirs@.len() == 0 && e@ == failure::plain_failure(
                "no directories to watch"@,
            ),
        }),
{
    if dirs.len() == 0 {
        return Err(Failure::plain("no directories to watch".to_owned()));
    }
    let l = WatchLoop {
        dirs: copy_paths(dirs),
        platform,
        stoppable,
        phase: Phase::Creating,
        registered: 0,
        pending: Vec::new(),
        seen: Seen::new(),
    };
    assert(l.pending.deep_view() =~= Seq::<PathView>::empty());
    Ok((l, Request::Create))
}

/// Begins a loop that nobody asks to stop.
pub fn run(dirs: &Vec<FilePath>, platform: Platform) -> (r: Result<(WatchLoop, Request), Failure>)
    ensures
        (match r {
            Ok((l, request)) => {
                &&& dirs@.len() > 0
                &&& l@ == begun(dirs.deep_view(), platform, false)
                &&& l.wf()
                &&& l.seen@ == Map::<Seq<Seq<u8>>, Fingerprint>::empty()
                &&& request@ == RequestView::Create
            },
            Err(e) => dirs@.len() == 0 && e@ == failure::plain_failure(
                "no directories to watch"@,
            ),
        }),
{
    begin(dirs, platform, false)
}

/// Begins a loop that ends when it is asked to.
pub fn run_until(dirs: &Vec<FilePath>, platform: Platform) -> (r: Result<
    (WatchLoop, Request),
    Failure,
>)
    ensures
        (match r {
            Ok((l, request)) => {
                &&& dirs@.len() > 0
                &&& l@ == begun(dirs.deep_view(), platform, true)
                &&& l.wf()
                &&& l.seen@ == Map::<Seq<Seq<u8>>, Fingerprint>::empty()
                &&& request@ == RequestView::Create
            },
            Err(e) => dirs@.len() == 0 && e@ == failure::plain_failure(
                "no directories to watch"@,
            ),
        }),
{
    begin(dirs, platform, true)
}

impl WatchLoop {
    /// Whether the loop is in order: see [`loop_sound`] and [`Seen::wf`].
    pub open spec fn wf(&self) -> bool {
        loop_sound(self@) && self.seen.wf()
    }

    fn wait(&mut self, report: Option<Report>) -> (r: (Option<Report>, Request))
        ensures
            wait(old(self)@, report.deep_view()) == (Outcome {
                state: final(self)@,
                report: r.0.deep_view(),
                request: r.1@,
            }),
            final(self).seen == old(self).seen,
    {
        if self.stoppable {
            self.phase = Phase::CheckingStop;
            (report, Request::CheckStop)
        } else {
            self.phase = Phase::Polling;
            (report, Request::Poll)
        }
    }

    fn proceed(&mut self, report: Option<Report>) -> (r: (Option<Report>, Request))
        ensures
            proceed(old(self)@, report.deep_view()) == (Outcome {
                state: final(self)@,
                report: r.0.deep_view(),
                request: r.1@,
            }),
            final(self).seen == old(self).seen,
    {
        if self.pending.len() == 0 {
            self.wait(report)
        } else {
            let ghost before = self.pending.deep_view();
            let p = self.pending.remove(0);
            assert(self.pending.deep_view() =~= before.drop_first());
            self.phase = Phase::Fingerprinting(p.duplicate());
            (report, Request::ReadFingerprint(p))
        }
    }

    fn register_next(&mut self, i: usize) -> (r: (Option<Report>, Request))
        requires
            i < old(self).dirs@.len(),
        ensures
            register_next(old(self)@, i as int) == (Outcome {
                state: final(self)@,
                report: r.0.deep_view(),
                request: r.1@,
            }),
            final(self).seen == old(self).seen,
    {
        let n: usize = self.dirs.len();
        if i + 1 < n {
            self.phase = Phase::Registering(i + 1);
            (None, Request::Watch(self.dirs[i + 1].duplicate()))
        } else if self.registered == 0 {
            self.phase = Phase::Stopped;
            (
                None,
                Request::Finish(
                    Err(
                        Failure::plain(
                            "no watchable directories — see preceding warnings".to_owned(),
                        ),
                    ),
                ),
            )
        } else {
            self.phase = Phase::Polling;
            (None, Request::Poll)
        }
    }

    /// Takes the answer to what was asked last; answers what to tell the sink
    /// and what to ask next.
    pub fn advance(&mut self, reply: Reply) -> (r: (Option<Report>, Request))
        requires
            old(self).wf(),
            answers(old(self)@.phase, reply@),
        ensures
            final(self).wf(),
            next(old(self)@, old(self).seen@, reply@) == (Outcome {
                state: final(self)@,
                report: r.0.deep_view(),
                request: r.1@,
            }),
            memory_after(old(self)@, old(self).seen@, reply@, final(self).seen@),
    {
        let mut phase = Phase::Stopped;
        std::mem::swap(&mut phase, &mut self.phase);
        match phase {
            Phase::Creating => match reply {
                Reply::CreateFailed(cause) => {
                    self.phase = Phase::Stopped;
                    (
                        None,
                        Request::Finish(
                            Err(
                                Failure::caused(
                                    "failed to create file watcher".to_owned(),
                                    cause,
                                ),
                            ),
                        ),
                    )
                },
                _ => {
                    self.phase = Phase::Registering(0);
                    (None, Request::Watch(self.dirs[0].duplicate()))
                },
            },
            Phase::Registering(i) => {
                let n: usize = self.dirs.len();
                assert(self.registered < n);
                if let Reply::Watched(true) = reply {
                    self.registered = self.registered + 1;
                }
                self.register_next(i)
            },
            Phase::Polling => match reply {
                Reply::Events(events) => {
                    self.pending = screenshots(&events, self.platform);
                    self.proceed(None)
                },
                Reply::BackendClosed => {
                    self.phase = Phase::Stopped;
                    (None, Request::Finish(Ok(())))
                },
                _ => self.wait(None),
            },
            Phase::CheckingStop => match reply {
                Reply::Stop(true) => {
                    self.phase = Phase::Stopped;
                    (None, Request::Finish(Ok(())))
                },
                _ => {
                    self.phase = Phase::Polling;
                    (None, Request::Poll)
                },
            },
            Phase::Fingerprinting(p) => match reply {
                Reply::Fingerprint(fp) => {
                    let known = match fp {
                        Some(now) => self.seen.knows(&p, now),
                        None => false,
                    };
                    if known {
                        self.proceed(None)
                    } else {
                        self.phase = Phase::Pushing(p.duplicate(), fp);
                        (None, Request::Push(p))
                    }
                },
                _ => unreached(),
            },
            Phase::Pushing(p, fp) => match reply {
                Reply::PushFailed(e) => self.proceed(Some(Report::Failed(p, e))),
                _ => {
                    if let Some(now) = fp {
                        self.seen.record(p.duplicate(), now);
                    }
                    self.proceed(Some(Report::Pushed(p)))
                },
            },
            Phase::Stopped => unreached(),
        }
    }
}

} // verus!
