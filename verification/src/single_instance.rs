//! One watcher per session.
//!
//! Two watchers would fight over the clipboard. On Windows a named mutex
//! tells them apart, elsewhere an exclusive lock on a file; both are given
//! back when the program ends.
use crate::base_dirs::{BaseDirs, BaseDirsView};
use crate::failure;
use crate::failure::{Failure, FailureView};
use crate::path;
use crate::path::{FilePath, PathView};
use crate::platform::Platform;
use crate::text;
use crate::text::decimal;
use vstd::pervasive::unreached;
use vstd::prelude::*;
use vstd::string::*;

verus! {

/// The name of the mutex. `Local\` confines it to the user's session.
pub const MUTEX_NAME: &'static str = "Local\\Shotpaste";

/// What is told when the mutex was there already.
pub const ALREADY_RUNNING: &'static str = "another shotpaste instance is already running in this session.\n  If this is unexpected, check Task Manager for `shotpaste.exe` or `wscript.exe` running the Scheduled Task.";

/// Where taking the lock stands: which answer it waits for.
#[derive(Debug)]
pub enum GuardPhase {
    CreatingFolder { folder: FilePath, file: FilePath },
    Opening(FilePath),
    Locking(FilePath),
    CreatingMutex,
    ClosingMutex,
    /// The lock is held.
    Held,
    /// The lock could not be had.
    Refused,
}

/// The contents of a [`GuardPhase`].
#[verifier::ext_equal]
pub enum GuardPhaseView {
    CreatingFolder { folder: PathView, file: PathView },
    Opening(PathView),
    Locking(PathView),
    CreatingMutex,
    ClosingMutex,
    Held,
    Refused,
}

impl View for GuardPhase {
    type V = GuardPhaseView;

    open spec fn view(&self) -> GuardPhaseView {
        match *self {
            GuardPhase::CreatingFolder { folder, file } => GuardPhaseView::CreatingFolder {
                folder: folder@,
                file: file@,
            },
            GuardPhase::Opening(p) => GuardPhaseView::Opening(p@),
            GuardPhase::Locking(p) => GuardPhaseView::Locking(p@),
            GuardPhase::CreatingMutex => GuardPhaseView::CreatingMutex,
            GuardPhase::ClosingMutex => GuardPhaseView::ClosingMutex,
            GuardPhase::Held => GuardPhaseView::Held,
            GuardPhase::Refused => GuardPhaseView::Refused,
        }
    }
}

/// What taking the lock asks of the system.
#[derive(Debug)]
pub enum LockRequest {
    CreateDir(FilePath),
    /// Open the file to read and write, creating it if need be and keeping what it holds.
    OpenFile(FilePath),
    /// Lock the file that was opened, without waiting.
    LockFile,
    CreateMutex(String),
    CloseMutex,
    /// The lock is held, or could not be had.
    Finish(Result<(), Failure>),
}

/// The contents of a [`LockRequest`].
#[verifier::ext_equal]
pub enum LockRequestView {
    CreateDir(PathView),
    OpenFile(PathView),
    LockFile,
    CreateMutex(Seq<char>),
    CloseMutex,
    Finish(Result<(), FailureView>),
}

impl View for LockRequest {
    type V = LockRequestView;

    open spec fn view(&self) -> LockRequestView {
        match *self {
            LockRequest::CreateDir(p) => LockRequestView::CreateDir(p@),
            LockRequest::OpenFile(p) => LockRequestView::OpenFile(p@),
            LockRequest::LockFile => LockRequestView::LockFile,
            LockRequest::CreateMutex(name) => LockRequestView::CreateMutex(name@),
            LockRequest::CloseMutex => LockRequestView::CloseMutex,
            LockRequest::Finish(Ok(())) => LockRequestView::Finish(Ok(())),
            LockRequest::Finish(Err(e)) => LockRequestView::Finish(Err(e@)),
        }
    }
}

/// What the system answers.
#[derive(Debug)]
pub enum LockReply {
    Done,
    /// The request failed, with the system's own words.
    Failed(String),
    /// There is a mutex; `already` says that it was there before.
    Mutex { already: bool },
    /// There is no mutex, with the system's code.
    NoMutex(u32),
}

/// The contents of a [`LockReply`].
#[verifier::ext_equal]
pub enum LockReplyView {
    Done,
    Failed(Seq<char>),
    Mutex { already: bool },
    NoMutex(u32),
}

impl View for LockReply {
    type V = LockReplyView;

    open spec fn view(&self) -> LockReplyView {
        match *self {
            LockReply::Done => LockReplyView::Done,
            LockReply::Failed(cause) => LockReplyView::Failed(cause@),
            LockReply::Mutex { already } => LockReplyView::Mutex { already },
            LockReply::NoMutex(code) => LockReplyView::NoMutex(code),
        }
    }
}

/// The lock, being taken or held.
#[derive(Debug)]
pub struct Guard {
    pub phase: GuardPhase,
}

/// The folder of the lock file.
pub open spec fn lock_folder(cache: PathView, platform: Platform) -> PathView {
    path::joined(cache, "shotpaste"@, platform)
}

/// The lock file.
pub open spec fn lock_file(cache: PathView, platform: Platform) -> PathView {
    path::joined(lock_folder(cache, platform), "shotpaste.lock"@, platform)
}

/// The lock file.
pub fn lock_path(dirs: &BaseDirs, platform: Platform) -> (r: Result<FilePath, Failure>)
    ensures
        (match (r, dirs@.cache) {
            (Ok(p), Some(cache)) => p@ == lock_file(cache, platform),
            (Err(e), None) => e@ == failure::plain_failure("could not resolve cache dir"@),
            _ => false,
        }),
{
    match &dirs.cache {
        Some(cache) => Ok(cache.join("shotpaste", platform).join("shotpaste.lock", platform)),
        None => Err(Failure::plain("could not resolve cache dir".to_owned())),
    }
}

/// How taking the lock begins, or why it cannot be taken.
pub open spec fn lock_begin(dirs: BaseDirsView, platform: Platform) -> Result<
    (GuardPhaseView, LockRequestView),
    FailureView,
> {
    if platform == Platform::Windows {
        Ok((GuardPhaseView::CreatingMutex, LockRequestView::CreateMutex(MUTEX_NAME@)))
    } else {
        match dirs.cache {
            Some(cache) => Ok(
                (
                    GuardPhaseView::CreatingFolder {
                        folder: lock_folder(cache, platform),
                        file: lock_file(cache, platform),
                    },
                    LockRequestView::CreateDir(lock_folder(cache, platform)),
                ),
            ),
            None => Err(failure::plain_failure("could not resolve cache dir"@)),
        }
    }
}

/// Whether `reply` answers what taking the lock waits for.
pub open spec fn lock_answers(phase: GuardPhaseView, reply: LockReplyView) -> bool {
    match phase {
        GuardPhaseView::CreatingMutex => reply is Mutex || reply is NoMutex,
        GuardPhaseView::ClosingMutex => reply is Done,
        GuardPhaseView::Held | GuardPhaseView::Refused => false,
        _ => reply is Done || reply is Failed,
    }
}

/// Ends with the lock not to be had.
pub open spec fn refused(f: FailureView) -> (GuardPhaseView, LockRequestView) {
    (GuardPhaseView::Refused, LockRequestView::Finish(Err(f)))
}

/// What taking the lock does with an answer.
pub open spec fn lock_next(phase: GuardPhaseView, reply: LockReplyView) -> (
    GuardPhaseView,
    LockRequestView,
) {
    match (phase, reply) {
        (GuardPhaseView::CreatingFolder { folder, file }, LockReplyView::Failed(cause)) => refused(
            failure::caused_failure("failed to create "@ + path::shown(folder), cause),
        ),
        (GuardPhaseView::CreatingFolder { folder, file }, _) => (
            GuardPhaseView::Opening(file),
            LockRequestView::OpenFile(file),
        ),
        (GuardPhaseView::Opening(file), LockReplyView::Failed(cause)) => refused(
            failure::caused_failure("failed to open lock file "@ + path::shown(file), cause),
        ),
        (GuardPhaseView::Opening(file), _) => (
            GuardPhaseView::Locking(file),
            LockRequestView::LockFile,
        ),
        (GuardPhaseView::Locking(file), LockReplyView::Failed(cause)) => refused(
            failure::plain_failure(
                "another shotpaste instance appears to be running (lock "@ + path::shown(file)
                    + " held: "@ + cause + ")"@,
            ),
        ),
        (GuardPhaseView::CreatingMutex, LockReplyView::NoMutex(code)) => refused(
            failure::plain_failure(
                "CreateMutexW failed (code "@ + text::decimal_text(code as nat) + ")"@,
            ),
        ),
        (GuardPhaseView::CreatingMutex, LockReplyView::Mutex { already: true }) => (
            GuardPhaseView::ClosingMutex,
            LockRequestView::CloseMutex,
        ),
        (GuardPhaseView::ClosingMutex, _) => refused(failure::plain_failure(ALREADY_RUNNING@)),
        _ => (GuardPhaseView::Held, LockRequestView::Finish(Ok(()))),
    }
}

/// Begins to take the lock.
pub fn acquire(dirs: &BaseDirs, platform: Platform) -> (r: Result<(Guard, LockRequest), Failure>)
    ensures
        (match (r, lock_begin(dirs@, platform)) {
            (Ok((guard, request)), Ok(expected)) => (guard.phase@, request@) == expected,
            (Err(e), Err(f)) => e@ == f,
            _ => false,
        }),
{
    Guard::acquire(dirs, platform)
}

impl Guard {
    /// Begins to take the lock.
    pub fn acquire(dirs: &BaseDirs, platform: Platform) -> (r: Result<
        (Guard, LockRequest),
        Failure,
    >)
        ensures
            (match (r, lock_begin(dirs@, platform)) {
                (Ok((guard, request)), Ok(expected)) => (guard.phase@, request@) == expected,
                (Err(e), Err(f)) => e@ == f,
                _ => false,
            }),
    {
        if let Platform::Windows = platform {
            return Ok(
                (
                    Guard { phase: GuardPhase::CreatingMutex },
                    LockRequest::CreateMutex(MUTEX_NAME.to_owned()),
                ),
            );
        }
        match &dirs.cache {
            Some(cache) => {
                let folder = cache.join("shotpaste", platform);
                let file = folder.join("shotpaste.lock", platform);
                let request = LockRequest::CreateDir(folder.duplicate());
                Ok((Guard { phase: GuardPhase::CreatingFolder { folder, file } }, request))
            },
            None => Err(Failure::plain("could not resolve cache dir".to_owned())),
        }
    }

    fn refuse(&mut self, f: Failure) -> (r: LockRequest)
        ensures
            (final(self).phase@, r@) == refused(f@),
    {
        self.phase = GuardPhase::Refused;
        LockRequest::Finish(Err(f))
    }

    /// Takes the answer to what was asked last; answers what to ask next.
    pub fn advance(&mut self, reply: LockReply) -> (r: LockRequest)
        requires
            lock_answers(old(self).phase@, reply@),
        ensures
            (final(self).phase@, r@) == lock_next(old(self).phase@, reply@),
    {
        let mut phase = GuardPhase::Refused;
        std::mem::swap(&mut phase, &mut self.phase);
        match phase {
            GuardPhase::CreatingFolder { folder, file } => match reply {
                LockReply::Failed(cause) => {
                    let context = "failed to create ".to_owned().concat(folder.display().as_str());
                    self.refuse(Failure::caused(context, cause))
                },
                _ => {
                    self.phase = GuardPhase::Opening(file.duplicate());
                    LockRequest::OpenFile(file)
                },
            },
            GuardPhase::Opening(file) => match reply {
                LockReply::Failed(cause) => {
                    let context = "failed to open lock file ".to_owned().concat(
                        file.display().as_str(),
                    );
                    self.refuse(Failure::caused(context, cause))
                },
                _ => {
                    self.phase = GuardPhase::Locking(file);
                    LockRequest::LockFile
                },
            },
            GuardPhase::Locking(file) => match reply {
                LockReply::Failed(cause) => {
                    let told =
                        "another shotpaste instance appears to be running (lock ".to_owned().concat(
                        file.display().as_str(),
                    ).concat(" held: ").concat(cause.as_str()).concat(")");
                    self.refuse(Failure::plain(told))
                },
                _ => {
                    self.phase = GuardPhase::Held;
                    LockRequest::Finish(Ok(()))
                },
            },
            GuardPhase::CreatingMutex => match reply {
                LockReply::NoMutex(code) => {
                    let told = "CreateMutexW failed (code ".to_owned().concat(
                        decimal(code as u64).as_str(),
                    ).concat(")");
                    self.refuse(Failure::plain(told))
                },
                LockReply::Mutex { already: true } => {
                    self.phase = GuardPhase::ClosingMutex;
                    LockRequest::CloseMutex
                },
                _ => {
                    self.phase = GuardPhase::Held;
                    LockRequest::Finish(Ok(()))
                },
            },
            GuardPhase::ClosingMutex => self.refuse(Failure::plain(ALREADY_RUNNING.to_owned())),
            GuardPhase::Held => unreached(),
            GuardPhase::Refused => unreached(),
        }
    }
}

/// The lock is held only once the system has granted it: the file is locked,
/// or the mutex is new.
pub proof fn law_held_lock_was_granted(phase: GuardPhaseView, reply: LockReplyView)
    requires
        lock_answers(phase, reply),
        lock_next(phase, reply).0 is Held || lock_next(phase, reply).1
            == LockRequestView::Finish(Ok(())),
    ensures
        lock_next(phase, reply).0 is Held,
        lock_next(phase, reply).1 == LockRequestView::Finish(Ok(())),
        (phase is Locking && reply is Done) || (phase is CreatingMutex && reply
            == LockReplyView::Mutex { already: false }),
{
}

/// A second instance is turned away: where the file is locked or the mutex was
/// there, the lock is not held, and a mutex of another instance is let go of.
pub proof fn law_second_instance_is_refused(file: PathView, cause: Seq<char>)
    ensures
        lock_next(GuardPhaseView::Locking(file), LockReplyView::Failed(cause)).0 is Refused,
        lock_next(GuardPhaseView::CreatingMutex, LockReplyView::Mutex { already: true }).1
            is CloseMutex,
        lock_next(
            lock_next(GuardPhaseView::CreatingMutex, LockReplyView::Mutex { already: true }).0,
            LockReplyView::Done,
        ) == refused(failure::plain_failure(ALREADY_RUNNING@)),
{
}

/// Every request that fails ends the attempt with a failure.
pub proof fn law_failed_request_refuses_the_lock(phase: GuardPhaseView, reply: LockReplyView)
    requires
        lock_answers(phase, reply),
        reply is Failed || reply is NoMutex,
    ensures
        lock_next(phase, reply).0 is Refused,
        lock_next(phase, reply).1 matches LockRequestView::Finish(Err(_)),
{
}

/// Where the system lets it, the lock is taken: on Windows with a mutex of
/// this name that was not there, elsewhere with the file `shotpaste.lock` in
/// the folder `shotpaste` of the cache, created, opened and locked.
pub proof fn law_lock_that_is_free_is_taken(
    dirs: BaseDirsView,
    cache: PathView,
    platform: Platform,
)
    requires
        dirs.cache == Some(cache),
    ensures
        lock_begin(dirs, Platform::Windows) == Ok::<
            (GuardPhaseView, LockRequestView),
            FailureView,
        >((GuardPhaseView::CreatingMutex, LockRequestView::CreateMutex("Local\\Shotpaste"@))),
        lock_next(GuardPhaseView::CreatingMutex, LockReplyView::Mutex { already: false }) == (
            GuardPhaseView::Held,
            LockRequestView::Finish(Ok(())),
        ),
        platform != Platform::Windows ==> {
            let folder = path::joined(cache, "shotpaste"@, platform);
            let file = path::joined(folder, "shotpaste.lock"@, platform);
            &&& lock_begin(dirs, platform) matches Ok(begun)
            &&& begun.1 == LockRequestView::CreateDir(folder)
            &&& lock_next(begun.0, LockReplyView::Done) == (
                GuardPhaseView::Opening(file),
                LockRequestView::OpenFile(file),
            )
            &&& lock_next(GuardPhaseView::Opening(file), LockReplyView::Done) == (
                GuardPhaseView::Locking(file),
                LockRequestView::LockFile,
            )
            &&& lock_next(GuardPhaseView::Locking(file), LockReplyView::Done) == (
                GuardPhaseView::Held,
                LockRequestView::Finish(Ok(())),
            )
        },
{
}

/// Why the lock cannot be had is told: which folder or file failed and how,
/// that another instance holds it, or that the system names no cache.
pub proof fn law_refused_lock_is_explained(
    folder: PathView,
    file: PathView,
    cause: Seq<char>,
    code: u32,
    dirs: BaseDirsView,
    platform: Platform,
)
    ensures
        lock_next(
            GuardPhaseView::CreatingFolder { folder, file },
            LockReplyView::Failed(cause),
        ).1 == LockRequestView::Finish(
            Err(
                FailureView {
                    context: "failed to create "@ + path::shown(folder),
                    cause: Some(cause),
                },
            ),
        ),
        lock_next(GuardPhaseView::Opening(file), LockReplyView::Failed(cause)).1
            == LockRequestView::Finish(
            Err(
                FailureView {
                    context: "failed to open lock file "@ + path::shown(file),
                    cause: Some(cause),
                },
            ),
        ),
        lock_next(GuardPhaseView::Locking(file), LockReplyView::Failed(cause)).1
            == LockRequestView::Finish(
            Err(
                FailureView {
                    context: "another shotpaste instance appears to be running (lock "@
                        + path::shown(file) + " held: "@ + cause + ")"@,
                    cause: None,
                },
            ),
        ),
        lock_next(GuardPhaseView::CreatingMutex, LockReplyView::NoMutex(code)).1
            == LockRequestView::Finish(
            Err(
                FailureView {
                    context: "CreateMutexW failed (code "@ + text::decimal_text(code as nat)
                        + ")"@,
                    cause: None,
                },
            ),
        ),
        lock_next(GuardPhaseView::ClosingMutex, LockReplyView::Done).1 == LockRequestView::Finish(
            Err(
                FailureView {
                    context: "another shotpaste instance is already running in this session.\n  If this is unexpected, check Task Manager for `shotpaste.exe` or `wscript.exe` running the Scheduled Task."@,
                    cause: None,
                },
            ),
        ),
        dirs.cache is None && platform != Platform::Windows ==> lock_begin(dirs, platform) == Err::<
            (GuardPhaseView, LockRequestView),
            FailureView,
        >(FailureView { context: "could not resolve cache dir"@, cause: None }),
{
}

} // verus!
