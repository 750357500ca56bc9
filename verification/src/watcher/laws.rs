//! What holds of the watcher over any run of answers.
use crate::failure;
use crate::failure::FailureView;
use crate::path;
use crate::path::PathView;
use crate::platform::Platform;
use crate::watcher::events;
use crate::watcher::run;
use crate::watcher::run::{LoopView, Outcome, PhaseView, ReplyView, ReportView, RequestView};
use crate::watcher::seen;
use crate::watcher::seen::Fingerprint;
use vstd::prelude::*;

verus! {

/// No answer makes a sound loop unsound.
pub proof fn law_answers_keep_loop_sound(
    s: LoopView,
    memory: Map<Seq<Seq<u8>>, Fingerprint>,
    reply: ReplyView,
)
    requires
        run::loop_sound(s),
        run::answers(s.phase, reply),
    ensures
        run::loop_sound(run::next(s, memory, reply).state),
{
}

/// What the loop asks always has an answer that it waits for, until it has ended.
pub proof fn law_loop_waits_for_what_it_asked(
    s: LoopView,
    memory: Map<Seq<Seq<u8>>, Fingerprint>,
    reply: ReplyView,
)
    requires
        run::loop_sound(s),
        run::answers(s.phase, reply),
    ensures
        (match (run::next(s, memory, reply).request, run::next(s, memory, reply).state.phase) {
            (RequestView::Watch(p), PhaseView::Registering(i)) => 0 <= i < s.dirs.len() && p
                == s.dirs[i],
            (RequestView::Poll, PhaseView::Polling) => true,
            (RequestView::CheckStop, PhaseView::CheckingStop) => true,
            (RequestView::ReadFingerprint(p), PhaseView::Fingerprinting(q)) => p == q,
            (RequestView::Push(p), PhaseView::Pushing(q, _)) => p == q,
            (RequestView::Finish(_), PhaseView::Stopped) => true,
            _ => false,
        }),
{
}

/// A screenshot that was pushed is not pushed again while its file is
/// unchanged and remembered: the loop goes on to the next one and tells nothing.
pub proof fn law_same_screenshot_is_pushed_once(
    s: LoopView,
    p: PathView,
    fp: Fingerprint,
    before: Map<Seq<Seq<u8>>, Fingerprint>,
    after: Map<Seq<Seq<u8>>, Fingerprint>,
    later: LoopView,
    q: PathView,
)
    requires
        s.phase == PhaseView::Pushing(p, Some(fp)),
        run::memory_after(s, before, ReplyView::Pushed, after),
        later.phase == PhaseView::Fingerprinting(q),
        path::same_path(p, q),
    ensures
        run::next(later, after, ReplyView::Fingerprint(Some(fp))) == run::proceed(later, None),
        !(run::next(later, after, ReplyView::Fingerprint(Some(fp))).request is Push),
{
    assert(after.contains_key(p.parts));
}

/// The same screenshot in two watched folders is pushed once: after the one
/// was pushed, a file of the same name in another folder that was modified at
/// the same time and has the same size is skipped without a word.
pub proof fn law_copy_in_another_folder_is_not_pushed(
    s: LoopView,
    p: PathView,
    fp: Fingerprint,
    before: Map<Seq<Seq<u8>>, Fingerprint>,
    after: Map<Seq<Seq<u8>>, Fingerprint>,
    later: LoopView,
    q: PathView,
)
    requires
        s.phase == PhaseView::Pushing(p, Some(fp)),
        run::memory_after(s, before, ReplyView::Pushed, after),
        later.phase == PhaseView::Fingerprinting(q),
        path::named_by_last_part(p),
        path::named_by_last_part(q),
        p.name is Some,
        q.name == p.name,
    ensures
        run::next(later, after, ReplyView::Fingerprint(Some(fp))) == run::proceed(later, None),
        !(run::next(later, after, ReplyView::Fingerprint(Some(fp))).request is Push),
{
    assert(after.contains_key(p.parts));
    assert(path::same_last_part(p.parts, q.parts));
}

/// A file is pushed if its state cannot be read, or if no push is remembered
/// of it or of a file of the same name in this state.
pub proof fn law_other_screenshots_are_pushed(
    s: LoopView,
    p: PathView,
    fp: Option<Fingerprint>,
    memory: Map<Seq<Seq<u8>>, Fingerprint>,
)
    requires
        s.phase == PhaseView::Fingerprinting(p),
        fp matches Some(now) ==> forall|k: Seq<Seq<u8>>| #[trigger]
            memory.contains_key(k) && memory[k] == now ==> k != p.parts && !path::same_last_part(
                k,
                p.parts,
            ),
    ensures
        run::next(s, memory, ReplyView::Fingerprint(fp)).request == RequestView::Push(p),
{
}

/// A push that failed is not remembered: whenever the file is announced again
/// in the same state it is pushed, whatever the loop has done in between,
/// unless that was to push the file or a copy of it. `loops[i]` is where the
/// loop stands before the answer `replies[i]` and `memory[i]` what it
/// remembers then.
pub proof fn law_failed_push_is_tried_again(
    loops: Seq<LoopView>,
    replies: Seq<ReplyView>,
    memory: Seq<Map<Seq<Seq<u8>>, Fingerprint>>,
    p: PathView,
    fp: Option<Fingerprint>,
    later: LoopView,
)
    requires
        loops.len() > 0,
        replies.len() == loops.len(),
        memory.len() == loops.len() + 1,
        forall|i: int|
            #![trigger memory[i]]
            0 <= i < loops.len() ==> run::memory_after(
                loops[i],
                memory[i],
                replies[i],
                memory[i + 1],
            ),
        loops[0].phase == PhaseView::Pushing(p, fp),
        replies[0] is PushFailed,
        !run::already_pushed(memory[0], p, fp),
        forall|i: int|
            #![trigger loops[i]]
            0 < i < loops.len() && replies[i] is Pushed ==> (
            loops[i].phase matches PhaseView::Pushing(r, Some(now)) ==> fp != Some(now) || (
            !path::same_path(r, p) && !path::same_last_part(r.parts, p.parts))),
        later.phase == PhaseView::Fingerprinting(p),
    ensures
        run::next(later, memory[loops.len() as int], ReplyView::Fingerprint(fp)).request
            == RequestView::Push(p),
{
    lemma_not_remembered(loops, replies, memory, p, fp, loops.len() as int);
}

proof fn lemma_not_remembered(
    loops: Seq<LoopView>,
    replies: Seq<ReplyView>,
    memory: Seq<Map<Seq<Seq<u8>>, Fingerprint>>,
    p: PathView,
    fp: Option<Fingerprint>,
    upto: int,
)
    requires
        0 <= upto <= loops.len(),
        replies.len() == loops.len(),
        memory.len() == loops.len() + 1,
        forall|i: int|
            #![trigger memory[i]]
            0 <= i < loops.len() ==> run::memory_after(
                loops[i],
                memory[i],
                replies[i],
                memory[i + 1],
            ),
        loops.len() > 0 ==> replies[0] is PushFailed,
        !run::already_pushed(memory[0], p, fp),
        forall|i: int|
            #![trigger loops[i]]
            0 < i < loops.len() && replies[i] is Pushed ==> (
            loops[i].phase matches PhaseView::Pushing(r, Some(now)) ==> fp != Some(now) || (
            !path::same_path(r, p) && !path::same_last_part(r.parts, p.parts))),
    ensures
        !run::already_pushed(memory[upto], p, fp),
    decreases upto,
{
    if upto > 0 {
        let i = upto - 1;
        lemma_not_remembered(loops, replies, memory, p, fp, i);
        assert(run::memory_after(loops[i], memory[i], replies[i], memory[i + 1]));
        if memory[i + 1] != memory[i] && run::already_pushed(memory[i + 1], p, fp) {
            if let PhaseView::Pushing(r, Some(now)) = loops[i].phase {
                let before = memory[i];
                let after = memory[i + 1];
                assert(replies[i] is Pushed);
                let k = choose|k: Seq<Seq<u8>>| #[trigger]
                    after.contains_key(k) && after[k] == fp->0 && (k == p.parts
                        || path::same_last_part(k, p.parts));
                assert(k != r.parts);
                assert(before.contains_key(k) && before[k] == fp->0);
            }
        }
    }
}

/// Pushing one file never makes the loop skip another of a different name, nor
/// one of the same name in a different state: same-named files in different
/// folders are independent unless they are one screenshot.
pub proof fn law_paths_are_independent(
    p: PathView,
    fp: Fingerprint,
    before: Map<Seq<Seq<u8>>, Fingerprint>,
    after: Map<Seq<Seq<u8>>, Fingerprint>,
    q: PathView,
    now: Option<Fingerprint>,
)
    requires
        seen::memorised(before, p.parts, fp, after),
        !path::same_path(p, q),
        !path::same_last_part(p.parts, q.parts) || now != Some(fp),
        run::already_pushed(after, q, now),
    ensures
        run::already_pushed(before, q, now),
{
    let k = choose|k: Seq<Seq<u8>>| #[trigger]
        after.contains_key(k) && after[k] == now->0 && (k == q.parts || path::same_last_part(
            k,
            q.parts,
        ));
    assert(k != p.parts);
    assert(before.contains_key(k) && before[k] == now->0);
}

/// However often the system announces a file that was pushed, and whatever
/// the loop does in between, neither the file nor a copy of the same name is
/// pushed again while it is in the same state. `loops[i]` is where the loop
/// stands before the answer `replies[i]` and `memory[i]` what it remembers
/// then; pushes that fail, files that cannot be read and answers of any other
/// kind may come between. The memory has to have room for the paths that are
/// pushed meanwhile, or to hold them already.
pub proof fn law_refired_events_push_nothing(
    loops: Seq<LoopView>,
    replies: Seq<ReplyView>,
    memory: Seq<Map<Seq<Seq<u8>>, Fingerprint>>,
    p: PathView,
    fp: Fingerprint,
    later: LoopView,
    q: PathView,
)
    requires
        loops.len() > 0,
        replies.len() == loops.len(),
        memory.len() == loops.len() + 1,
        forall|i: int|
            #![trigger memory[i]]
            0 <= i < loops.len() ==> run::memory_after(
                loops[i],
                memory[i],
                replies[i],
                memory[i + 1],
            ),
        loops[0].phase == PhaseView::Pushing(p, Some(fp)),
        replies[0] is Pushed,
        forall|i: int|
            #![trigger loops[i]]
            0 < i < loops.len() && replies[i] is Pushed ==> (
            loops[i].phase matches PhaseView::Pushing(r, Some(now)) ==> {
                &&& path::same_path(p, r) ==> now == fp
                &&& memory[i].contains_key(r.parts) || memory[i].len() < seen::SEEN_CAP
            }),
        later.phase == PhaseView::Fingerprinting(q),
        path::same_path(p, q) || path::same_last_part(p.parts, q.parts),
    ensures
        run::next(later, memory[loops.len() as int], ReplyView::Fingerprint(Some(fp)))
            == run::proceed(later, None),
{
    lemma_kept_in_memory(loops, replies, memory, p, fp, loops.len() as int);
    assert(memory[loops.len() as int].contains_key(p.parts));
}

proof fn lemma_kept_in_memory(
    loops: Seq<LoopView>,
    replies: Seq<ReplyView>,
    memory: Seq<Map<Seq<Seq<u8>>, Fingerprint>>,
    p: PathView,
    fp: Fingerprint,
    upto: int,
)
    requires
        0 < upto <= loops.len(),
        replies.len() == loops.len(),
        memory.len() == loops.len() + 1,
        forall|i: int|
            #![trigger memory[i]]
            0 <= i < loops.len() ==> run::memory_after(
                loops[i],
                memory[i],
                replies[i],
                memory[i + 1],
            ),
        loops[0].phase == PhaseView::Pushing(p, Some(fp)),
        replies[0] is Pushed,
        forall|i: int|
            #![trigger loops[i]]
            0 < i < loops.len() && replies[i] is Pushed ==> (
            loops[i].phase matches PhaseView::Pushing(r, Some(now)) ==> {
                &&& path::same_path(p, r) ==> now == fp
                &&& memory[i].contains_key(r.parts) || memory[i].len() < seen::SEEN_CAP
            }),
    ensures
        memory[upto].contains_key(p.parts),
        memory[upto][p.parts] == fp,
    decreases upto,
{
    let i = upto - 1;
    assert(run::memory_after(loops[i], memory[i], replies[i], memory[i + 1]));
    if i > 0 {
        lemma_kept_in_memory(loops, replies, memory, p, fp, i);
    }
}

/// The memory never outgrows its limit.
pub proof fn law_memory_is_bounded(
    path: Seq<Seq<u8>>,
    fp: Fingerprint,
    before: Map<Seq<Seq<u8>>, Fingerprint>,
    after: Map<Seq<Seq<u8>>, Fingerprint>,
)
    requires
        before.dom().finite(),
        before.len() <= seen::SEEN_CAP,
        seen::memorised(before, path, fp, after),
    ensures
        after.dom().finite(),
        after.len() <= seen::SEEN_CAP,
        after.contains_key(path) && after[path] == fp,
{
    if !(before.contains_key(path) || before.len() < seen::SEEN_CAP) {
        let gone = choose|gone: Seq<Seq<u8>>| #[trigger]
            before.contains_key(gone) && after == before.remove(gone).insert(path, fp);
        assert(before.remove(gone).dom() =~= before.dom().remove(gone));
        assert(after.dom() =~= before.dom().remove(gone).insert(path));
    } else {
        assert(after.dom() =~= before.dom().insert(path));
        if before.contains_key(path) {
            assert(after.dom() =~= before.dom());
        }
    }
}

/// Each announced screenshot is looked at once, in order, and told of at most
/// once: it is skipped without a word, or pushed and told of as it went.
/// Either way the loop then goes on with those after it.
pub proof fn law_each_screenshot_is_handled_once(
    s: LoopView,
    p: PathView,
    fp: Option<Fingerprint>,
    memory: Map<Seq<Seq<u8>>, Fingerprint>,
    push: ReplyView,
)
    requires
        s.phase == PhaseView::Fingerprinting(p),
        push is Pushed || push is PushFailed,
    ensures
        ({
            let first = run::next(s, memory, ReplyView::Fingerprint(fp));
            if run::already_pushed(memory, p, fp) {
                first == run::proceed(s, None)
            } else {
                &&& first.request == RequestView::Push(p)
                &&& first.report is None
                &&& run::next(first.state, memory, push) == run::proceed(
                    first.state,
                    Some(
                        match push {
                            ReplyView::PushFailed(e) => ReportView::Failed(p, e),
                            _ => ReportView::Pushed(p),
                        },
                    ),
                )
                &&& first.state.pending == s.pending
            }
        }),
{
}

/// A request to stop ends the loop without a failure as soon as the loop has
/// dealt with what it was told last: after a time-out, after errors, and after
/// the last screenshot of a batch, also where a batch holds none.
pub proof fn law_loop_stops_when_asked(
    s: LoopView,
    memory: Map<Seq<Seq<u8>>, Fingerprint>,
    reply: ReplyView,
)
    requires
        s.stoppable,
        run::answers(s.phase, reply),
        ({
            ||| reply is TimedOut
            ||| reply is Errors
            ||| reply matches ReplyView::Events(batch) && events::announced(
                batch,
                s.platform,
            ).len() == 0
            ||| s.phase is Pushing && s.pending.len() == 0
        }),
    ensures
        ({
            let asked = run::next(s, memory, reply);
            &&& asked.request == RequestView::CheckStop
            &&& run::next(asked.state, memory, ReplyView::Stop(true)).request
                == RequestView::Finish(Ok(()))
            &&& run::next(asked.state, memory, ReplyView::Stop(false)).request
                == RequestView::Poll
        }),
{
}

/// A loop that can be asked to stop never waits for events twice without
/// looking in between whether it was asked: it waits only right after it has
/// looked in vain, or when its folders have just been tried.
pub proof fn law_loop_looks_before_it_waits(
    s: LoopView,
    memory: Map<Seq<Seq<u8>>, Fingerprint>,
    reply: ReplyView,
)
    requires
        s.stoppable,
        run::answers(s.phase, reply),
        run::next(s, memory, reply).request is Poll,
    ensures
        s.phase is Registering || (s.phase is CheckingStop && reply == ReplyView::Stop(false)),
{
}

/// Once it waits for events, a loop ends only when it is asked to stop or its
/// source of events is gone, and never with a failure; one that cannot be
/// asked ends only with its source.
pub proof fn law_loop_ends_for_a_reason(
    s: LoopView,
    memory: Map<Seq<Seq<u8>>, Fingerprint>,
    reply: ReplyView,
)
    requires
        run::answers(s.phase, reply),
        !(s.phase is Creating),
        !(s.phase is Registering),
    ensures
        run::next(s, memory, reply).request is Finish <==> reply is BackendClosed || reply
            == ReplyView::Stop(true),
        run::next(s, memory, reply).request matches RequestView::Finish(r) ==> r is Ok,
        !s.stoppable && reply is TimedOut ==> run::next(s, memory, reply).request is Poll,
        run::next(s, memory, reply).state.stoppable == s.stoppable,
{
}

/// The answer of the loop after the folders from `i` on were tried, with
/// `oks` telling which of them can be watched.
pub open spec fn after_trying(
    s: LoopView,
    i: int,
    memory: Map<Seq<Seq<u8>>, Fingerprint>,
    oks: Seq<bool>,
) -> Outcome
    decreases s.dirs.len() - i,
{
    let step = run::next(
        LoopView { phase: PhaseView::Registering(i), ..s },
        memory,
        ReplyView::Watched(oks[i]),
    );
    if i < 0 || i + 1 >= s.dirs.len() {
        step
    } else {
        after_trying(step.state, i + 1, memory, oks)
    }
}

proof fn lemma_after_trying(
    s: LoopView,
    i: int,
    memory: Map<Seq<Seq<u8>>, Fingerprint>,
    oks: Seq<bool>,
)
    requires
        0 <= i < s.dirs.len(),
        oks.len() == s.dirs.len(),
    ensures
        (if s.registered > 0 || exists|k: int| i <= k < oks.len() && #[trigger] oks[k] {
            after_trying(s, i, memory, oks).request == RequestView::Poll
        } else {
            after_trying(s, i, memory, oks).request == RequestView::Finish(
                Err(failure::plain_failure("no watchable directories — see preceding warnings"@)),
            )
        }),
    decreases s.dirs.len() - i,
{
    let step = run::next(
        LoopView { phase: PhaseView::Registering(i), ..s },
        memory,
        ReplyView::Watched(oks[i]),
    );
    if i + 1 < s.dirs.len() {
        lemma_after_trying(step.state, i + 1, memory, oks);
    }
    if exists|k: int| i <= k < oks.len() && #[trigger] oks[k] {
        let k = choose|k: int| i <= k < oks.len() && #[trigger] oks[k];
        if k > i {
            assert(i + 1 <= k < oks.len() && oks[k]);
        }
    }
}

/// A folder that cannot be watched is skipped: the loop goes on if at least
/// one folder can be watched, and fails if none can.
pub proof fn law_one_watchable_folder_is_enough(
    s: LoopView,
    memory: Map<Seq<Seq<u8>>, Fingerprint>,
    oks: Seq<bool>,
)
    requires
        run::loop_sound(s),
        s.phase == PhaseView::Registering(0),
        oks.len() == s.dirs.len(),
    ensures
        (exists|k: int| 0 <= k < oks.len() && #[trigger] oks[k]) ==> after_trying(
            s,
            0,
            memory,
            oks,
        ).request == RequestView::Poll,
        !(exists|k: int| 0 <= k < oks.len() && #[trigger] oks[k]) ==> after_trying(
            s,
            0,
            memory,
            oks,
        ).request == RequestView::Finish(
            Err(failure::plain_failure("no watchable directories — see preceding warnings"@)),
        ),
{
    lemma_after_trying(s, 0, memory, oks);
}

/// The folders are tried in turn: whether or not one can be watched, the loop
/// asks for the one that follows it, and counts those that can.
pub proof fn law_folders_are_tried_in_turn(
    s: LoopView,
    i: int,
    memory: Map<Seq<Seq<u8>>, Fingerprint>,
    ok: bool,
)
    requires
        s.phase == PhaseView::Registering(i),
        0 <= i,
        i + 1 < s.dirs.len(),
    ensures
        run::next(s, memory, ReplyView::Watched(ok)).request == RequestView::Watch(s.dirs[i + 1]),
        run::next(s, memory, ReplyView::Watched(ok)).report is None,
        run::next(s, memory, ReplyView::Watched(true)).state == (LoopView {
            phase: PhaseView::Registering(i + 1),
            registered: s.registered + 1,
            ..s
        }),
        run::next(s, memory, ReplyView::Watched(false)).state == (LoopView {
            phase: PhaseView::Registering(i + 1),
            ..s
        }),
{
}

/// Once the last folder was tried the loop waits for events if any of them is
/// watched; else it fails.
pub proof fn law_last_folder_decides(
    s: LoopView,
    i: int,
    memory: Map<Seq<Seq<u8>>, Fingerprint>,
)
    requires
        s.phase == PhaseView::Registering(i),
        i + 1 == s.dirs.len(),
    ensures
        run::next(s, memory, ReplyView::Watched(true)) == (Outcome {
            state: LoopView {
                phase: PhaseView::Polling,
                registered: s.registered + 1,
                ..s
            },
            report: None,
            request: RequestView::Poll,
        }),
        s.registered > 0 ==> run::next(s, memory, ReplyView::Watched(false)) == (Outcome {
            state: LoopView { phase: PhaseView::Polling, ..s },
            report: None,
            request: RequestView::Poll,
        }),
        s.registered == 0 ==> run::next(s, memory, ReplyView::Watched(false)) == (Outcome {
            state: LoopView { phase: PhaseView::Stopped, ..s },
            report: None,
            request: RequestView::Finish(
                Err(
                    FailureView {
                        context: "no watchable directories — see preceding warnings"@,
                        cause: None,
                    },
                ),
            ),
        }),
{
}

/// A loop begins by asking for a source of events, with no folder watched and
/// nothing to look at. With the source it asks for the first folder, without
/// it it fails.
pub proof fn law_loop_begins_with_the_first_folder(
    dirs: Seq<PathView>,
    platform: Platform,
    stoppable: bool,
    memory: Map<Seq<Seq<u8>>, Fingerprint>,
    cause: Seq<char>,
)
    requires
        dirs.len() > 0,
    ensures
        ({
            let s = run::begun(dirs, platform, stoppable);
            &&& s.dirs == dirs
            &&& s.platform == platform
            &&& s.stoppable == stoppable
            &&& s.phase is Creating
            &&& s.registered == 0
            &&& s.pending.len() == 0
            &&& run::next(s, memory, ReplyView::Created) == (Outcome {
                state: LoopView { phase: PhaseView::Registering(0), ..s },
                report: None,
                request: RequestView::Watch(dirs[0]),
            })
            &&& run::next(s, memory, ReplyView::CreateFailed(cause)) == (Outcome {
                state: LoopView { phase: PhaseView::Stopped, ..s },
                report: None,
                request: RequestView::Finish(
                    Err(
                        FailureView {
                            context: "failed to create file watcher"@,
                            cause: Some(cause),
                        },
                    ),
                ),
            })
        }),
{
}

/// A loop that has taken `replies` while it remembered `memory`, and all that
/// it has asked for on the way.
pub open spec fn loop_run(
    s: LoopView,
    memory: Map<Seq<Seq<u8>>, Fingerprint>,
    replies: Seq<ReplyView>,
) -> (LoopView, Seq<RequestView>)
    decreases replies.len(),
{
    if replies.len() == 0 {
        (s, Seq::empty())
    } else {
        let (before, asked) = loop_run(s, memory, replies.drop_last());
        let step = run::next(before, memory, replies.last());
        (step.state, asked.push(step.request))
    }
}

/// The answers to the first requests of a loop whose source of events could be
/// created, with `oks` telling which of its folders can be watched.
pub open spec fn registering(oks: Seq<bool>) -> Seq<ReplyView> {
    seq![ReplyView::Created] + oks.map_values(|ok: bool| ReplyView::Watched(ok))
}

proof fn lemma_registering(
    dirs: Seq<PathView>,
    platform: Platform,
    stoppable: bool,
    memory: Map<Seq<Seq<u8>>, Fingerprint>,
    oks: Seq<bool>,
)
    requires
        oks.len() < dirs.len(),
    ensures
        ({
            let (s, asked) = loop_run(
                run::begun(dirs, platform, stoppable),
                memory,
                registering(oks),
            );
            &&& s.dirs == dirs
            &&& s.phase == PhaseView::Registering(oks.len() as int)
            &&& s.registered > 0 <==> exists|k: int| 0 <= k < oks.len() && #[trigger] oks[k]
            &&& asked.len() == oks.len() + 1
            &&& forall|k: int|
                0 <= k <= oks.len() ==> #[trigger] asked[k] == RequestView::Watch(dirs[k])
        }),
    decreases oks.len(),
{
    reveal_with_fuel(loop_run, 2);
    let begun = run::begun(dirs, platform, stoppable);
    if oks.len() == 0 {
        assert(registering(oks) =~= seq![ReplyView::Created]);
        assert(registering(oks).drop_last() =~= Seq::empty());
    } else {
        let front = oks.drop_last();
        lemma_registering(dirs, platform, stoppable, memory, front);
        assert(registering(oks).drop_last() =~= registering(front));
        assert(registering(oks).last() == ReplyView::Watched(oks.last()));
        let (before, asked) = loop_run(begun, memory, registering(front));
        if before.registered > 0 {
            let k = choose|k: int| 0 <= k < front.len() && #[trigger] front[k];
            assert(oks[k]);
        }
        if exists|k: int| 0 <= k < oks.len() && #[trigger] oks[k] {
            let k = choose|k: int| 0 <= k < oks.len() && #[trigger] oks[k];
            if k < front.len() {
                assert(front[k]);
            }
        }
        if oks.last() {
            assert(oks[oks.len() - 1]);
        }
    }
}

/// Whichever folders can be watched, each of them is asked for once, in the
/// order of the list, before the loop waits for its first events or fails.
pub proof fn law_every_folder_is_tried_once(
    dirs: Seq<PathView>,
    platform: Platform,
    stoppable: bool,
    memory: Map<Seq<Seq<u8>>, Fingerprint>,
    oks: Seq<bool>,
)
    requires
        dirs.len() > 0,
        oks.len() == dirs.len(),
    ensures
        ({
            let asked = loop_run(
                run::begun(dirs, platform, stoppable),
                memory,
                registering(oks),
            ).1;
            let n = dirs.len() as int;
            &&& asked.len() == n + 1
            &&& forall|i: int| 0 <= i < n ==> #[trigger] asked[i] == RequestView::Watch(dirs[i])
            &&& (exists|k: int| 0 <= k < n && #[trigger] oks[k]) ==> asked[n] == RequestView::Poll
            &&& !(exists|k: int| 0 <= k < n && #[trigger] oks[k]) ==> asked[n]
                == RequestView::Finish(
                Err(
                    FailureView {
                        context: "no watchable directories — see preceding warnings"@,
                        cause: None,
                    },
                ),
            )
        }),
{
    let front = oks.drop_last();
    lemma_registering(dirs, platform, stoppable, memory, front);
    assert(registering(oks).drop_last() =~= registering(front));
    assert(registering(oks).last() == ReplyView::Watched(oks.last()));
    let begun = run::begun(dirs, platform, stoppable);
    let (before, asked) = loop_run(begun, memory, registering(front));
    if before.registered > 0 {
        let k = choose|k: int| 0 <= k < front.len() && #[trigger] front[k];
        assert(oks[k]);
    }
    if exists|k: int| 0 <= k < oks.len() && #[trigger] oks[k] {
        let k = choose|k: int| 0 <= k < oks.len() && #[trigger] oks[k];
        if k < front.len() {
            assert(front[k]);
        }
    }
    if oks.last() {
        assert(oks[oks.len() - 1]);
    }
}

/// Whatever the loop has dealt with, it goes on with the first screenshot that
/// is still to be looked at and keeps the others in order; with none left it
/// looks for a request to stop if there can be one, and waits if not. That
/// holds after a batch of events, which brings the screenshots that it
/// announces, after a time-out or errors, after a screenshot that was passed
/// over, and after a push, which alone is told, as it went.
pub proof fn law_loop_goes_on(
    s: LoopView,
    memory: Map<Seq<Seq<u8>>, Fingerprint>,
    reply: ReplyView,
    p: PathView,
    fp: Option<Fingerprint>,
    now: Fingerprint,
    k: Seq<Seq<u8>>,
)
    requires
        ({
            ||| s.phase is Polling && reply is Events
            ||| s.phase is Polling && (reply is TimedOut || reply is Errors) && s.pending.len() == 0
            ||| s.phase == PhaseView::Fingerprinting(p) && reply == ReplyView::Fingerprint(
                Some(now),
            ) && memory.contains_key(k) && memory[k] == now && (k == p.parts
                || path::same_last_part(k, p.parts))
            ||| s.phase == PhaseView::Pushing(p, fp) && (reply is Pushed || reply is PushFailed)
        }),
    ensures
        ({
            let o = run::next(s, memory, reply);
            let left = match reply {
                ReplyView::Events(batch) => events::announced(batch, s.platform),
                _ => s.pending,
            };
            &&& o.report == match reply {
                ReplyView::Pushed => Some(ReportView::Pushed(p)),
                ReplyView::PushFailed(e) => Some(ReportView::Failed(p, e)),
                _ => None,
            }
            &&& o.state == (LoopView { phase: o.state.phase, pending: o.state.pending, ..s })
            &&& left.len() > 0 ==> {
                &&& o.request == RequestView::ReadFingerprint(left[0])
                &&& o.state.phase == PhaseView::Fingerprinting(left[0])
                &&& seq![left[0]] + o.state.pending == left
            }
            &&& left.len() == 0 ==> o.state.pending.len() == 0
            &&& left.len() == 0 && s.stoppable ==> o.request == RequestView::CheckStop
                && o.state.phase is CheckingStop
            &&& left.len() == 0 && !s.stoppable ==> o.request == RequestView::Poll
                && o.state.phase is Polling
        }),
{
    let left = match reply {
        ReplyView::Events(batch) => events::announced(batch, s.platform),
        _ => s.pending,
    };
    if left.len() > 0 {
        assert(seq![left[0]] + left.drop_first() =~= left);
    }
}

/// The end of the source of events ends the loop.
pub proof fn law_loop_ends_with_its_source(s: LoopView, memory: Map<Seq<Seq<u8>>, Fingerprint>)
    requires
        s.phase is Polling,
    ensures
        run::next(s, memory, ReplyView::BackendClosed) == (Outcome {
            state: LoopView { phase: PhaseView::Stopped, ..s },
            report: None,
            request: RequestView::Finish(Ok(())),
        }),
{
}

/// A request to stop ends the loop, and without one it waits for events.
pub proof fn law_request_to_stop_decides(s: LoopView, memory: Map<Seq<Seq<u8>>, Fingerprint>)
    requires
        s.phase is CheckingStop,
    ensures
        run::next(s, memory, ReplyView::Stop(true)) == (Outcome {
            state: LoopView { phase: PhaseView::Stopped, ..s },
            report: None,
            request: RequestView::Finish(Ok(())),
        }),
        run::next(s, memory, ReplyView::Stop(false)) == (Outcome {
            state: LoopView { phase: PhaseView::Polling, ..s },
            report: None,
            request: RequestView::Poll,
        }),
{
}

/// A file that is not remembered in its state, neither under its path nor under
/// the same name elsewhere, is pushed, and so is one whose state cannot be read.
pub proof fn law_new_state_of_a_file_is_pushed(
    s: LoopView,
    p: PathView,
    memory: Map<Seq<Seq<u8>>, Fingerprint>,
    fp: Option<Fingerprint>,
)
    requires
        s.phase == PhaseView::Fingerprinting(p),
        forall|k: Seq<Seq<u8>>| #[trigger]
            memory.contains_key(k) && Some(memory[k]) == fp ==> k != p.parts && (k.len() == 0
                || p.parts.len() == 0 || k[k.len() - 1] != p.parts[p.parts.len() - 1]),
    ensures
        run::next(s, memory, ReplyView::Fingerprint(fp)) == (Outcome {
            state: LoopView { phase: PhaseView::Pushing(p, fp), ..s },
            report: None,
            request: RequestView::Push(p),
        }),
{
    if run::already_pushed(memory, p, fp) {
        let k = choose|k: Seq<Seq<u8>>| #[trigger]
            memory.contains_key(k) && memory[k] == fp->0 && (k == p.parts || path::same_last_part(
                k,
                p.parts,
            ));
        assert(memory.contains_key(k) && Some(memory[k]) == fp);
    }
}

/// A push that succeeded is remembered with the state that was read before it.
/// Every other path stays remembered as it was, but that a full memory of 256
/// paths loses one to a new path; and nothing else comes to be remembered.
pub proof fn law_successful_push_is_remembered(
    s: LoopView,
    p: PathView,
    fp: Fingerprint,
    before: Map<Seq<Seq<u8>>, Fingerprint>,
    after: Map<Seq<Seq<u8>>, Fingerprint>,
)
    requires
        s.phase == PhaseView::Pushing(p, Some(fp)),
        run::memory_after(s, before, ReplyView::Pushed, after),
    ensures
        after.contains_key(p.parts),
        after[p.parts] == fp,
        forall|k: Seq<Seq<u8>>| #[trigger]
            after.contains_key(k) && k != p.parts ==> before.contains_key(k) && after[k]
                == before[k],
        before.contains_key(p.parts) || before.len() < 256 ==> forall|k: Seq<Seq<u8>>| #[trigger]
            before.contains_key(k) ==> after.contains_key(k),
        forall|j: Seq<Seq<u8>>, k: Seq<Seq<u8>>|
            before.contains_key(j) && before.contains_key(k) && !#[trigger] after.contains_key(j)
                && !#[trigger] after.contains_key(k) ==> j == k,
{
}

/// Nothing but a successful push of a file whose state could be read changes
/// what is remembered.
pub proof fn law_only_successful_pushes_are_remembered(
    s: LoopView,
    reply: ReplyView,
    before: Map<Seq<Seq<u8>>, Fingerprint>,
    after: Map<Seq<Seq<u8>>, Fingerprint>,
)
    requires
        !(reply is Pushed) || !(s.phase matches PhaseView::Pushing(_, Some(_))),
    ensures
        run::memory_after(s, before, reply, after) <==> after == before,
{
}

} // verus!
