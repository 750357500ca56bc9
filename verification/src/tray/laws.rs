//! What holds of a session over any run of events.
use crate::base_dirs::BaseDirsView;
use crate::cli;
use crate::config::ConfigView;
use crate::day;
use crate::notify;
use crate::path;
use crate::path::PathView;
use crate::platform::Platform;
use crate::tray::labels;
use crate::tray::menu::MenuAction;
use crate::tray::state;
use crate::tray::state::{AppView, Clock, ControlFlow, EffectView, EventView, TOAST_COALESCE};
use vstd::prelude::*;
use vstd::utf8::*;

verus! {

/// What holds of a session at all times: a folder is watched, none is watched
/// twice, and a toast is due exactly while there are pushes to tell of.
pub open spec fn sound(s: AppView) -> bool {
    &&& s.watch_dirs.len() > 0
    &&& path::distinct_paths(s.watch_dirs)
    &&& (s.toast_pending > 0 <==> s.toast_flush_at is Some)
    &&& (s.toast_pending > 0 <==> s.toast_path is Some)
}

/// A session on one or more different folders begins sound.
pub proof fn law_session_begins_sound(
    watch_dirs: Seq<PathView>,
    config: ConfigView,
    dirs: BaseDirsView,
    platform: Platform,
)
    requires
        watch_dirs.len() > 0,
        path::distinct_paths(watch_dirs),
    ensures
        sound(state::initial_state(watch_dirs, config, dirs, platform)),
{
}

/// No event makes a sound session unsound. In particular the last watched
/// folder stays, and no folder comes to be watched twice.
pub proof fn law_events_keep_session_sound(s: AppView, e: EventView, clock: Clock)
    requires
        sound(s),
    ensures
        sound(state::next_state(s, e, clock)),
{
    let t = state::next_state(s, e, clock);
    assert forall|i: int, j: int| 0 <= i < j < t.watch_dirs.len() implies !path::same_path(
        #[trigger] t.watch_dirs[i],
        #[trigger] t.watch_dirs[j],
    ) by {
        match e {
            EventView::Menu(MenuAction::RemoveAt(k)) => {
                if s.watch_dirs.len() > 1 && k < s.watch_dirs.len() {
                    let i0 = if i < k { i } else { i + 1 };
                    let j0 = if j < k { j } else { j + 1 };
                    assert(t.watch_dirs[i] == s.watch_dirs[i0]);
                    assert(t.watch_dirs[j] == s.watch_dirs[j0]);
                }
            },
            EventView::PickedFolder(Some(p)) => {
                if !path::has_path(s.watch_dirs, p) && j == s.watch_dirs.len() {
                    assert(!path::same_path(s.watch_dirs[i], p));
                }
            },
            _ => {},
        }
    }
}

/// Whenever an event changes the watched folders, the settings to be saved
/// hold the new list, and the watcher is started on it.
pub proof fn law_changed_folders_are_saved_and_watched(s: AppView, e: EventView, clock: Clock)
    requires
        sound(s),
        state::next_state(s, e, clock).watch_dirs != s.watch_dirs,
    ensures
        state::next_state(s, e, clock).config.watch_dirs == state::next_state(
            s,
            e,
            clock,
        ).watch_dirs,
        state::effects_of(s, e, clock) == seq![
            EffectView::SaveConfig(state::next_state(s, e, clock).config),
            EffectView::StopWatcher,
            EffectView::SpawnWatcher(state::next_state(s, e, clock).watch_dirs),
            EffectView::RebuildMenu,
        ],
{
    law_events_keep_session_sound(s, e, clock);
    assert(state::effects_of(s, e, clock) =~= seq![
        EffectView::SaveConfig(state::next_state(s, e, clock).config),
        EffectView::StopWatcher,
        EffectView::SpawnWatcher(state::next_state(s, e, clock).watch_dirs),
        EffectView::RebuildMenu,
    ]);
}

/// The folders of the settings change only when the user changes the list:
/// folders that the command line named for this session are not saved by
/// turning a toast on or off.
pub proof fn law_saved_folders_change_only_with_the_list(
    s: AppView,
    e: EventView,
    clock: Clock,
    saved: ConfigView,
)
    requires
        state::effects_of(s, e, clock).contains(EffectView::SaveConfig(saved)),
        state::next_state(s, e, clock).watch_dirs == s.watch_dirs,
        sound(s),
    ensures
        saved == state::next_state(s, e, clock).config,
        saved.watch_dirs == s.config.watch_dirs,
{
    match e {
        EventView::Menu(MenuAction::RemoveAt(k)) => {
            if s.watch_dirs.len() > 1 && k < s.watch_dirs.len() {
                assert(s.watch_dirs.remove(k as int).len() == s.watch_dirs.len() - 1);
            }
        },
        EventView::PickedFolder(Some(p)) => {
            if !path::has_path(s.watch_dirs, p) {
                assert(s.watch_dirs.push(p).len() == s.watch_dirs.len() + 1);
            }
        },
        _ => {},
    }
}

/// Adding a folder and removing it again leaves the list as it was.
pub proof fn law_removing_undoes_adding(s: AppView, p: PathView, clock: Clock)
    requires
        sound(s),
        s.watch_dirs.len() < usize::MAX,
        !path::has_path(s.watch_dirs, p),
    ensures
        ({
            let added = state::next_state(s, EventView::PickedFolder(Some(p)), clock);
            let i = s.watch_dirs.len() as usize;
            &&& added.watch_dirs == s.watch_dirs.push(p)
            &&& state::next_state(
                added,
                EventView::Menu(MenuAction::RemoveAt(i)),
                clock,
            ).watch_dirs == s.watch_dirs
        }),
{
    assert(s.watch_dirs.push(p).remove(s.watch_dirs.len() as int) =~= s.watch_dirs);
}

/// Picking a folder that is watched already changes no folder and asks for nothing.
pub proof fn law_picking_a_watched_folder_does_nothing(s: AppView, p: PathView, clock: Clock)
    requires
        path::has_path(s.watch_dirs, p),
    ensures
        state::next_state(s, EventView::PickedFolder(Some(p)), clock) == (AppView {
            picker_open: false,
            ..s
        }),
        state::effects_of(s, EventView::PickedFolder(Some(p)), clock).len() == 0,
{
}

/// While the dialog for a further folder is open no event opens another, and
/// only its own end lets the next one open.
pub proof fn law_one_dialog_at_a_time(s: AppView, e: EventView, clock: Clock, start: PathView)
    requires
        s.picker_open,
    ensures
        !state::effects_of(s, e, clock).contains(EffectView::PickFolder(start)),
        !(e is PickedFolder) ==> state::next_state(s, e, clock).picker_open,
        e is PickedFolder ==> !state::next_state(s, e, clock).picker_open,
{
}

/// The event loop ends when the user quits or there is no tray, and then only:
/// the watcher is stopped first.
pub proof fn law_only_quitting_ends_the_session(s: AppView, e: EventView, clock: Clock)
    ensures
        state::flow_of(s, e) is Exit <==> e == EventView::Menu(MenuAction::Quit) || e
            == EventView::TrayUnavailable,
        e == EventView::Menu(MenuAction::Quit) ==> state::effects_of(s, e, clock) == seq![
            EffectView::StopWatcher,
        ],
{
}

/// Without a place for the icon the session goes over to watching the same
/// folders without tray and toasts: the watcher that reports to the session is
/// stopped, one that reports to the log takes its place, and the loop of
/// events ends.
pub proof fn law_without_a_tray_the_watcher_runs_headless(s: AppView, clock: Clock)
    ensures
        state::effects_of(s, EventView::TrayUnavailable, clock) == seq![
            EffectView::StopWatcher,
            EffectView::RunHeadless(s.watch_dirs),
        ],
        state::flow_of(s, EventView::TrayUnavailable) is Exit,
        state::next_state(s, EventView::TrayUnavailable, clock) == s,
{
}

/// After a push, pushing again puts the same screenshot on the clipboard.
pub proof fn law_push_again_repeats_the_last_push(s: AppView, p: PathView, clock: Clock, later: Clock)
    ensures
        state::effects_of(
            state::next_state(s, EventView::Pushed(p), clock),
            EventView::Menu(MenuAction::PushAgain),
            later,
        ) == seq![EffectView::Replay(p)],
{
}

/// A failed push is told at once, whatever else waits to be told, and
/// changes nothing; or not at all, if the user wants no such toasts.
pub proof fn law_errors_are_told_at_once(
    s: AppView,
    p: PathView,
    error: Seq<char>,
    clock: Clock,
)
    ensures
        state::next_state(s, EventView::Failed { path: p, error }, clock) == s,
        state::effects_of(s, EventView::Failed { path: p, error }, clock) == (
        if s.config.notify_on_error {
            seq![EffectView::ShowToast(notify::error_toast(p, error))]
        } else {
            Seq::empty()
        }),
{
}

/// A session after a run of pushes.
pub open spec fn after_pushes(s: AppView, pushes: Seq<(PathView, Clock)>) -> AppView
    decreases pushes.len(),
{
    if pushes.len() == 0 {
        s
    } else {
        state::next_state(
            after_pushes(s, pushes.drop_last()),
            EventView::Pushed(pushes.last().0),
            pushes.last().1,
        )
    }
}

proof fn lemma_after_pushes(s: AppView, pushes: Seq<(PathView, Clock)>)
    requires
        s.toast_pending == 0,
        s.toast_flush_at is None,
        pushes.len() > 0,
    ensures
        after_pushes(s, pushes) == (AppView {
            pushes: s.pushes + pushes.len(),
            last_capture_at: Some(pushes.last().1.wall),
            last_path: Some(pushes.last().0),
            toast_pending: pushes.len(),
            toast_path: Some(pushes.last().0),
            toast_flush_at: Some((pushes[0].1.steady + TOAST_COALESCE) as u64),
            ..s
        }),
    decreases pushes.len(),
{
    reveal_with_fuel(after_pushes, 2);
    if pushes.len() > 1 {
        lemma_after_pushes(s, pushes.drop_last());
        assert(pushes.drop_last()[0] == pushes[0]);
    }
}

/// A burst of pushes is told in one toast. It comes due one coalescing window
/// after the first push, however many follow; before that nothing is told,
/// from then on the next wake tells of all of them and nothing is left to tell.
pub proof fn law_burst_is_told_once(s: AppView, pushes: Seq<(PathView, Clock)>, now: Clock)
    requires
        s.toast_pending == 0,
        s.toast_flush_at is None,
        s.config.notify_on_success,
        pushes.len() > 0,
        pushes[0].1.steady + TOAST_COALESCE <= u64::MAX,
    ensures
        ({
            let t = after_pushes(s, pushes);
            let due = pushes[0].1.steady + TOAST_COALESCE;
            let toast = if pushes.len() == 1 {
                notify::single_toast(pushes[0].0)
            } else {
                notify::burst_toast(pushes.len())
            };
            &&& t.toast_pending == pushes.len()
            &&& state::flow_of(t, EventView::Tray) == ControlFlow::WaitUntil(due as u64)
            &&& now.steady < due ==> {
                &&& state::effects_of(t, EventView::ResumeTimeReached, now).len() == 0
                &&& state::next_state(t, EventView::ResumeTimeReached, now) == t
            }
            &&& now.steady >= due ==> {
                &&& state::effects_of(t, EventView::ResumeTimeReached, now) == seq![
                    EffectView::ShowToast(toast),
                ]
                &&& state::next_state(t, EventView::ResumeTimeReached, now).toast_pending == 0
                &&& state::next_state(t, EventView::ResumeTimeReached, now).toast_flush_at is None
            }
        }),
{
    lemma_after_pushes(s, pushes);
}

/// A push shows no toast by itself.
pub proof fn law_push_shows_no_toast(s: AppView, p: PathView, clock: Clock)
    ensures
        forall|i: int|
            0 <= i < state::effects_of(s, EventView::Pushed(p), clock).len() ==> !(
            #[trigger] state::effects_of(s, EventView::Pushed(p), clock)[i] is ShowToast),
{
}

proof fn lemma_encoding_is_no_shorter(s: Seq<char>)
    ensures
        encode_utf8(s).len() >= s.len(),
    decreases s.len(),
{
    if s.len() > 0 {
        lemma_encoding_is_no_shorter(s.drop_first());
        assert(encode_scalar(s[0] as u32).len() >= 1);
    }
}

/// The tray names a path in at most as many characters as the limit has bytes.
pub proof fn law_path_label_is_short(p: PathView, home: Option<PathView>)
    ensures
        labels::abbreviated(p, home).len() <= labels::LABEL_MAX_BYTES,
{
    let full = labels::collapsed(
        path::shown(p),
        match home {
            Some(h) => Some(path::shown(h)),
            None => None,
        },
    );
    lemma_encoding_is_no_shorter(full);
    reveal_strlit("…");
}

/// A click on the menu is dealt with as the menu action that it stands for.
pub proof fn law_clicks_are_menu_actions(s: AppView, a: MenuAction, clock: Clock)
    ensures
        state::next_state(s, EventView::Menu(a), clock) == state::menu_state(s, a),
        state::effects_of(s, EventView::Menu(a), clock) == state::menu_effects(s, a, clock),
{
}

/// Removing a folder that is not the only one takes that one out, whichever it
/// is, and no other: those before it stay where they are and those after it
/// move up by one. The new list is saved and watched.
pub proof fn law_removing_takes_out_that_folder(s: AppView, i: usize, clock: Clock)
    requires
        s.watch_dirs.len() > 1,
        i < s.watch_dirs.len(),
    ensures
        ({
            let t = state::menu_state(s, MenuAction::RemoveAt(i));
            let effects = state::menu_effects(s, MenuAction::RemoveAt(i), clock);
            &&& t.watch_dirs.len() == s.watch_dirs.len() - 1
            &&& forall|j: int|
                #![trigger s.watch_dirs[j]]
                0 <= j < i ==> t.watch_dirs[j] == s.watch_dirs[j]
            &&& forall|j: int|
                #![trigger s.watch_dirs[j]]
                i < j < s.watch_dirs.len() ==> t.watch_dirs[j - 1] == s.watch_dirs[j]
            &&& t == (AppView {
                watch_dirs: t.watch_dirs,
                config: ConfigView { watch_dirs: t.watch_dirs, ..s.config },
                ..s
            })
            &&& effects == seq![
                EffectView::SaveConfig(t.config),
                EffectView::StopWatcher,
                EffectView::SpawnWatcher(t.watch_dirs),
                EffectView::RebuildMenu,
            ]
        }),
{
    let t = state::menu_state(s, MenuAction::RemoveAt(i));
    assert(state::menu_effects(s, MenuAction::RemoveAt(i), clock) =~= seq![
        EffectView::SaveConfig(t.config),
        EffectView::StopWatcher,
        EffectView::SpawnWatcher(t.watch_dirs),
        EffectView::RebuildMenu,
    ]);
}

/// Of different folders, the one that is removed is no longer watched, and
/// every other still is.
pub proof fn law_removed_folder_is_no_longer_watched(s: AppView, i: usize, j: int, clock: Clock)
    requires
        s.watch_dirs.len() > 1,
        path::distinct_paths(s.watch_dirs),
        i < s.watch_dirs.len(),
        0 <= j < s.watch_dirs.len(),
    ensures
        path::has_path(
            state::next_state(s, EventView::Menu(MenuAction::RemoveAt(i)), clock).watch_dirs,
            s.watch_dirs[j],
        ) <==> j != i,
{
    let t = state::next_state(s, EventView::Menu(MenuAction::RemoveAt(i)), clock);
    law_removing_takes_out_that_folder(s, i, clock);
    if j < i {
        assert(path::same_path(t.watch_dirs[j], s.watch_dirs[j]));
    } else if j > i {
        assert(path::same_path(t.watch_dirs[j - 1], s.watch_dirs[j]));
    } else {
        assert forall|k: int| 0 <= k < t.watch_dirs.len() implies !path::same_path(
            #[trigger] t.watch_dirs[k],
            s.watch_dirs[j],
        ) by {
            if k < i {
                assert(t.watch_dirs[k] == s.watch_dirs[k]);
                assert(!path::same_path(s.watch_dirs[k], s.watch_dirs[j]));
            } else {
                assert(t.watch_dirs[k] == s.watch_dirs[k + 1]);
                assert(!path::same_path(s.watch_dirs[j], s.watch_dirs[k + 1]));
            }
        }
    }
}

/// The only folder stays, and so do all where there is none at the place.
pub proof fn law_only_folder_stays(s: AppView, i: usize, clock: Clock)
    requires
        s.watch_dirs.len() <= 1 || i >= s.watch_dirs.len(),
    ensures
        state::menu_state(s, MenuAction::RemoveAt(i)) == s,
        state::menu_effects(s, MenuAction::RemoveAt(i), clock).len() == 0,
{
}

/// A folder that is picked and not yet watched comes behind the others, in the
/// session and in the settings; the new list is saved and watched. A dialog
/// that was cancelled only closes.
pub proof fn law_picked_folder_comes_last(s: AppView, p: PathView, clock: Clock)
    requires
        forall|i: int| 0 <= i < s.watch_dirs.len() ==> (#[trigger] s.watch_dirs[i]).parts != p.parts,
    ensures
        ({
            let e = EventView::PickedFolder(Some(p));
            let t = state::next_state(s, e, clock);
            &&& t == (AppView {
                watch_dirs: s.watch_dirs.push(p),
                config: ConfigView { watch_dirs: s.watch_dirs.push(p), ..s.config },
                picker_open: false,
                ..s
            })
            &&& state::effects_of(s, e, clock) == seq![
                EffectView::SaveConfig(t.config),
                EffectView::StopWatcher,
                EffectView::SpawnWatcher(s.watch_dirs.push(p)),
                EffectView::RebuildMenu,
            ]
        }),
        state::next_state(s, EventView::PickedFolder(None), clock) == (AppView {
            picker_open: false,
            ..s
        }),
        state::effects_of(s, EventView::PickedFolder(None), clock).len() == 0,
{
    let e = EventView::PickedFolder(Some(p));
    let t = state::next_state(s, e, clock);
    assert(!path::has_path(s.watch_dirs, p));
    assert(state::effects_of(s, e, clock) =~= seq![
        EffectView::SaveConfig(t.config),
        EffectView::StopWatcher,
        EffectView::SpawnWatcher(s.watch_dirs.push(p)),
        EffectView::RebuildMenu,
    ]);
}

/// The dialog for a further folder opens unless it is open, in the pictures,
/// or at home where the system names none, or else where the program stands.
pub proof fn law_dialog_starts_at_the_pictures(s: AppView, p: PathView, clock: Clock)
    ensures
        state::menu_state(s, MenuAction::AddFolder) == (AppView { picker_open: true, ..s }),
        s.picker_open ==> state::menu_effects(s, MenuAction::AddFolder, clock).len() == 0,
        !s.picker_open && s.dirs.pictures == Some(p) ==> state::menu_effects(
            s,
            MenuAction::AddFolder,
            clock,
        ) == seq![EffectView::PickFolder(p)],
        !s.picker_open && s.dirs.pictures is None && s.dirs.home == Some(p) ==> state::menu_effects(
            s,
            MenuAction::AddFolder,
            clock,
        ) == seq![EffectView::PickFolder(p)],
        !s.picker_open && s.dirs.pictures is None && s.dirs.home is None ==> state::menu_effects(
            s,
            MenuAction::AddFolder,
            clock,
        ) == seq![EffectView::PickFolder(path::current_dir())],
{
}

/// The menu opens what it names: the only folder, the folder at a place, or
/// the log of the day; and nothing where there is no such thing. None of it
/// changes the session.
pub proof fn law_menu_opens_what_it_names(s: AppView, i: usize, clock: Clock)
    ensures
        state::menu_state(s, MenuAction::OpenSingleFolder) == s,
        state::menu_state(s, MenuAction::OpenAt(i)) == s,
        state::menu_state(s, MenuAction::OpenLog) == s,
        s.watch_dirs.len() > 0 ==> state::menu_effects(s, MenuAction::OpenSingleFolder, clock)
            == seq![EffectView::Open(s.watch_dirs[0])],
        s.watch_dirs.len() == 0 ==> state::menu_effects(
            s,
            MenuAction::OpenSingleFolder,
            clock,
        ).len() == 0,
        i < s.watch_dirs.len() ==> state::menu_effects(s, MenuAction::OpenAt(i), clock) == seq![
            EffectView::Open(s.watch_dirs[i as int]),
        ],
        i >= s.watch_dirs.len() ==> state::menu_effects(s, MenuAction::OpenAt(i), clock).len() == 0,
        ({
            let today = day::day_text(day::date_at(clock.wall));
            let effects = state::menu_effects(s, MenuAction::OpenLog, clock);
            &&& cli::log_file(s.dirs, s.platform, today) matches Some(p) ==> effects == seq![
                EffectView::Open(p),
            ]
            &&& cli::log_file(s.dirs, s.platform, today) is None ==> effects.len() == 0
        }),
{
}

/// A choice on toasts is kept and saved as it was made, and the other choice
/// and the rest of the session stay as they are.
pub proof fn law_choices_on_toasts_are_saved(s: AppView, checked: bool, clock: Clock)
    ensures
        state::menu_state(s, MenuAction::NotifySuccess(checked)) == (AppView {
            config: ConfigView { notify_on_success: checked, ..s.config },
            ..s
        }),
        state::menu_effects(s, MenuAction::NotifySuccess(checked), clock) == seq![
            EffectView::SaveConfig(ConfigView { notify_on_success: checked, ..s.config }),
        ],
        state::menu_state(s, MenuAction::NotifyError(checked)) == (AppView {
            config: ConfigView { notify_on_error: checked, ..s.config },
            ..s
        }),
        state::menu_effects(s, MenuAction::NotifyError(checked), clock) == seq![
            EffectView::SaveConfig(ConfigView { notify_on_error: checked, ..s.config }),
        ],
{
}

/// What asks for something outside the session asks for just that and changes
/// nothing: autostart as it was checked, the check mark put right after it
/// failed, the menu built at the start, the line on the last capture brought
/// up to date, the last screenshot pushed again. The rest asks for nothing.
pub proof fn law_other_events_change_nothing(s: AppView, checked: bool, clock: Clock)
    ensures
        state::menu_state(s, MenuAction::Quit) == s,
        state::menu_state(s, MenuAction::StartAtLogin { checked }) == s,
        state::menu_effects(s, MenuAction::StartAtLogin { checked }, clock) == seq![
            EffectView::SetAutostart(checked),
        ],
        state::menu_state(s, MenuAction::PushAgain) == s,
        s.last_path is None ==> state::menu_effects(s, MenuAction::PushAgain, clock).len() == 0,
        s.last_path matches Some(p) ==> state::menu_effects(s, MenuAction::PushAgain, clock)
            == seq![EffectView::Replay(p)],
        state::menu_state(s, MenuAction::Unknown) == s,
        state::menu_effects(s, MenuAction::Unknown, clock).len() == 0,
        state::next_state(s, EventView::Tray, clock) == s,
        state::effects_of(s, EventView::Tray, clock).len() == 0,
        state::next_state(s, EventView::AutostartFailed, clock) == s,
        state::effects_of(s, EventView::AutostartFailed, clock) == seq![EffectView::SyncAutostart],
        state::next_state(s, EventView::Init, clock) == s,
        state::effects_of(s, EventView::Init, clock) == seq![EffectView::BuildMenu],
        state::next_state(s, EventView::Tick, clock) == s,
        state::effects_of(s, EventView::Tick, clock) == seq![
            EffectView::SetLastCapture(labels::last_capture_text(s.last_capture_at, clock.wall)),
        ],
{
}

/// A push is counted, dated and kept as the last one, and joins the pushes
/// that wait to be told; the first of these sets the time, a second and a half
/// ahead. The lines that it affects are brought up to date.
pub proof fn law_push_is_counted(s: AppView, p: PathView, clock: Clock)
    requires
        clock.steady + 1_500_000_000 <= u64::MAX,
    ensures
        ({
            let t = state::next_state(s, EventView::Pushed(p), clock);
            &&& t.pushes == s.pushes + 1
            &&& t.last_capture_at == Some(clock.wall)
            &&& t.last_path == Some(p)
            &&& t.toast_pending == s.toast_pending + 1
            &&& t.toast_path == Some(p)
            &&& s.toast_flush_at is None ==> t.toast_flush_at == Some(
                (clock.steady + 1_500_000_000) as u64,
            )
            &&& s.toast_flush_at is Some ==> t.toast_flush_at == s.toast_flush_at
            &&& t == (AppView {
                pushes: t.pushes,
                last_capture_at: t.last_capture_at,
                last_path: t.last_path,
                toast_pending: t.toast_pending,
                toast_path: t.toast_path,
                toast_flush_at: t.toast_flush_at,
                ..s
            })
            &&& state::effects_of(s, EventView::Pushed(p), clock) == seq![
                EffectView::RefreshStatus {
                    last_capture: labels::last_capture_text(Some(clock.wall), clock.wall),
                    pushes: labels::pushes_text(s.pushes + 1),
                    can_push_again: true,
                },
            ]
        }),
{
}

/// Once the time has come the waiting pushes are told, a single one by its
/// name and several by their number, unless the user wants no such toasts; in
/// either case none waits any longer. Before that nothing happens.
pub proof fn law_waiting_pushes_are_told_in_time(s: AppView, clock: Clock, p: PathView)
    ensures
        ({
            let t = state::next_state(s, EventView::ResumeTimeReached, clock);
            let effects = state::effects_of(s, EventView::ResumeTimeReached, clock);
            let due = s.toast_flush_at matches Some(deadline) && deadline <= clock.steady;
            &&& !due ==> t == s && effects.len() == 0
            &&& due ==> t == (AppView {
                toast_pending: 0,
                toast_path: None,
                toast_flush_at: None,
                ..s
            })
            &&& due && (!s.config.notify_on_success || s.toast_pending == 0) ==> effects.len() == 0
            &&& due && s.config.notify_on_success && s.toast_pending == 1 && s.toast_path == Some(p)
                ==> effects == seq![EffectView::ShowToast(notify::single_toast(p))]
            &&& due && s.toast_pending == 1 && s.toast_path is None ==> effects.len() == 0
            &&& due && s.config.notify_on_success && s.toast_pending > 1 ==> effects == seq![
                EffectView::ShowToast(notify::burst_toast(s.toast_pending)),
            ]
        }),
{
}

/// While the session goes on, the event loop waits for the next event, and no
/// longer than until the waiting toast is due.
pub proof fn law_loop_waits_for_the_toast(s: AppView, e: EventView)
    requires
        e != EventView::Menu(MenuAction::Quit),
        e != EventView::TrayUnavailable,
    ensures
        s.toast_flush_at is None ==> state::flow_of(s, e) == ControlFlow::Wait,
        s.toast_flush_at matches Some(deadline) ==> state::flow_of(s, e) == ControlFlow::WaitUntil(
            deadline,
        ),
{
}

/// A session begins with the folders and settings it is given, and with
/// nothing captured and nothing to tell.
pub proof fn law_session_begins_with_what_it_is_given(
    watch_dirs: Seq<PathView>,
    config: ConfigView,
    dirs: BaseDirsView,
    platform: Platform,
)
    ensures
        ({
            let s = state::initial_state(watch_dirs, config, dirs, platform);
            &&& s.watch_dirs == watch_dirs
            &&& s.config == config
            &&& s.dirs == dirs
            &&& s.platform == platform
            &&& s.pushes == 0
            &&& s.last_capture_at is None
            &&& s.last_path is None
            &&& s.toast_pending == 0
            &&& s.toast_path is None
            &&& s.toast_flush_at is None
            &&& !s.picker_open
        }),
{
}

} // verus!
