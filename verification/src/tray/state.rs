//! The session behind the tray: what each event changes and what it asks for.
use crate::base_dirs::{BaseDirs, BaseDirsView};
use crate::cli;
use crate::config::{Config, ConfigView};
use crate::day;
use crate::day::day_of;
use crate::notify;
use crate::notify::{Toast, ToastView};
use crate::path;
use crate::path::{copy_paths, FilePath, PathView};
use crate::platform::Platform;
use crate::tray::labels;
use crate::tray::labels::{format_last_capture, format_pushes};
use crate::tray::menu::{MenuAction, MenuFacts, MenuInput};
use vstd::prelude::*;

verus! {

/// Pushes within this many nanoseconds of the first share one toast.
pub const TOAST_COALESCE: u64 = 1_500_000_000;

/// The line on the last capture is brought up to date this often, in seconds.
pub const TICK_SECONDS: u64 = 60;

/// The time of an event: `wall` in nanoseconds since the epoch, `steady` in
/// nanoseconds on a clock that never goes back.
#[derive(Clone, Copy, Debug)]
pub struct Clock {
    pub wall: u64,
    pub steady: u64,
}

/// The session.
#[derive(Debug)]
pub struct AppState {
    pub watch_dirs: Vec<FilePath>,
    pub config: Config,
    /// When the last screenshot reached the clipboard, in nanoseconds since the epoch.
    pub last_capture_at: Option<u64>,
    pub last_path: Option<FilePath>,
    pub pushes: usize,
    /// How many pushes the next toast is to tell of.
    pub toast_pending: usize,
    /// The path of the latest of them.
    pub toast_path: Option<FilePath>,
    /// When that toast is due, on the steady clock.
    pub toast_flush_at: Option<u64>,
    /// Whether the dialog for a further folder is open.
    pub picker_open: bool,
    pub dirs: BaseDirs,
    pub platform: Platform,
}

/// The contents of an [`AppState`].
#[verifier::ext_equal]
pub struct AppView {
    pub watch_dirs: Seq<PathView>,
    pub config: ConfigView,
    pub last_capture_at: Option<u64>,
    pub last_path: Option<PathView>,
    pub pushes: nat,
    pub toast_pending: nat,
    pub toast_path: Option<PathView>,
    pub toast_flush_at: Option<u64>,
    pub picker_open: bool,
    pub dirs: BaseDirsView,
    pub platform: Platform,
}

impl View for AppState {
    type V = AppView;

    open spec fn view(&self) -> AppView {
        AppView {
            watch_dirs: self.watch_dirs.deep_view(),
            config: self.config@,
            last_capture_at: self.last_capture_at,
            last_path: self.last_path.deep_view(),
            pushes: self.pushes as nat,
            toast_pending: self.toast_pending as nat,
            toast_path: self.toast_path.deep_view(),
            toast_flush_at: self.toast_flush_at,
            picker_open: self.picker_open,
            dirs: self.dirs@,
            platform: self.platform,
        }
    }
}

/// Something that happened.
#[derive(Debug)]
pub enum AppEvent {
    /// The event loop has started.
    Init,
    /// The time asked for with [`ControlFlow::WaitUntil`] has come.
    ResumeTimeReached,
    /// The icon was clicked.
    Tray,
    /// A menu item was clicked.
    Menu(MenuAction),
    /// A screenshot reached the clipboard.
    Pushed(FilePath),
    /// A screenshot did not reach the clipboard.
    Failed { path: FilePath, error: String },
    /// Time to bring the line on the last capture up to date.
    Tick,
    /// The dialog for a further folder closed, with a folder unless it was cancelled.
    PickedFolder(Option<FilePath>),
    /// Registering for autostart, or ending it, failed.
    AutostartFailed,
    /// The system has no place for the tray icon.
    TrayUnavailable,
}

/// The contents of an [`AppEvent`].
#[verifier::ext_equal]
pub enum EventView {
    Init,
    ResumeTimeReached,
    Tray,
    Menu(MenuAction),
    Pushed(PathView),
    Failed { path: PathView, error: Seq<char> },
    Tick,
    PickedFolder(Option<PathView>),
    AutostartFailed,
    TrayUnavailable,
}

impl View for AppEvent {
    type V = EventView;

    open spec fn view(&self) -> EventView {
        match *self {
            AppEvent::Init => EventView::Init,
            AppEvent::ResumeTimeReached => EventView::ResumeTimeReached,
            AppEvent::Tray => EventView::Tray,
            AppEvent::Menu(action) => EventView::Menu(action),
            AppEvent::Pushed(p) => EventView::Pushed(p@),
            AppEvent::Failed { path, error } => EventView::Failed { path: path@, error: error@ },
            AppEvent::Tick => EventView::Tick,
            AppEvent::PickedFolder(p) => EventView::PickedFolder(p.deep_view()),
            AppEvent::AutostartFailed => EventView::AutostartFailed,
            AppEvent::TrayUnavailable => EventView::TrayUnavailable,
        }
    }
}

/// Something to be done.
#[derive(Debug)]
pub enum Effect {
    /// Build the menu and the tray icon.
    BuildMenu,
    /// Build the menu and the tooltip anew.
    RebuildMenu,
    ShowToast(Toast),
    /// Change the line on the last capture.
    SetLastCapture(String),
    /// Change the lines that a push affects.
    RefreshStatus { last_capture: String, pushes: String, can_push_again: bool },
    SaveConfig(Config),
    /// Stop the watcher, if one runs, and wait for it.
    StopWatcher,
    SpawnWatcher(Vec<FilePath>),
    /// Watch without tray and toasts, as from the command line.
    RunHeadless(Vec<FilePath>),
    /// Open in the file manager.
    Open(FilePath),
    /// Ask the user for a folder, starting from this one.
    PickFolder(FilePath),
    /// Put this screenshot on the clipboard once more.
    Replay(FilePath),
    /// Turn autostart on or off, with the steps of
    /// [`autostart_steps`](crate::installer::autostart_steps).
    SetAutostart(bool),
    /// Set the check mark for autostart to what is registered.
    SyncAutostart,
}

/// The contents of an [`Effect`].
#[verifier::ext_equal]
pub enum EffectView {
    BuildMenu,
    RebuildMenu,
    ShowToast(ToastView),
    SetLastCapture(Seq<char>),
    RefreshStatus { last_capture: Seq<char>, pushes: Seq<char>, can_push_again: bool },
    SaveConfig(ConfigView),
    StopWatcher,
    SpawnWatcher(Seq<PathView>),
    RunHeadless(Seq<PathView>),
    Open(PathView),
    PickFolder(PathView),
    Replay(PathView),
    SetAutostart(bool),
    SyncAutostart,
}

impl DeepView for Effect {
    type V = EffectView;

    open spec fn deep_view(&self) -> EffectView {
        match *self {
            Effect::BuildMenu => EffectView::BuildMenu,
            Effect::RebuildMenu => EffectView::RebuildMenu,
            Effect::ShowToast(t) => EffectView::ShowToast(t@),
            Effect::SetLastCapture(s) => EffectView::SetLastCapture(s@),
            Effect::RefreshStatus { last_capture, pushes, can_push_again } =>
                EffectView::RefreshStatus {
                last_capture: last_capture@,
                pushes: pushes@,
                can_push_again,
            },
            Effect::SaveConfig(c) => EffectView::SaveConfig(c@),
            Effect::StopWatcher => EffectView::StopWatcher,
            Effect::SpawnWatcher(dirs) => EffectView::SpawnWatcher(dirs.deep_view()),
            Effect::RunHeadless(dirs) => EffectView::RunHeadless(dirs.deep_view()),
            Effect::Open(p) => EffectView::Open(p@),
            Effect::PickFolder(p) => EffectView::PickFolder(p@),
            Effect::Replay(p) => EffectView::Replay(p@),
            Effect::SetAutostart(b) => EffectView::SetAutostart(b),
            Effect::SyncAutostart => EffectView::SyncAutostart,
        }
    }
}

/// What the event loop does after an event.
#[derive(Clone, Copy, Debug, PartialEq, Eq, Structural)]
pub enum ControlFlow {
    /// Wait for the next event.
    Wait,
    /// Wait for the next event, at most until this time on the steady clock.
    WaitUntil(u64),
    Exit,
}

/// A session that has just begun.
pub open spec fn initial_state(
    watch_dirs: Seq<PathView>,
    config: ConfigView,
    dirs: BaseDirsView,
    platform: Platform,
) -> AppView {
    AppView {
        watch_dirs,
        config,
        last_capture_at: None,
        last_path: None,
        pushes: 0,
        toast_pending: 0,
        toast_path: None,
        toast_flush_at: None,
        picker_open: false,
        dirs,
        platform,
    }
}

/// `s` with the folders `watch_dirs`, in the session and in the settings.
pub open spec fn with_folders(s: AppView, watch_dirs: Seq<PathView>) -> AppView {
    AppView { watch_dirs, config: ConfigView { watch_dirs, ..s.config }, ..s }
}

/// What a change to the folders of `s` asks for: save them, watch them, show them.
pub open spec fn folder_effects(s: AppView) -> Seq<EffectView> {
    seq![EffectView::SaveConfig(s.config)] + restart_effects(s.watch_dirs)
        + seq![EffectView::RebuildMenu]
}

/// Stops the running watcher and starts one on `dirs`, if there are any.
pub open spec fn restart_effects(dirs: Seq<PathView>) -> Seq<EffectView> {
    if dirs.len() == 0 {
        seq![EffectView::StopWatcher]
    } else {
        seq![EffectView::StopWatcher, EffectView::SpawnWatcher(dirs)]
    }
}

/// The folder that the dialog for a further folder starts from.
pub open spec fn picker_start(dirs: BaseDirsView) -> PathView {
    match dirs.pictures {
        Some(p) => p,
        None => match dirs.home {
            Some(p) => p,
            None => path::current_dir(),
        },
    }
}

/// The session after the menu action `a`.
pub open spec fn menu_state(s: AppView, a: MenuAction) -> AppView {
    match a {
        MenuAction::RemoveAt(i) => if s.watch_dirs.len() > 1 && i < s.watch_dirs.len() {
            with_folders(s, s.watch_dirs.remove(i as int))
        } else {
            s
        },
        MenuAction::AddFolder => AppView { picker_open: true, ..s },
        MenuAction::NotifySuccess(checked) => AppView {
            config: ConfigView { notify_on_success: checked, ..s.config },
            ..s
        },
        MenuAction::NotifyError(checked) => AppView {
            config: ConfigView { notify_on_error: checked, ..s.config },
            ..s
        },
        _ => s,
    }
}

/// What the menu action `a` asks for in the session `s`.
pub open spec fn menu_effects(s: AppView, a: MenuAction, clock: Clock) -> Seq<EffectView> {
    match a {
        MenuAction::Quit => seq![EffectView::StopWatcher],
        MenuAction::OpenSingleFolder => if s.watch_dirs.len() > 0 {
            seq![EffectView::Open(s.watch_dirs[0])]
        } else {
            seq![]
        },
        MenuAction::OpenAt(i) => if i < s.watch_dirs.len() {
            seq![EffectView::Open(s.watch_dirs[i as int])]
        } else {
            seq![]
        },
        MenuAction::RemoveAt(i) => if s.watch_dirs.len() > 1 && i < s.watch_dirs.len() {
            folder_effects(menu_state(s, a))
        } else {
            seq![]
        },
        MenuAction::AddFolder => if s.picker_open {
            seq![]
        } else {
            seq![EffectView::PickFolder(picker_start(s.dirs))]
        },
        MenuAction::PushAgain => match s.last_path {
            Some(p) => seq![EffectView::Replay(p)],
            None => seq![],
        },
        MenuAction::OpenLog => match cli::log_file(
            s.dirs,
            s.platform,
            day::day_text(day::date_at(clock.wall)),
        ) {
            Some(p) => seq![EffectView::Open(p)],
            None => seq![],
        },
        MenuAction::StartAtLogin { checked } => seq![EffectView::SetAutostart(checked)],
        MenuAction::NotifySuccess(_) | MenuAction::NotifyError(_) => seq![
            EffectView::SaveConfig(menu_state(s, a).config),
        ],
        MenuAction::Unknown => seq![],
    }
}

/// Whether a toast is due at `steady`.
pub open spec fn toast_due(s: AppView, steady: u64) -> bool {
    s.toast_flush_at matches Some(deadline) && deadline <= steady
}

/// `s` with no toast waiting.
pub open spec fn without_toast(s: AppView) -> AppView {
    AppView { toast_pending: 0, toast_path: None, toast_flush_at: None, ..s }
}

/// The toast that tells of the waiting pushes, unless the user wants none.
pub open spec fn waiting_toast(s: AppView) -> Option<ToastView> {
    if !s.config.notify_on_success || s.toast_pending == 0 {
        None
    } else if s.toast_pending == 1 {
        match s.toast_path {
            Some(p) => Some(notify::single_toast(p)),
            None => None,
        }
    } else {
        Some(notify::burst_toast(s.toast_pending))
    }
}

/// `s` after the screenshot `p` reached the clipboard.
pub open spec fn pushed_state(s: AppView, p: PathView, clock: Clock) -> AppView {
    AppView {
        pushes: s.pushes + 1,
        last_capture_at: Some(clock.wall),
        last_path: Some(p),
        toast_pending: s.toast_pending + 1,
        toast_path: Some(p),
        toast_flush_at: match s.toast_flush_at {
            Some(deadline) => Some(deadline),
            None => Some((clock.steady + TOAST_COALESCE) as u64),
        },
        ..s
    }
}

/// The session after an event.
pub open spec fn next_state(s: AppView, e: EventView, clock: Clock) -> AppView {
    match e {
        EventView::ResumeTimeReached => if toast_due(s, clock.steady) {
            without_toast(s)
        } else {
            s
        },
        EventView::Menu(action) => menu_state(s, action),
        EventView::Pushed(p) => pushed_state(s, p, clock),
        EventView::PickedFolder(picked) => {
            let closed = AppView { picker_open: false, ..s };
            match picked {
                Some(p) => if path::has_path(s.watch_dirs, p) {
                    closed
                } else {
                    with_folders(closed, s.watch_dirs.push(p))
                },
                None => closed,
            }
        },
        _ => s,
    }
}

/// What an event asks for.
pub open spec fn effects_of(s: AppView, e: EventView, clock: Clock) -> Seq<EffectView> {
    match e {
        EventView::Init => seq![EffectView::BuildMenu],
        EventView::ResumeTimeReached => if toast_due(s, clock.steady) {
            match waiting_toast(s) {
                Some(toast) => seq![EffectView::ShowToast(toast)],
                None => seq![],
            }
        } else {
            seq![]
        },
        EventView::Tray => seq![],
        EventView::Menu(action) => menu_effects(s, action, clock),
        EventView::Pushed(p) => seq![
            EffectView::RefreshStatus {
                last_capture: labels::last_capture_text(Some(clock.wall), clock.wall),
                pushes: labels::pushes_text(s.pushes + 1),
                can_push_again: true,
            },
        ],
        EventView::Failed { path, error } => if s.config.notify_on_error {
            seq![EffectView::ShowToast(notify::error_toast(path, error))]
        } else {
            seq![]
        },
        EventView::Tick => seq![
            EffectView::SetLastCapture(labels::last_capture_text(s.last_capture_at, clock.wall)),
        ],
        EventView::PickedFolder(picked) => match picked {
            Some(p) => if path::has_path(s.watch_dirs, p) {
                seq![]
            } else {
                folder_effects(next_state(s, e, clock))
            },
            None => seq![],
        },
        EventView::AutostartFailed => seq![EffectView::SyncAutostart],
        EventView::TrayUnavailable => seq![
            EffectView::StopWatcher,
            EffectView::RunHeadless(s.watch_dirs),
        ],
    }
}

/// How the event loop goes on after an event in the session `s`.
pub open spec fn flow_of(s: AppView, e: EventView) -> ControlFlow {
    if e == EventView::Menu(MenuAction::Quit) || e == EventView::TrayUnavailable {
        ControlFlow::Exit
    } else {
        match s.toast_flush_at {
            Some(deadline) => ControlFlow::WaitUntil(deadline),
            None => ControlFlow::Wait,
        }
    }
}

/// Whether the counters and the clock have room for the event.
pub open spec fn has_room(s: AppView, e: EventView, clock: Clock) -> bool {
    e is Pushed ==> {
        &&& s.pushes < usize::MAX
        &&& s.toast_pending < usize::MAX
        &&& clock.steady + TOAST_COALESCE <= u64::MAX
    }
}

/// Begins a session on `initial_dirs`: the first thing to do is to watch them.
pub fn run(initial_dirs: Vec<FilePath>, config: Config, dirs: BaseDirs, platform: Platform) -> (r: (
    AppState,
    Vec<Effect>,
))
    ensures
        r.0@ == initial_state(initial_dirs.deep_view(), config@, dirs@, platform),
        r.1.deep_view() == seq![EffectView::SpawnWatcher(initial_dirs.deep_view())],
{
    let watched = copy_paths(&initial_dirs);
    let mut effects: Vec<Effect> = Vec::new();
    effects.push(Effect::SpawnWatcher(watched));
    assert(effects.deep_view() =~= seq![EffectView::SpawnWatcher(initial_dirs.deep_view())]);
    let state = AppState {
        watch_dirs: initial_dirs,
        config,
        last_capture_at: None,
        last_path: None,
        pushes: 0,
        toast_pending: 0,
        toast_path: None,
        toast_flush_at: None,
        picker_open: false,
        dirs,
        platform,
    };
    (state, effects)
}

fn none() -> (r: Vec<Effect>)
    ensures
        r.deep_view() == Seq::<EffectView>::empty(),
{
    let r: Vec<Effect> = Vec::new();
    assert(r.deep_view() =~= Seq::<EffectView>::empty());
    r
}

fn one(effect: Effect) -> (r: Vec<Effect>)
    ensures
        r.deep_view() == seq![effect.deep_view()],
{
    let mut r: Vec<Effect> = Vec::new();
    r.push(effect);
    assert(r.deep_view() =~= seq![effect.deep_view()]);
    r
}

impl AppState {
    /// What the menu needs to know of the session.
    pub fn menu_input(&self, starts_at_login: bool) -> (r: MenuInput)
        ensures
            r@ == (MenuFacts {
                watch_dirs: self@.watch_dirs,
                home: self@.dirs.home,
                last_capture_at: self@.last_capture_at,
                pushes: self@.pushes,
                can_push_again: self@.last_path is Some,
                starts_at_login,
                notify_on_success: self@.config.notify_on_success,
                notify_on_error: self@.config.notify_on_error,
            }),
    {
        MenuInput {
            watch_dirs: &self.watch_dirs,
            home: &self.dirs.home,
            last_capture_at: self.last_capture_at,
            pushes: self.pushes,
            can_push_again: self.last_path.is_some(),
            starts_at_login,
            notify_on_success: self.config.notify_on_success,
            notify_on_error: self.config.notify_on_error,
        }
    }

    /// Takes the folders of the session into the settings.
    pub fn persist_watch_dirs(&mut self) -> (r: Effect)
        ensures
            final(self)@ == with_folders(old(self)@, old(self)@.watch_dirs),
            r.deep_view() == EffectView::SaveConfig(final(self)@.config),
    {
        self.config.watch_dirs = copy_paths(&self.watch_dirs);
        Effect::SaveConfig(self.config.duplicate())
    }

    /// Saves, watches and shows the folders of the session.
    fn folders_changed(&mut self) -> (r: Vec<Effect>)
        ensures
            final(self)@ == with_folders(old(self)@, old(self)@.watch_dirs),
            r.deep_view() == folder_effects(final(self)@),
    {
        let mut effects: Vec<Effect> = Vec::new();
        let save = self.persist_watch_dirs();
        effects.push(save);
        effects.push(Effect::StopWatcher);
        if self.watch_dirs.len() > 0 {
            effects.push(Effect::SpawnWatcher(copy_paths(&self.watch_dirs)));
        }
        effects.push(Effect::RebuildMenu);
        assert(effects.deep_view() =~= folder_effects(self@));
        effects
    }

    /// Takes back the waiting toast if it is due, and answers what to show.
    pub fn maybe_flush_toast(&mut self, steady: u64) -> (r: Option<Toast>)
        ensures
            final(self)@ == (if toast_due(old(self)@, steady) {
                without_toast(old(self)@)
            } else {
                old(self)@
            }),
            r.deep_view() == (if toast_due(old(self)@, steady) {
                waiting_toast(old(self)@)
            } else {
                None
            }),
    {
        match self.toast_flush_at {
            Some(deadline) => {
                if steady < deadline {
                    return None;
                }
            },
            None => {
                return None;
            },
        }
        let count: usize = self.toast_pending;
        self.toast_pending = 0;
        self.toast_flush_at = None;
        let path = self.toast_path.take();
        if !self.config.notify_on_success || count == 0 {
            return None;
        }
        if count == 1 {
            match path {
                Some(p) => Some(notify::success_single(&p)),
                None => None,
            }
        } else {
            Some(notify::success_burst(count))
        }
    }

    /// Does what a click on the menu asks for.
    pub fn handle_menu_action(&mut self, action: MenuAction, clock: Clock) -> (r: Vec<Effect>)
        ensures
            final(self)@ == menu_state(old(self)@, action),
            r.deep_view() == menu_effects(old(self)@, action, clock),
    {
        match action {
            MenuAction::Quit => one(Effect::StopWatcher),
            MenuAction::OpenSingleFolder => if self.watch_dirs.len() > 0 {
                one(Effect::Open(self.watch_dirs[0].duplicate()))
            } else {
                none()
            },
            MenuAction::OpenAt(i) => if i < self.watch_dirs.len() {
                one(Effect::Open(self.watch_dirs[i].duplicate()))
            } else {
                none()
            },
            MenuAction::RemoveAt(i) => if self.watch_dirs.len() > 1 && i < self.watch_dirs.len() {
                let ghost before = self.watch_dirs.deep_view();
                self.watch_dirs.remove(i);
                assert(self.watch_dirs.deep_view() =~= before.remove(i as int));
                self.folders_changed()
            } else {
                none()
            },
            MenuAction::AddFolder => if self.picker_open {
                none()
            } else {
                self.picker_open = true;
                let start = match &self.dirs.pictures {
                    Some(p) => p.duplicate(),
                    None => match &self.dirs.home {
                        Some(p) => p.duplicate(),
                        None => FilePath::current(),
                    },
                };
                one(Effect::PickFolder(start))
            },
            MenuAction::PushAgain => match &self.last_path {
                Some(p) => one(Effect::Replay(p.duplicate())),
                None => none(),
            },
            MenuAction::OpenLog => match cli::log_path(
                &self.dirs,
                self.platform,
                day_of(clock.wall),
            ) {
                Some(p) => one(Effect::Open(p)),
                None => none(),
            },
            MenuAction::StartAtLogin { checked } => one(Effect::SetAutostart(checked)),
            MenuAction::NotifySuccess(checked) => {
                self.config.notify_on_success = checked;
                one(Effect::SaveConfig(self.config.duplicate()))
            },
            MenuAction::NotifyError(checked) => {
                self.config.notify_on_error = checked;
                one(Effect::SaveConfig(self.config.duplicate()))
            },
            MenuAction::Unknown => none(),
        }
    }

    /// Takes an event: changes the session and answers how the event loop goes
    /// on and what is to be done, in order.
    pub fn on_event(&mut self, event: AppEvent, clock: Clock) -> (r: (ControlFlow, Vec<Effect>))
        requires
            has_room(old(self)@, event@, clock),
        ensures
            final(self)@ == next_state(old(self)@, event@, clock),
            r.0 == flow_of(old(self)@, event@),
            r.1.deep_view() == effects_of(old(self)@, event@, clock),
    {
        let flow = match self.toast_flush_at {
            Some(deadline) => ControlFlow::WaitUntil(deadline),
            None => ControlFlow::Wait,
        };
        match event {
            AppEvent::Init => (flow, one(Effect::BuildMenu)),
            AppEvent::ResumeTimeReached => match self.maybe_flush_toast(clock.steady) {
                Some(toast) => (flow, one(Effect::ShowToast(toast))),
                None => (flow, none()),
            },
            AppEvent::Tray => (flow, none()),
            AppEvent::Menu(action) => {
                let effects = self.handle_menu_action(action, clock);
                match action {
                    MenuAction::Quit => (ControlFlow::Exit, effects),
                    _ => (flow, effects),
                }
            },
            AppEvent::Pushed(path) => {
                self.pushes = self.pushes + 1;
                self.last_capture_at = Some(clock.wall);
                self.last_path = Some(path.duplicate());
                self.toast_pending = self.toast_pending + 1;
                self.toast_path = Some(path);
                if self.toast_flush_at.is_none() {
                    self.toast_flush_at = Some(clock.steady + TOAST_COALESCE);
                }
                let refresh = Effect::RefreshStatus {
                    last_capture: format_last_capture(self.last_capture_at, clock.wall),
                    pushes: format_pushes(self.pushes),
                    can_push_again: self.last_path.is_some(),
                };
                (flow, one(refresh))
            },
            AppEvent::Failed { path, error } => if self.config.notify_on_error {
                (flow, one(Effect::ShowToast(notify::error(&path, error.as_str()))))
            } else {
                (flow, none())
            },
            AppEvent::Tick => (
                flow,
                one(Effect::SetLastCapture(format_last_capture(self.last_capture_at, clock.wall))),
            ),
            AppEvent::PickedFolder(picked) => {
                self.picker_open = false;
                match picked {
                    Some(p) => if path::contains(&self.watch_dirs, &p) {
                        (flow, none())
                    } else {
                        let ghost before = self.watch_dirs.deep_view();
                        self.watch_dirs.push(p);
                        assert(self.watch_dirs.deep_view() =~= before.push(p@));
                        (flow, self.folders_changed())
                    },
                    None => (flow, none()),
                }
            },
            AppEvent::AutostartFailed => (flow, one(Effect::SyncAutostart)),
            AppEvent::TrayUnavailable => {
                let mut effects: Vec<Effect> = Vec::new();
                effects.push(Effect::StopWatcher);
                effects.push(Effect::RunHeadless(copy_paths(&self.watch_dirs)));
                assert(effects.deep_view() =~= seq![
                    EffectView::StopWatcher,
                    EffectView::RunHeadless(self@.watch_dirs),
                ]);
                (ControlFlow::Exit, effects)
            },
        }
    }
}

} // verus!
