//! The tray menu: what stands in it, and what a click on an item asks for.
use crate::path::{FilePath, PathView};
use crate::tray::labels;
use crate::tray::labels::{abbreviate_path, format_last_capture, format_pushes, watching_header};
use vstd::prelude::*;
use vstd::string::*;

verus! {

/// What a menu item is for.
#[derive(Clone, Copy, Debug, PartialEq, Eq, Structural)]
pub enum Role {
    Watching,
    LastCapture,
    Pushes,
    OpenFolder,
    OpenAt(usize),
    RemoveAt(usize),
    AddFolder,
    PushAgain,
    OpenLog,
    StartAtLogin,
    NotifySuccess,
    NotifyError,
    Quit,
}

/// A menu line without lines below it.
#[derive(Debug)]
pub enum MenuLeaf {
    Item { role: Role, label: String, enabled: bool },
    Check { role: Role, label: String, enabled: bool, checked: bool },
    Separator,
}

/// The lines on one of several watched folders.
#[derive(Debug)]
pub struct FolderMenu {
    pub label: String,
    pub enabled: bool,
    pub children: Vec<MenuLeaf>,
}

/// A line of the menu.
#[derive(Debug)]
pub enum MenuEntry {
    Leaf(MenuLeaf),
    Folders { label: String, enabled: bool, folders: Vec<FolderMenu> },
}

/// The contents of a [`MenuLeaf`].
#[verifier::ext_equal]
pub enum LeafView {
    Item { role: Role, label: Seq<char>, enabled: bool },
    Check { role: Role, label: Seq<char>, enabled: bool, checked: bool },
    Separator,
}

/// The contents of a [`FolderMenu`].
#[verifier::ext_equal]
pub struct FolderMenuView {
    pub label: Seq<char>,
    pub enabled: bool,
    pub children: Seq<LeafView>,
}

/// The contents of a [`MenuEntry`].
#[verifier::ext_equal]
pub enum EntryView {
    Leaf(LeafView),
    Folders { label: Seq<char>, enabled: bool, folders: Seq<FolderMenuView> },
}

impl DeepView for MenuLeaf {
    type V = LeafView;

    open spec fn deep_view(&self) -> LeafView {
        match *self {
            MenuLeaf::Item { role, label, enabled } => LeafView::Item {
                role,
                label: label@,
                enabled,
            },
            MenuLeaf::Check { role, label, enabled, checked } => LeafView::Check {
                role,
                label: label@,
                enabled,
                checked,
            },
            MenuLeaf::Separator => LeafView::Separator,
        }
    }
}

impl DeepView for FolderMenu {
    type V = FolderMenuView;

    open spec fn deep_view(&self) -> FolderMenuView {
        FolderMenuView {
            label: self.label@,
            enabled: self.enabled,
            children: self.children.deep_view(),
        }
    }
}

impl DeepView for MenuEntry {
    type V = EntryView;

    open spec fn deep_view(&self) -> EntryView {
        match *self {
            MenuEntry::Leaf(leaf) => EntryView::Leaf(leaf.deep_view()),
            MenuEntry::Folders { label, enabled, folders } => EntryView::Folders {
                label: label@,
                enabled,
                folders: folders.deep_view(),
            },
        }
    }
}

/// What the menu shows of a session.
#[verifier::ext_equal]
pub struct MenuFacts {
    pub watch_dirs: Seq<PathView>,
    pub home: Option<PathView>,
    pub last_capture_at: Option<u64>,
    pub pushes: nat,
    pub can_push_again: bool,
    pub starts_at_login: bool,
    pub notify_on_success: bool,
    pub notify_on_error: bool,
}

/// An item line.
pub open spec fn item_entry(role: Role, label: Seq<char>, enabled: bool) -> EntryView {
    EntryView::Leaf(LeafView::Item { role, label, enabled })
}

/// A line with a check mark.
pub open spec fn check_entry(role: Role, label: Seq<char>, checked: bool) -> EntryView {
    EntryView::Leaf(LeafView::Check { role, label, enabled: true, checked })
}

/// The lines on the folder `dirs[i]`: open it and, if it is not the only one, remove it.
pub open spec fn folder_menu(dirs: Seq<PathView>, i: int, home: Option<PathView>) -> FolderMenuView {
    FolderMenuView {
        label: labels::abbreviated(dirs[i], home),
        enabled: true,
        children: seq![
            LeafView::Item {
                role: Role::OpenAt(i as usize),
                label: "Open in file manager"@,
                enabled: true,
            },
            LeafView::Separator,
            LeafView::Item {
                role: Role::RemoveAt(i as usize),
                label: "Remove from watch list"@,
                enabled: dirs.len() > 1,
            },
        ],
    }
}

/// The line on the watched folders: one item for at most one folder, a submenu for several.
pub open spec fn folders_entry(dirs: Seq<PathView>, home: Option<PathView>) -> EntryView {
    if dirs.len() <= 1 {
        item_entry(Role::OpenFolder, "Open watched folder"@, dirs.len() > 0)
    } else {
        EntryView::Folders {
            label: "Watched folders"@,
            enabled: true,
            folders: Seq::new(dirs.len(), |i: int| folder_menu(dirs, i, home)),
        }
    }
}

/// The whole menu at the time `now`.
pub open spec fn menu_of(facts: MenuFacts, now: u64) -> Seq<EntryView> {
    seq![
        item_entry(Role::Watching, labels::header_text(facts.watch_dirs, facts.home), false),
        item_entry(
            Role::LastCapture,
            labels::last_capture_text(facts.last_capture_at, now),
            false,
        ),
        item_entry(Role::Pushes, labels::pushes_text(facts.pushes), false),
        EntryView::Leaf(LeafView::Separator),
        folders_entry(facts.watch_dirs, facts.home),
        item_entry(Role::AddFolder, "Add watched folder…"@, true),
        item_entry(Role::PushAgain, "Push last screenshot again"@, facts.can_push_again),
        item_entry(Role::OpenLog, "Open log file"@, true),
        EntryView::Leaf(LeafView::Separator),
        check_entry(Role::StartAtLogin, "Start at login (next session)"@, facts.starts_at_login),
        check_entry(Role::NotifySuccess, "Notify on success"@, facts.notify_on_success),
        check_entry(Role::NotifyError, "Notify on error"@, facts.notify_on_error),
        EntryView::Leaf(LeafView::Separator),
        item_entry(Role::Quit, "Quit shotpaste"@, true),
    ]
}

fn item(role: Role, label: String, enabled: bool) -> (r: MenuEntry)
    ensures
        r.deep_view() == item_entry(role, label@, enabled),
{
    MenuEntry::Leaf(MenuLeaf::Item { role, label, enabled })
}

fn check(role: Role, label: &str, checked: bool) -> (r: MenuEntry)
    ensures
        r.deep_view() == check_entry(role, label@, checked),
{
    MenuEntry::Leaf(MenuLeaf::Check { role, label: label.to_owned(), enabled: true, checked })
}

/// The lines on each of `dirs`. Removing is offered only while another folder
/// remains, so that the last one cannot be removed.
pub fn build_folders_submenu(dirs: &Vec<FilePath>, home: &Option<FilePath>) -> (r: Vec<FolderMenu>)
    ensures
        r.deep_view() == Seq::new(
            dirs@.len(),
            |i: int| folder_menu(dirs.deep_view(), i, home.deep_view()),
        ),
{
    let allow_remove = dirs.len() > 1;
    let mut out: Vec<FolderMenu> = Vec::new();
    let mut i: usize = 0;
    while i < dirs.len()
        invariant
            0 <= i <= dirs@.len(),
            out@.len() == i,
            allow_remove == (dirs@.len() > 1),
            forall|j: int|
                0 <= j < i ==> (#[trigger] out@[j]).deep_view() == folder_menu(
                    dirs.deep_view(),
                    j,
                    home.deep_view(),
                ),
        decreases dirs@.len() - i,
    {
        let mut children: Vec<MenuLeaf> = Vec::new();
        children.push(
            MenuLeaf::Item {
                role: Role::OpenAt(i),
                label: "Open in file manager".to_owned(),
                enabled: true,
            },
        );
        children.push(MenuLeaf::Separator);
        children.push(
            MenuLeaf::Item {
                role: Role::RemoveAt(i),
                label: "Remove from watch list".to_owned(),
                enabled: allow_remove,
            },
        );
        let entry = FolderMenu { label: abbreviate_path(&dirs[i], home), enabled: true, children };
        assert(entry.deep_view() =~= folder_menu(dirs.deep_view(), i as int, home.deep_view()));
        out.push(entry);
        i += 1;
    }
    assert(out.deep_view() =~= Seq::new(
        dirs@.len(),
        |i: int| folder_menu(dirs.deep_view(), i, home.deep_view()),
    ));
    out
}

/// What the menu needs to know of a session.
#[derive(Debug)]
pub struct MenuInput<'a> {
    pub watch_dirs: &'a Vec<FilePath>,
    pub home: &'a Option<FilePath>,
    pub last_capture_at: Option<u64>,
    pub pushes: usize,
    pub can_push_again: bool,
    pub starts_at_login: bool,
    pub notify_on_success: bool,
    pub notify_on_error: bool,
}

impl<'a> View for MenuInput<'a> {
    type V = MenuFacts;

    open spec fn view(&self) -> MenuFacts {
        MenuFacts {
            watch_dirs: self.watch_dirs.deep_view(),
            home: self.home.deep_view(),
            last_capture_at: self.last_capture_at,
            pushes: self.pushes as nat,
            can_push_again: self.can_push_again,
            starts_at_login: self.starts_at_login,
            notify_on_success: self.notify_on_success,
            notify_on_error: self.notify_on_error,
        }
    }
}

/// The whole menu at the time `now`.
pub fn build_menu(input: &MenuInput, now: u64) -> (r: Vec<MenuEntry>)
    ensures
        r.deep_view() == menu_of(input@, now),
{
    let mut menu: Vec<MenuEntry> = Vec::new();
    menu.push(item(Role::Watching, watching_header(input.watch_dirs, input.home), false));
    menu.push(item(Role::LastCapture, format_last_capture(input.last_capture_at, now), false));
    menu.push(item(Role::Pushes, format_pushes(input.pushes), false));
    menu.push(MenuEntry::Leaf(MenuLeaf::Separator));
    if input.watch_dirs.len() <= 1 {
        menu.push(
            item(Role::OpenFolder, "Open watched folder".to_owned(), input.watch_dirs.len() > 0),
        );
    } else {
        menu.push(
            MenuEntry::Folders {
                label: "Watched folders".to_owned(),
                enabled: true,
                folders: build_folders_submenu(input.watch_dirs, input.home),
            },
        );
    }
    menu.push(item(Role::AddFolder, "Add watched folder…".to_owned(), true));
    menu.push(
        item(Role::PushAgain, "Push last screenshot again".to_owned(), input.can_push_again),
    );
    menu.push(item(Role::OpenLog, "Open log file".to_owned(), true));
    menu.push(MenuEntry::Leaf(MenuLeaf::Separator));
    menu.push(check(Role::StartAtLogin, "Start at login (next session)", input.starts_at_login));
    menu.push(check(Role::NotifySuccess, "Notify on success", input.notify_on_success));
    menu.push(check(Role::NotifyError, "Notify on error", input.notify_on_error));
    menu.push(MenuEntry::Leaf(MenuLeaf::Separator));
    menu.push(item(Role::Quit, "Quit shotpaste".to_owned(), true));
    assert(menu.deep_view() =~= menu_of(input@, now));
    menu
}

/// What a click asks for.
#[derive(Clone, Copy, Debug, PartialEq, Eq, Structural)]
pub enum MenuAction {
    Quit,
    OpenSingleFolder,
    OpenAt(usize),
    RemoveAt(usize),
    AddFolder,
    PushAgain,
    OpenLog,
    /// The check mark as the click left it.
    StartAtLogin { checked: bool },
    NotifySuccess(bool),
    NotifyError(bool),
    Unknown,
}

/// A check item: its id, and whether it is checked now.
#[derive(Debug)]
pub struct CheckItem {
    pub id: String,
    pub checked: bool,
}

/// The ids of the items that can be clicked.
#[derive(Debug)]
pub struct MenuItems {
    pub quit: String,
    /// Present while at most one folder is watched.
    pub open_folder: Option<String>,
    /// For each watched folder the ids of its open and its remove item, while
    /// several folders are watched.
    pub folder_actions: Vec<(String, String)>,
    pub add_folder: String,
    pub push_again: String,
    pub open_log: String,
    pub start_at_login: CheckItem,
    pub notify_success: CheckItem,
    pub notify_error: CheckItem,
}

/// The contents of [`MenuItems`].
#[verifier::ext_equal]
pub struct MenuItemsView {
    pub quit: Seq<char>,
    pub open_folder: Option<Seq<char>>,
    pub folder_actions: Seq<(Seq<char>, Seq<char>)>,
    pub add_folder: Seq<char>,
    pub push_again: Seq<char>,
    pub open_log: Seq<char>,
    pub start_at_login: (Seq<char>, bool),
    pub notify_success: (Seq<char>, bool),
    pub notify_error: (Seq<char>, bool),
}

impl View for MenuItems {
    type V = MenuItemsView;

    open spec fn view(&self) -> MenuItemsView {
        MenuItemsView {
            quit: self.quit@,
            open_folder: self.open_folder.deep_view(),
            folder_actions: self.folder_actions.deep_view(),
            add_folder: self.add_folder@,
            push_again: self.push_again@,
            open_log: self.open_log@,
            start_at_login: (self.start_at_login.id@, self.start_at_login.checked),
            notify_success: (self.notify_success.id@, self.notify_success.checked),
            notify_error: (self.notify_error.id@, self.notify_error.checked),
        }
    }
}

/// What `id` asks for among the folder items from the one at `i` on.
pub open spec fn folder_action(
    id: Seq<char>,
    actions: Seq<(Seq<char>, Seq<char>)>,
    i: int,
) -> Option<MenuAction>
    decreases actions.len() - i,
{
    if i < 0 || i >= actions.len() {
        None
    } else if id == actions[i].0 {
        Some(MenuAction::OpenAt(i as usize))
    } else if id == actions[i].1 {
        Some(MenuAction::RemoveAt(i as usize))
    } else {
        folder_action(id, actions, i + 1)
    }
}

/// What a click on the item `id` asks for.
pub open spec fn classified(id: Seq<char>, items: MenuItemsView) -> MenuAction {
    if id == items.quit {
        MenuAction::Quit
    } else if items.open_folder == Some(id) {
        MenuAction::OpenSingleFolder
    } else {
        match folder_action(id, items.folder_actions, 0) {
            Some(action) => action,
            None => if id == items.add_folder {
                MenuAction::AddFolder
            } else if id == items.push_again {
                MenuAction::PushAgain
            } else if id == items.open_log {
                MenuAction::OpenLog
            } else if id == items.start_at_login.0 {
                MenuAction::StartAtLogin { checked: items.start_at_login.1 }
            } else if id == items.notify_success.0 {
                MenuAction::NotifySuccess(items.notify_success.1)
            } else if id == items.notify_error.0 {
                MenuAction::NotifyError(items.notify_error.1)
            } else {
                MenuAction::Unknown
            },
        }
    }
}

/// What a click on the item `id` asks for.
pub fn classify_menu_event(id: &String, items: &MenuItems) -> (r: MenuAction)
    ensures
        r == classified(id@, items@),
{
    if *id == items.quit {
        return MenuAction::Quit;
    }
    if let Some(open) = &items.open_folder {
        if *id == *open {
            return MenuAction::OpenSingleFolder;
        }
    }
    let ghost actions = items@.folder_actions;
    let mut i: usize = 0;
    while i < items.folder_actions.len()
        invariant
            0 <= i <= items.folder_actions@.len(),
            actions == items.folder_actions.deep_view(),
            actions == items@.folder_actions,
            folder_action(id@, actions, 0) == folder_action(id@, actions, i as int),
            id@ != items@.quit,
            items@.open_folder != Some(id@),
        decreases items.folder_actions@.len() - i,
    {
        assert(actions[i as int].0 == items.folder_actions@[i as int].0@);
        assert(actions[i as int].1 == items.folder_actions@[i as int].1@);
        if *id == items.folder_actions[i].0 {
            return MenuAction::OpenAt(i);
        }
        if *id == items.folder_actions[i].1 {
            return MenuAction::RemoveAt(i);
        }
        i += 1;
    }
    if *id == items.add_folder {
        return MenuAction::AddFolder;
    }
    if *id == items.push_again {
        return MenuAction::PushAgain;
    }
    if *id == items.open_log {
        return MenuAction::OpenLog;
    }
    if *id == items.start_at_login.id {
        return MenuAction::StartAtLogin { checked: items.start_at_login.checked };
    }
    if *id == items.notify_success.id {
        return MenuAction::NotifySuccess(items.notify_success.checked);
    }
    if *id == items.notify_error.id {
        return MenuAction::NotifyError(items.notify_error.checked);
    }
    MenuAction::Unknown
}

/// What a click asks for while the menu may not be there yet.
pub fn menu_action(id: &String, items: &Option<MenuItems>) -> (r: MenuAction)
    ensures
        r == (match *items {
            Some(items) => classified(id@, items@),
            None => MenuAction::Unknown,
        }),
{
    match items {
        Some(items) => classify_menu_event(id, items),
        None => MenuAction::Unknown,
    }
}

/// The id of the item that stands for `action`, if the menu has one.
pub open spec fn id_of(action: MenuAction, items: MenuItemsView) -> Option<Seq<char>> {
    match action {
        MenuAction::Quit => Some(items.quit),
        MenuAction::OpenSingleFolder => items.open_folder,
        MenuAction::OpenAt(i) => if i < items.folder_actions.len() {
            Some(items.folder_actions[i as int].0)
        } else {
            None
        },
        MenuAction::RemoveAt(i) => if i < items.folder_actions.len() {
            Some(items.folder_actions[i as int].1)
        } else {
            None
        },
        MenuAction::AddFolder => Some(items.add_folder),
        MenuAction::PushAgain => Some(items.push_again),
        MenuAction::OpenLog => Some(items.open_log),
        MenuAction::StartAtLogin { checked } => if checked == items.start_at_login.1 {
            Some(items.start_at_login.0)
        } else {
            None
        },
        MenuAction::NotifySuccess(checked) => if checked == items.notify_success.1 {
            Some(items.notify_success.0)
        } else {
            None
        },
        MenuAction::NotifyError(checked) => if checked == items.notify_error.1 {
            Some(items.notify_error.0)
        } else {
            None
        },
        MenuAction::Unknown => None,
    }
}

/// Whether no two items share an id.
pub open spec fn distinct_ids(items: MenuItemsView) -> bool {
    forall|a: MenuAction, b: MenuAction|
        #![trigger id_of(a, items), id_of(b, items)]
        a != b && id_of(a, items) is Some ==> id_of(a, items) != id_of(b, items)
}

proof fn lemma_folder_action(id: Seq<char>, items: MenuItemsView, i: int)
    requires
        0 <= i,
        items.folder_actions.len() <= usize::MAX,
    ensures
        (match folder_action(id, items.folder_actions, i) {
            Some(action) => id_of(action, items) == Some(id) && (action is OpenAt
                || action is RemoveAt),
            None => forall|k: int|
                #![trigger items.folder_actions[k]]
                i <= k < items.folder_actions.len() ==> items.folder_actions[k].0 != id
                    && items.folder_actions[k].1 != id,
        }),
    decreases items.folder_actions.len() - i,
{
    if i < items.folder_actions.len() {
        lemma_folder_action(id, items, i + 1);
    }
}

/// In a menu whose items have different ids, a click on the item that stands
/// for an action asks for that action.
pub proof fn law_click_asks_for_its_item(action: MenuAction, items: MenuItemsView)
    requires
        distinct_ids(items),
        items.folder_actions.len() <= usize::MAX,
        id_of(action, items) is Some,
    ensures
        classified(id_of(action, items)->0, items) == action,
{
    let id = id_of(action, items)->0;
    let answer = classified(id, items);
    lemma_folder_action(id, items, 0);
    assert(id_of(answer, items) == Some(id)) by {
        if answer is Unknown {
            match action {
                MenuAction::OpenAt(i) => {
                    assert(items.folder_actions[i as int].0 == id);
                },
                MenuAction::RemoveAt(i) => {
                    assert(items.folder_actions[i as int].1 == id);
                },
                _ => {},
            }
        }
    }
}

/// An id that no item has asks for nothing.
pub proof fn law_unknown_id_asks_for_nothing(id: Seq<char>, items: MenuItemsView)
    requires
        items.folder_actions.len() <= usize::MAX,
        forall|action: MenuAction| id_of(action, items) != Some(id),
    ensures
        classified(id, items) is Unknown,
{
    lemma_folder_action(id, items, 0);
    assert(id_of(MenuAction::Quit, items) != Some(id));
    assert(id_of(MenuAction::OpenSingleFolder, items) != Some(id));
    assert(id_of(MenuAction::AddFolder, items) != Some(id));
    assert(id_of(MenuAction::PushAgain, items) != Some(id));
    assert(id_of(MenuAction::OpenLog, items) != Some(id));
    assert(id_of(MenuAction::StartAtLogin { checked: items.start_at_login.1 }, items) != Some(id));
    assert(id_of(MenuAction::NotifySuccess(items.notify_success.1), items) != Some(id));
    assert(id_of(MenuAction::NotifyError(items.notify_error.1), items) != Some(id));
}

/// The menu never offers to remove the only watched folder.
pub proof fn law_last_folder_cannot_be_removed(facts: MenuFacts, now: u64, e: int, f: int, c: int)
    requires
        0 <= e < menu_of(facts, now).len(),
        menu_of(facts, now)[e] is Folders,
        0 <= f < menu_of(facts, now)[e]->folders.len(),
        0 <= c < menu_of(facts, now)[e]->folders[f].children.len(),
    ensures
        facts.watch_dirs.len() > 1,
        menu_of(facts, now)[e]->folders.len() == facts.watch_dirs.len(),
        menu_of(facts, now)[e]->folders[f].children[c] matches LeafView::Item {
            role: Role::RemoveAt(i),
            enabled,
            ..
        } ==> (facts.watch_dirs.len() <= usize::MAX ==> i == f) && enabled,
{
}

/// The menu has fourteen entries: what is watched, the last capture and the
/// count of pushes, none of which can be clicked; the folders; what can be
/// done; what can be turned on and off, as it is now; and the way out.
pub proof fn law_menu_has_its_entries(facts: MenuFacts, now: u64)
    ensures
        ({
            let menu = menu_of(facts, now);
            let separator = EntryView::Leaf(LeafView::Separator);
            &&& menu.len() == 14
            &&& menu[0] == EntryView::Leaf(
                LeafView::Item {
                    role: Role::Watching,
                    label: labels::header_text(facts.watch_dirs, facts.home),
                    enabled: false,
                },
            )
            &&& menu[1] == EntryView::Leaf(
                LeafView::Item {
                    role: Role::LastCapture,
                    label: labels::last_capture_text(facts.last_capture_at, now),
                    enabled: false,
                },
            )
            &&& menu[2] == EntryView::Leaf(
                LeafView::Item {
                    role: Role::Pushes,
                    label: labels::pushes_text(facts.pushes),
                    enabled: false,
                },
            )
            &&& menu[3] == separator
            &&& menu[5] == EntryView::Leaf(
                LeafView::Item {
                    role: Role::AddFolder,
                    label: "Add watched folder…"@,
                    enabled: true,
                },
            )
            &&& menu[6] == EntryView::Leaf(
                LeafView::Item {
                    role: Role::PushAgain,
                    label: "Push last screenshot again"@,
                    enabled: facts.can_push_again,
                },
            )
            &&& menu[7] == EntryView::Leaf(
                LeafView::Item { role: Role::OpenLog, label: "Open log file"@, enabled: true },
            )
            &&& menu[8] == separator
            &&& menu[9] == EntryView::Leaf(
                LeafView::Check {
                    role: Role::StartAtLogin,
                    label: "Start at login (next session)"@,
                    enabled: true,
                    checked: facts.starts_at_login,
                },
            )
            &&& menu[10] == EntryView::Leaf(
                LeafView::Check {
                    role: Role::NotifySuccess,
                    label: "Notify on success"@,
                    enabled: true,
                    checked: facts.notify_on_success,
                },
            )
            &&& menu[11] == EntryView::Leaf(
                LeafView::Check {
                    role: Role::NotifyError,
                    label: "Notify on error"@,
                    enabled: true,
                    checked: facts.notify_on_error,
                },
            )
            &&& menu[12] == separator
            &&& menu[13] == EntryView::Leaf(
                LeafView::Item { role: Role::Quit, label: "Quit shotpaste"@, enabled: true },
            )
        }),
{
}

/// The fifth entry opens the only folder, if there is one; of several folders
/// each has a menu of its own under its name, in order, to open it or to
/// remove it.
pub proof fn law_menu_leads_to_each_folder(facts: MenuFacts, now: u64, i: int)
    requires
        0 <= i < facts.watch_dirs.len() <= usize::MAX,
    ensures
        ({
            let entry = menu_of(facts, now)[4];
            let n = facts.watch_dirs.len();
            &&& n == 1 ==> entry == EntryView::Leaf(
                LeafView::Item {
                    role: Role::OpenFolder,
                    label: "Open watched folder"@,
                    enabled: true,
                },
            )
            &&& n > 1 ==> {
                &&& entry matches EntryView::Folders { label, enabled, folders }
                &&& label == "Watched folders"@
                &&& enabled
                &&& folders.len() == n
                &&& folders[i].label == labels::abbreviated(facts.watch_dirs[i], facts.home)
                &&& folders[i].enabled
                &&& folders[i].children == seq![
                    LeafView::Item {
                        role: Role::OpenAt(i as usize),
                        label: "Open in file manager"@,
                        enabled: true,
                    },
                    LeafView::Separator,
                    LeafView::Item {
                        role: Role::RemoveAt(i as usize),
                        label: "Remove from watch list"@,
                        enabled: true,
                    },
                ]
            }
        }),
{
}

/// Without a folder there is nothing to open.
pub proof fn law_nothing_to_open_without_a_folder(facts: MenuFacts, now: u64)
    requires
        facts.watch_dirs.len() == 0,
    ensures
        menu_of(facts, now)[4] == EntryView::Leaf(
            LeafView::Item {
                role: Role::OpenFolder,
                label: "Open watched folder"@,
                enabled: false,
            },
        ),
{
}

/// Each item of the menu stands for its action; an item that can be checked
/// stands for the state that it shows when it is clicked.
pub proof fn law_items_stand_for_actions(items: MenuItemsView, i: usize)
    ensures
        id_of(MenuAction::Quit, items) == Some(items.quit),
        id_of(MenuAction::OpenSingleFolder, items) == items.open_folder,
        i < items.folder_actions.len() ==> id_of(MenuAction::OpenAt(i), items) == Some(
            items.folder_actions[i as int].0,
        ) && id_of(MenuAction::RemoveAt(i), items) == Some(items.folder_actions[i as int].1),
        id_of(MenuAction::AddFolder, items) == Some(items.add_folder),
        id_of(MenuAction::PushAgain, items) == Some(items.push_again),
        id_of(MenuAction::OpenLog, items) == Some(items.open_log),
        id_of(MenuAction::StartAtLogin { checked: items.start_at_login.1 }, items) == Some(
            items.start_at_login.0,
        ),
        id_of(MenuAction::NotifySuccess(items.notify_success.1), items) == Some(
            items.notify_success.0,
        ),
        id_of(MenuAction::NotifyError(items.notify_error.1), items) == Some(items.notify_error.0),
{
}

/// A click asks for the first item with its id: the way out, the only folder,
/// the folders from the top, each to open before to remove, and then the rest
/// in the order of the menu.
pub proof fn law_click_asks_for_the_first_item_with_its_id(
    id: Seq<char>,
    items: MenuItemsView,
    i: usize,
)
    requires
        items.folder_actions.len() <= usize::MAX,
    ensures
        ({
            let asked = classified(id, items);
            let early = id == items.quit || items.open_folder == Some(id);
            let upper = exists|k: int|
                #![trigger items.folder_actions[k]]
                0 <= k < i && k < items.folder_actions.len() && (items.folder_actions[k].0 == id
                    || items.folder_actions[k].1 == id);
            let folder = exists|k: int|
                #![trigger items.folder_actions[k]]
                0 <= k < items.folder_actions.len() && (items.folder_actions[k].0 == id
                    || items.folder_actions[k].1 == id);
            &&& id == items.quit ==> asked == MenuAction::Quit
            &&& id != items.quit && items.open_folder == Some(id) ==> asked
                == MenuAction::OpenSingleFolder
            &&& !early && !upper && i < items.folder_actions.len() && id
                == items.folder_actions[i as int].0 ==> asked == MenuAction::OpenAt(i)
            &&& !early && !upper && i < items.folder_actions.len() && id
                != items.folder_actions[i as int].0 && id == items.folder_actions[i as int].1
                ==> asked == MenuAction::RemoveAt(i)
            &&& !early && !folder ==> {
                &&& id == items.add_folder ==> asked == MenuAction::AddFolder
                &&& id != items.add_folder ==> {
                    &&& id == items.push_again ==> asked == MenuAction::PushAgain
                    &&& id != items.push_again ==> {
                        &&& id == items.open_log ==> asked == MenuAction::OpenLog
                        &&& id != items.open_log ==> {
                            &&& id == items.start_at_login.0 ==> asked == (
                            MenuAction::StartAtLogin { checked: items.start_at_login.1 })
                            &&& id != items.start_at_login.0 ==> {
                                &&& id == items.notify_success.0 ==> asked
                                    == MenuAction::NotifySuccess(items.notify_success.1)
                                &&& id != items.notify_success.0 ==> {
                                    &&& id == items.notify_error.0 ==> asked
                                        == MenuAction::NotifyError(items.notify_error.1)
                                    &&& id != items.notify_error.0 ==> asked
                                        == MenuAction::Unknown
                                }
                            }
                        }
                    }
                }
            }
        }),
{
    lemma_folder_action(id, items, 0);
    if i < items.folder_actions.len() && !exists|k: int|
        #![trigger items.folder_actions[k]]
        0 <= k < i && k < items.folder_actions.len() && (items.folder_actions[k].0 == id
            || items.folder_actions[k].1 == id) {
        lemma_first_folder_action(id, items.folder_actions, 0, i as int);
    }
    if let Some(MenuAction::OpenAt(k)) = folder_action(id, items.folder_actions, 0) {
        assert(items.folder_actions[k as int].0 == id);
    }
    if let Some(MenuAction::RemoveAt(k)) = folder_action(id, items.folder_actions, 0) {
        assert(items.folder_actions[k as int].1 == id);
    }
}

proof fn lemma_first_folder_action(
    id: Seq<char>,
    actions: Seq<(Seq<char>, Seq<char>)>,
    from: int,
    to: int,
)
    requires
        0 <= from <= to,
        to < actions.len(),
        forall|k: int|
            #![trigger actions[k]]
            from <= k < to ==> actions[k].0 != id && actions[k].1 != id,
    ensures
        folder_action(id, actions, from) == folder_action(id, actions, to),
    decreases to - from,
{
    if from < to {
        lemma_first_folder_action(id, actions, from + 1, to);
    }
}

} // verus!
