use image::{ImageFormat, Rgba, RgbaImage as Pixels};
use shotpaste::base_dirs::BaseDirs;
use shotpaste::config::Config;
use shotpaste::failure::Failure;
use shotpaste::images::RgbaImage;
use shotpaste::path::FilePath;
use shotpaste::platform::Platform;
use shotpaste::tray::icon::{
    choose_icon, icon_or_failure, load_icon_color, load_icon_template, open_failure,
    open_in_file_manager,
};
use shotpaste::tray::labels::{
    abbreviate_path, build_tooltip, format_last_capture, format_pushes, watching_header,
};
use shotpaste::tray::menu::{
    build_folders_submenu, build_menu, classify_menu_event, menu_action, CheckItem, MenuAction,
    MenuEntry, MenuItems, MenuLeaf, Role,
};
use shotpaste::tray::state::{run, AppEvent, AppState, Clock, ControlFlow, Effect};
use std::io::Cursor;

fn path(text: &str) -> FilePath {
    let mut parts: Vec<Vec<u8>> = Vec::new();
    if text.starts_with('/') {
        parts.push(b"/".to_vec());
    }
    for part in text.split('/') {
        if !part.is_empty() {
            parts.push(part.as_bytes().to_vec());
        }
    }
    let name = parts.last().cloned();
    FilePath { bytes: text.as_bytes().to_vec(), parts, name, wide: false }
}

fn dirs() -> BaseDirs {
    BaseDirs {
        home: Some(path("/home/me")),
        config: Some(path("/home/me/.config")),
        cache: Some(path("/home/me/.cache")),
        data_local: None,
        pictures: Some(path("/home/me/Pictures")),
        desktop: None,
    }
}

fn session(folders: &[&str]) -> AppState {
    let folders: Vec<FilePath> = folders.iter().map(|f| path(f)).collect();
    run(folders, Config::default(), dirs(), Platform::Linux).0
}

fn clock(seconds: u64) -> Clock {
    Clock { wall: seconds * 1_000_000_000, steady: seconds * 1_000_000_000 }
}

fn shown(effect: &Effect) -> String {
    let list = |paths: &Vec<FilePath>| {
        paths.iter().map(|p| p.display()).collect::<Vec<String>>().join(",")
    };
    match effect {
        Effect::BuildMenu => "build".to_string(),
        Effect::RebuildMenu => "rebuild".to_string(),
        Effect::ShowToast(toast) => format!("toast {} / {}", toast.title, toast.body),
        Effect::SetLastCapture(line) => line.clone(),
        Effect::RefreshStatus { last_capture, pushes, can_push_again } => {
            format!("{}; {}; {}", last_capture, pushes, can_push_again)
        }
        Effect::SaveConfig(config) => format!(
            "save {} {} [{}]",
            config.notify_on_success,
            config.notify_on_error,
            list(&config.watch_dirs)
        ),
        Effect::StopWatcher => "stop".to_string(),
        Effect::SpawnWatcher(paths) => format!("watch [{}]", list(paths)),
        Effect::RunHeadless(paths) => format!("headless [{}]", list(paths)),
        Effect::Open(p) => format!("open {}", p.display()),
        Effect::PickFolder(p) => format!("pick {}", p.display()),
        Effect::Replay(p) => format!("replay {}", p.display()),
        Effect::SetAutostart(on) => format!("autostart {}", on),
        Effect::SyncAutostart => "sync".to_string(),
    }
}

fn send(state: &mut AppState, event: AppEvent, at: u64) -> Vec<String> {
    let (_, effects) = state.on_event(event, clock(at));
    effects.iter().map(shown).collect()
}

fn click(state: &mut AppState, action: MenuAction) -> Vec<String> {
    send(state, AppEvent::Menu(action), 100)
}

#[test]
fn ages_come_in_their_largest_unit() {
    let second = 1_000_000_000u64;
    let line = |age: u64| format_last_capture(Some(5 * second), (5 + age) * second);
    assert_eq!(format_last_capture(None, 7), "Last capture: never");
    assert_eq!(line(0), "Last capture: 0s ago");
    assert_eq!(line(59), "Last capture: 59s ago");
    assert_eq!(line(60), "Last capture: 1m ago");
    assert_eq!(line(3599), "Last capture: 59m ago");
    assert_eq!(line(3600), "Last capture: 1h ago");
    assert_eq!(line(90000), "Last capture: 25h ago");
    assert_eq!(format_last_capture(Some(second), 0), "Last capture: 0s ago");
    assert_eq!(format_last_capture(Some(0), second - 1), "Last capture: 0s ago");
}

#[test]
fn pushes_are_counted() {
    assert_eq!(format_pushes(0), "Pushes this session: 0");
    assert_eq!(format_pushes(42), "Pushes this session: 42");
}

#[test]
fn home_is_shown_as_a_tilde() {
    let home = Some(path("/home/me"));
    assert_eq!(abbreviate_path(&path("/home/me/Pictures"), &home), "~/Pictures");
    assert_eq!(abbreviate_path(&path("/home/me"), &home), "~");
    assert_eq!(abbreviate_path(&path("/mnt/me"), &home), "/mnt/me");
    assert_eq!(abbreviate_path(&path("/home/me"), &None), "/home/me");
}

#[test]
fn long_paths_lose_their_middle() {
    let fits = format!("/{}", "a".repeat(47));
    assert_eq!(abbreviate_path(&path(&fits), &None), fits);
    let long = format!("/{}{}", "a".repeat(24), "b".repeat(24));
    let expected = format!("/{}…{}", "a".repeat(21), "b".repeat(22));
    assert_eq!(abbreviate_path(&path(&long), &None), expected);
    let wide = "é".repeat(30);
    let both = format!("{}…{}", "é".repeat(22), "é".repeat(22));
    assert_eq!(abbreviate_path(&path(&wide), &None), both);
    let few = "…".repeat(17);
    assert_eq!(abbreviate_path(&path(&few), &None), format!("{}…{}", few, few));
}

#[test]
fn the_header_names_one_folder_or_counts_them() {
    let home = Some(path("/home/me"));
    assert_eq!(watching_header(&Vec::new(), &home), "Watching: (none)");
    assert_eq!(watching_header(&vec![path("/home/me/a")], &home), "Watching: ~/a");
    assert_eq!(watching_header(&vec![path("/a"), path("/b")], &home), "Watching: 2 folders");
}

#[test]
fn the_tooltip_lists_the_folders() {
    let home = Some(path("/home/me"));
    assert_eq!(
        build_tooltip(&Vec::new(), &home, "0.3.0"),
        "shotpaste 0.3.0 — no folders watched"
    );
    assert_eq!(
        build_tooltip(&vec![path("/home/me/a")], &home, "0.3.0"),
        "shotpaste 0.3.0 — watching ~/a"
    );
    assert_eq!(
        build_tooltip(&vec![path("/home/me/a"), path("/b"), path("/c")], &home, "0.3.0"),
        "shotpaste 0.3.0 — watching:\n  • ~/a\n  • /b\n  • /c"
    );
}

fn entry(entry: &MenuEntry) -> String {
    match entry {
        MenuEntry::Leaf(MenuLeaf::Item { label, enabled, .. }) => {
            format!("{}{}", label, if *enabled { "" } else { " (off)" })
        }
        MenuEntry::Leaf(MenuLeaf::Check { label, checked, enabled, .. }) => {
            assert!(*enabled);
            format!("[{}] {}", if *checked { "x" } else { " " }, label)
        }
        MenuEntry::Leaf(MenuLeaf::Separator) => "-".to_string(),
        MenuEntry::Folders { label, folders, .. } => {
            let labels: Vec<String> = folders.iter().map(|f| f.label.clone()).collect();
            format!("{} > {}", label, labels.join(" | "))
        }
    }
}

#[test]
fn the_menu_of_one_folder_is_flat() {
    let state = session(&["/home/me/Pictures/Screenshots"]);
    let menu = build_menu(&state.menu_input(true), 0);
    let lines: Vec<String> = menu.iter().map(entry).collect();
    assert_eq!(
        lines,
        vec![
            "Watching: ~/Pictures/Screenshots (off)",
            "Last capture: never (off)",
            "Pushes this session: 0 (off)",
            "-",
            "Open watched folder",
            "Add watched folder…",
            "Push last screenshot again (off)",
            "Open log file",
            "-",
            "[x] Start at login (next session)",
            "[x] Notify on success",
            "[x] Notify on error",
            "-",
            "Quit shotpaste",
        ]
    );
}

#[test]
fn the_menu_of_several_folders_has_a_submenu() {
    let state = session(&["/a", "/b"]);
    let menu = build_menu(&state.menu_input(false), 0);
    assert_eq!(entry(&menu[4]), "Watched folders > /a | /b");
    assert_eq!(entry(&menu[9]), "[ ] Start at login (next session)");
    let empty = session(&[]);
    assert_eq!(entry(&build_menu(&empty.menu_input(false), 0)[4]), "Open watched folder (off)");
}

#[test]
fn the_last_folder_cannot_be_removed_from_the_menu() {
    let removable = |count: usize| {
        let folders: Vec<FilePath> = (0..count).map(|i| path(&format!("/{}", i))).collect();
        let menus = build_folders_submenu(&folders, &None);
        assert_eq!(menus.len(), count);
        for (i, menu) in menus.iter().enumerate() {
            assert!(matches!(
                &menu.children[0],
                MenuLeaf::Item { role: Role::OpenAt(at), enabled: true, .. } if *at == i
            ));
            assert!(matches!(&menu.children[1], MenuLeaf::Separator));
        }
        match &menus[0].children[2] {
            MenuLeaf::Item { role: Role::RemoveAt(0), label, enabled } => {
                assert_eq!(label, "Remove from watch list");
                *enabled
            }
            _ => panic!("no such item"),
        }
    };
    assert!(!removable(1));
    assert!(removable(2));
}

fn items() -> MenuItems {
    let check = |id: &str, checked| CheckItem { id: id.to_string(), checked };
    MenuItems {
        quit: "q".to_string(),
        open_folder: Some("o".to_string()),
        folder_actions: vec![
            ("o0".to_string(), "r0".to_string()),
            ("o1".to_string(), "r1".to_string()),
        ],
        add_folder: "a".to_string(),
        push_again: "p".to_string(),
        open_log: "l".to_string(),
        start_at_login: check("s", true),
        notify_success: check("ns", false),
        notify_error: check("ne", true),
    }
}

#[test]
fn each_item_asks_for_its_action() {
    let items = items();
    let action = |id: &str| classify_menu_event(&id.to_string(), &items);
    assert_eq!(action("q"), MenuAction::Quit);
    assert_eq!(action("o"), MenuAction::OpenSingleFolder);
    assert_eq!(action("o0"), MenuAction::OpenAt(0));
    assert_eq!(action("r1"), MenuAction::RemoveAt(1));
    assert_eq!(action("a"), MenuAction::AddFolder);
    assert_eq!(action("p"), MenuAction::PushAgain);
    assert_eq!(action("l"), MenuAction::OpenLog);
    assert_eq!(action("s"), MenuAction::StartAtLogin { checked: true });
    assert_eq!(action("ns"), MenuAction::NotifySuccess(false));
    assert_eq!(action("ne"), MenuAction::NotifyError(true));
    assert_eq!(action("x"), MenuAction::Unknown);
}

#[test]
fn a_click_before_the_menu_is_there_asks_for_nothing() {
    assert_eq!(menu_action(&"q".to_string(), &None), MenuAction::Unknown);
    assert_eq!(menu_action(&"q".to_string(), &Some(items())), MenuAction::Quit);
}

#[test]
fn a_session_begins_with_a_watcher() {
    let (mut state, effects) =
        run(vec![path("/a"), path("/b")], Config::default(), dirs(), Platform::Linux);
    assert_eq!(effects.iter().map(shown).collect::<Vec<String>>(), vec!["watch [/a,/b]"]);
    assert_eq!(state.pushes, 0);
    assert!(state.last_path.is_none());
    assert_eq!(send(&mut state, AppEvent::Init, 0), vec!["build"]);
    assert!(send(&mut state, AppEvent::Tray, 0).is_empty());
}

#[test]
fn one_push_is_told_when_the_window_closes() {
    let mut state = session(&["/a"]);
    assert_eq!(
        send(&mut state, AppEvent::Pushed(path("/a/1.png")), 10),
        vec!["Last capture: 0s ago; Pushes this session: 1; true"]
    );
    assert_eq!(state.toast_flush_at, Some(11_500_000_000));
    assert!(send(&mut state, AppEvent::ResumeTimeReached, 11).is_empty());
    let (flow, _) = state.on_event(AppEvent::Tray, clock(11));
    assert_eq!(flow, ControlFlow::WaitUntil(11_500_000_000));
    assert_eq!(
        send(&mut state, AppEvent::ResumeTimeReached, 12),
        vec!["toast Screenshot copied / Pushed image + file + path to clipboard\n1.png"]
    );
    assert!(send(&mut state, AppEvent::ResumeTimeReached, 13).is_empty());
    let (flow, _) = state.on_event(AppEvent::Tray, clock(13));
    assert_eq!(flow, ControlFlow::Wait);
}

#[test]
fn a_burst_shares_one_toast() {
    let mut state = session(&["/a"]);
    for i in 0..3u64 {
        let at = Clock { wall: 0, steady: 1_000_000_000 + i * 400_000_000 };
        state.on_event(AppEvent::Pushed(path("/a/x.png")), at);
    }
    assert_eq!(state.toast_flush_at, Some(2_500_000_000));
    assert_eq!(state.toast_pending, 3);
    assert_eq!(
        send(&mut state, AppEvent::ResumeTimeReached, 3),
        vec!["toast Screenshots copied / Pushed 3 screenshots to the clipboard"]
    );
    assert_eq!(state.toast_pending, 0);
    assert_eq!(state.pushes, 3);
}

#[test]
fn unwanted_toasts_are_not_shown() {
    let mut state = session(&["/a"]);
    click(&mut state, MenuAction::NotifySuccess(false));
    send(&mut state, AppEvent::Pushed(path("/a/1.png")), 1);
    assert!(send(&mut state, AppEvent::ResumeTimeReached, 5).is_empty());
    assert_eq!(state.toast_pending, 0);
    let failed = || AppEvent::Failed { path: path("/a/1.png"), error: "why".to_string() };
    assert_eq!(
        send(&mut state, failed(), 6),
        vec!["toast shotpaste — push failed / 1.png\nwhy"]
    );
    click(&mut state, MenuAction::NotifyError(false));
    assert!(send(&mut state, failed(), 7).is_empty());
}

#[test]
fn toggles_are_saved() {
    let mut state = session(&["/a"]);
    assert_eq!(click(&mut state, MenuAction::NotifySuccess(false)), vec!["save false true []"]);
    assert_eq!(click(&mut state, MenuAction::NotifyError(false)), vec!["save false false []"]);
    assert_eq!(click(&mut state, MenuAction::NotifySuccess(true)), vec!["save true false []"]);
}

#[test]
fn a_picked_folder_is_saved_watched_and_shown() {
    let mut state = session(&["/a"]);
    assert_eq!(click(&mut state, MenuAction::AddFolder), vec!["pick /home/me/Pictures"]);
    assert!(click(&mut state, MenuAction::AddFolder).is_empty());
    assert_eq!(
        send(&mut state, AppEvent::PickedFolder(Some(path("/b"))), 1),
        vec!["save true true [/a,/b]", "stop", "watch [/a,/b]", "rebuild"]
    );
    assert!(!state.picker_open);
    assert_eq!(click(&mut state, MenuAction::AddFolder), vec!["pick /home/me/Pictures"]);
    assert!(send(&mut state, AppEvent::PickedFolder(None), 2).is_empty());
    assert!(send(&mut state, AppEvent::PickedFolder(Some(path("/b/"))), 3).is_empty());
    assert_eq!(state.watch_dirs.len(), 2);
}

#[test]
fn removing_a_folder_undoes_adding_it() {
    let mut state = session(&["/a"]);
    send(&mut state, AppEvent::PickedFolder(Some(path("/b"))), 1);
    assert_eq!(
        click(&mut state, MenuAction::RemoveAt(1)),
        vec!["save true true [/a]", "stop", "watch [/a]", "rebuild"]
    );
    assert_eq!(state.watch_dirs.len(), 1);
    assert_eq!(state.watch_dirs[0].display(), "/a");
}

#[test]
fn the_last_folder_stays() {
    let mut state = session(&["/a"]);
    assert!(click(&mut state, MenuAction::RemoveAt(0)).is_empty());
    assert_eq!(state.watch_dirs.len(), 1);
    let mut state = session(&["/a", "/b"]);
    assert!(click(&mut state, MenuAction::RemoveAt(2)).is_empty());
    assert_eq!(state.watch_dirs.len(), 2);
}

#[test]
fn folders_and_log_are_opened() {
    let mut state = session(&["/a", "/b"]);
    assert_eq!(click(&mut state, MenuAction::OpenSingleFolder), vec!["open /a"]);
    assert_eq!(click(&mut state, MenuAction::OpenAt(1)), vec!["open /b"]);
    assert!(click(&mut state, MenuAction::OpenAt(2)).is_empty());
    assert_eq!(
        click(&mut state, MenuAction::OpenLog),
        vec!["open /home/me/.cache/shotpaste/shotpaste.log.1970-01-01"]
    );
    assert_eq!(
        send(&mut state, AppEvent::Menu(MenuAction::OpenLog), 1_778_630_399),
        vec!["open /home/me/.cache/shotpaste/shotpaste.log.2026-05-12"]
    );
    assert_eq!(
        send(&mut state, AppEvent::Menu(MenuAction::OpenLog), 1_778_630_400),
        vec!["open /home/me/.cache/shotpaste/shotpaste.log.2026-05-13"]
    );
    assert!(click(&mut session(&[]), MenuAction::OpenSingleFolder).is_empty());
    assert!(click(&mut state, MenuAction::Unknown).is_empty());
}

#[test]
fn the_last_push_can_be_repeated() {
    let mut state = session(&["/a"]);
    assert!(click(&mut state, MenuAction::PushAgain).is_empty());
    send(&mut state, AppEvent::Pushed(path("/a/1.png")), 1);
    send(&mut state, AppEvent::Pushed(path("/a/2.png")), 2);
    assert_eq!(click(&mut state, MenuAction::PushAgain), vec!["replay /a/2.png"]);
}

#[test]
fn autostart_is_toggled_and_put_right_after_a_failure() {
    let mut state = session(&["/a"]);
    let on = MenuAction::StartAtLogin { checked: true };
    assert_eq!(click(&mut state, on), vec!["autostart true"]);
    let off = MenuAction::StartAtLogin { checked: false };
    assert_eq!(click(&mut state, off), vec!["autostart false"]);
    assert_eq!(send(&mut state, AppEvent::AutostartFailed, 1), vec!["sync"]);
}

#[test]
fn quitting_stops_the_watcher_and_the_loop() {
    let mut state = session(&["/a"]);
    let (flow, effects) = state.on_event(AppEvent::Menu(MenuAction::Quit), clock(1));
    assert_eq!(flow, ControlFlow::Exit);
    assert_eq!(effects.iter().map(shown).collect::<Vec<String>>(), vec!["stop"]);
}

#[test]
fn without_a_tray_the_folders_are_watched_headless() {
    let mut state = session(&["/a", "/b"]);
    let (flow, effects) = state.on_event(AppEvent::TrayUnavailable, clock(1));
    assert_eq!(flow, ControlFlow::Exit);
    assert_eq!(
        effects.iter().map(shown).collect::<Vec<String>>(),
        vec!["stop", "headless [/a,/b]"]
    );
    assert_eq!(state.watch_dirs.len(), 2);
}

#[test]
fn a_tick_brings_the_age_up_to_date() {
    let mut state = session(&["/a"]);
    assert_eq!(send(&mut state, AppEvent::Tick, 5), vec!["Last capture: never"]);
    send(&mut state, AppEvent::Pushed(path("/a/1.png")), 10);
    assert_eq!(send(&mut state, AppEvent::Tick, 130), vec!["Last capture: 2m ago"]);
}

#[test]
fn the_dialog_starts_where_pictures_are() {
    let start = |home: bool| {
        let places = BaseDirs {
            home: if home { Some(path("/home/me")) } else { None },
            config: None,
            cache: None,
            data_local: None,
            pictures: None,
            desktop: None,
        };
        let mut state = run(vec![path("/a")], Config::default(), places, Platform::Linux).0;
        click(&mut state, MenuAction::AddFolder)
    };
    assert_eq!(start(true), vec!["pick /home/me"]);
    assert_eq!(start(false), vec!["pick ."]);
}

fn icon_file() -> Vec<u8> {
    let mut icon = Pixels::new(1, 2);
    icon.put_pixel(0, 0, Rgba([10, 20, 30, 40]));
    icon.put_pixel(0, 1, Rgba([50, 60, 70, 80]));
    let mut bytes: Vec<u8> = Vec::new();
    icon.write_to(&mut Cursor::new(&mut bytes), ImageFormat::Png).unwrap();
    bytes
}

#[test]
fn icons_are_decoded_to_pixels() {
    let color = load_icon_color(&icon_file()).unwrap();
    assert_eq!((color.width, color.height), (1, 2));
    assert_eq!(color.pixels, vec![10, 20, 30, 40, 50, 60, 70, 80]);
    let template = load_icon_template(&icon_file()).unwrap();
    assert_eq!(template.pixels, color.pixels);
}

#[test]
fn icons_that_cannot_be_decoded_are_told() {
    let text = load_icon_color(&vec![1, 2, 3]).unwrap_err().text();
    assert!(text.starts_with("failed to decode embedded color icon: "), "{}", text);
    let text = load_icon_template(&vec![1, 2, 3]).unwrap_err().text();
    assert!(text.starts_with("failed to decode embedded template icon: "), "{}", text);
    let failure = icon_or_failure(Err("why".to_string()), "context").unwrap_err();
    assert_eq!(failure.text(), "context: why");
}

#[test]
fn macos_prefers_the_outline() {
    let image = |value: u8| -> Result<RgbaImage, Failure> {
        Ok(RgbaImage { width: 1, height: 1, pixels: vec![value] })
    };
    let bad = || -> Result<RgbaImage, Failure> { Err(Failure::plain("bad".to_string())) };
    let icon = choose_icon(Platform::MacOs, image(1), image(2)).unwrap();
    assert!(icon.template && icon.image.pixels == vec![2]);
    let icon = choose_icon(Platform::MacOs, image(1), bad()).unwrap();
    assert!(!icon.template && icon.image.pixels == vec![1]);
    let icon = choose_icon(Platform::Linux, image(1), image(2)).unwrap();
    assert!(!icon.template && icon.image.pixels == vec![1]);
    assert_eq!(choose_icon(Platform::MacOs, bad(), image(2)).unwrap_err().text(), "bad");
}

#[test]
fn each_system_has_its_file_manager() {
    assert_eq!(open_in_file_manager(Platform::Windows), Some("explorer.exe".to_string()));
    assert_eq!(open_in_file_manager(Platform::MacOs), Some("open".to_string()));
    assert_eq!(open_in_file_manager(Platform::Linux), Some("xdg-open".to_string()));
    assert_eq!(open_in_file_manager(Platform::Unsupported), None);
    assert_eq!(open_failure("open", "gone".to_string()).text(), "failed to spawn open: gone");
}
