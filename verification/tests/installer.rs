use shotpaste::base_dirs::BaseDirs;
use shotpaste::failure::Failure;
use shotpaste::installer;
use shotpaste::installer::plan::{Check, Job, Reply, Request, Step};
use shotpaste::installer::status::{StatusJob, StatusRequest};
use shotpaste::installer::windows::{lines_for, script_for_status};
use shotpaste::path::FilePath;
use shotpaste::platform::Platform;

fn path(text: &str) -> FilePath {
    let mut parts: Vec<Vec<u8>> = Vec::new();
    if text.starts_with('/') {
        parts.push(b"/".to_vec());
    }
    for part in text.split('/') {
        if !part.is_empty() {
            parts.push(part.as_bytes().to_vec());
        }
    }
    let name = parts.last().cloned();
    FilePath { bytes: text.as_bytes().to_vec(), parts, name, wide: false }
}

fn nowhere() -> BaseDirs {
    BaseDirs { home: None, config: None, cache: None, data_local: None, pictures: None, desktop: None }
}

fn dirs() -> BaseDirs {
    BaseDirs {
        home: Some(path("/home/me")),
        config: Some(path("/home/me/.config")),
        data_local: Some(path("C:\\Local")),
        ..nowhere()
    }
}

fn exe() -> Result<FilePath, String> {
    Ok(path("/opt/shotpaste"))
}

fn shown(request: &Request) -> String {
    match request {
        Request::CreateDir(p) => format!("mkdir {}", p.display()),
        Request::WriteFile { path, .. } => format!("write {}", path.display()),
        Request::RemoveFile(p) => format!("rm {}", p.display()),
        Request::RemoveDir(p) => format!("rmdir {}", p.display()),
        Request::Exists(p) => format!("exists {}", p.display()),
        Request::Run { program, args } => format!("run {} {}", program, args.join(" ")),
        Request::SaveConfig { plan, config } => {
            format!("save {} {}", plan.file.display(), config.notify_on_success)
        }
        Request::Finish(Ok(())) => "ok".to_string(),
        Request::Finish(Err(failure)) => format!("failed: {}", failure.text()),
    }
}

fn output(success: bool, stdout: &str, stderr: &str) -> Reply {
    Reply::Output {
        success,
        stdout: stdout.as_bytes().to_vec(),
        stderr: stderr.as_bytes().to_vec(),
    }
}

/// Answers every request well; what is asked about exists only if `there`.
fn walk(steps: Vec<Step>, there: bool) -> Vec<String> {
    let (mut job, mut request) = Job::begin(steps);
    let mut asked = vec![shown(&request)];
    while !matches!(request, Request::Finish(_)) {
        let reply = match &request {
            Request::Exists(_) => Reply::Exists(there),
            Request::Run { program, .. } if program == "id" => output(true, "501\n", ""),
            Request::Run { .. } => output(true, "", ""),
            _ => Reply::Done,
        };
        request = job.advance(reply);
        asked.push(shown(&request));
    }
    asked
}

fn told<T>(result: Result<T, Failure>) -> String {
    match result {
        Ok(_) => panic!("no failure"),
        Err(failure) => failure.text(),
    }
}

#[test]
fn linux_registers_a_unit() {
    let steps = installer::install(&exe(), &dirs(), Platform::Linux, false).unwrap();
    match &steps[1] {
        Step::WriteFile { text, .. } => assert_eq!(
            text,
            "[Unit]\nDescription=shotpaste — atomic multi-format clipboard for screenshots\nAfter=graphical-session.target\nPartOf=graphical-session.target\n\n[Service]\nType=simple\nExecStart=/opt/shotpaste watch\nRestart=on-failure\nRestartSec=5\n\n[Install]\nWantedBy=graphical-session.target\n"
        ),
        _ => panic!("no unit"),
    }
    assert_eq!(
        walk(steps, true),
        vec![
            "mkdir /home/me/.config/systemd/user",
            "write /home/me/.config/systemd/user/shotpaste.service",
            "run systemctl --user daemon-reload",
            "run systemctl --user enable --now shotpaste.service",
            "exists /home/me/.config/shotpaste/config.toml",
            "ok",
        ]
    );
}

#[test]
fn the_first_install_writes_default_settings() {
    let steps = installer::install(&exe(), &dirs(), Platform::Linux, false).unwrap();
    let asked = walk(steps, false);
    assert_eq!(asked[4], "exists /home/me/.config/shotpaste/config.toml");
    assert_eq!(asked[5], "save /home/me/.config/shotpaste/config.toml true");
    assert_eq!(asked[6], "ok");
}

#[test]
fn settings_that_cannot_be_written_do_not_fail_the_install() {
    let steps = installer::install(&exe(), &dirs(), Platform::Linux, false).unwrap();
    let (mut job, _) = Job::begin(steps);
    job.advance(Reply::Done);
    job.advance(Reply::Done);
    job.advance(Reply::Failed("no systemctl".to_string()));
    job.advance(output(true, "", ""));
    assert_eq!(shown(&job.advance(Reply::Exists(false))), "save /home/me/.config/shotpaste/config.toml true");
    assert_eq!(shown(&job.advance(Reply::Failed("full".to_string()))), "ok");
}

#[test]
fn macos_registers_an_agent() {
    let steps = installer::install(&exe(), &dirs(), Platform::MacOs, false).unwrap();
    match &steps[2] {
        Step::WriteFile { text, .. } => assert_eq!(
            text,
            "<?xml version=\"1.0\" encoding=\"UTF-8\"?>\n<!DOCTYPE plist PUBLIC \"-//Apple//DTD PLIST 1.0//EN\" \"http://www.apple.com/DTDs/PropertyList-1.0.dtd\">\n<plist version=\"1.0\">\n<dict>\n    <key>Label</key>\n    <string>dev.shotpaste.watcher</string>\n    <key>ProgramArguments</key>\n    <array>\n        <string>/opt/shotpaste</string>\n        <string>watch</string>\n    </array>\n    <key>RunAtLoad</key>\n    <true/>\n    <key>KeepAlive</key>\n    <true/>\n    <key>StandardOutPath</key>\n    <string>/home/me/Library/Logs/shotpaste.log</string>\n    <key>StandardErrorPath</key>\n    <string>/home/me/Library/Logs/shotpaste.log</string>\n</dict>\n</plist>\n"
        ),
        _ => panic!("no agent"),
    }
    let plist = "/home/me/Library/LaunchAgents/dev.shotpaste.watcher.plist";
    assert_eq!(
        walk(steps, true),
        vec![
            "mkdir /home/me/Library/LaunchAgents".to_string(),
            "mkdir /home/me/Library/Logs".to_string(),
            format!("write {}", plist),
            "run id -u".to_string(),
            format!("run launchctl bootout gui/501 {}", plist),
            format!("run launchctl bootstrap gui/501 {}", plist),
            "exists /home/me/.config/shotpaste/config.toml".to_string(),
            "ok".to_string(),
        ]
    );
}

#[test]
fn windows_registers_a_task() {
    let quoted: Result<FilePath, String> = Ok(path("C:\\it's \"here\"\\shotpaste.exe"));
    let steps = installer::install(&quoted, &dirs(), Platform::Windows, false).unwrap();
    match &steps[1] {
        Step::WriteFile { path, text, .. } => {
            assert_eq!(path.display(), "C:\\Local\\shotpaste\\shotpaste-watch.vbs");
            assert_eq!(
                text,
                "Set oShell = CreateObject(\"WScript.Shell\")\r\noShell.Run \"\"\"C:\\it's \"\"here\"\"\\shotpaste.exe\"\" watch\", 0, False\r\n"
            );
        }
        _ => panic!("no script"),
    }
    let asked = walk(steps, true);
    assert_eq!(asked[0], "mkdir C:\\Local\\shotpaste");
    assert_eq!(
        asked[2],
        "run powershell.exe -NoLogo -NoProfile -NonInteractive -ExecutionPolicy Bypass -Command $ErrorActionPreference='Stop';$action = New-ScheduledTaskAction -Execute 'wscript.exe' -Argument '\"C:\\Local\\shotpaste\\shotpaste-watch.vbs\"';$trigger = New-ScheduledTaskTrigger -AtLogOn -User $env:USERNAME;$settings = New-ScheduledTaskSettingsSet -AllowStartIfOnBatteries -DontStopIfGoingOnBatteries -StartWhenAvailable;$task = New-ScheduledTask -Action $action -Trigger $trigger -Settings $settings;Register-ScheduledTask -TaskName 'Shotpaste' -InputObject $task -Force | Out-Null;Start-ScheduledTask -TaskName 'Shotpaste';"
    );
}

#[test]
fn the_tray_registers_without_starting() {
    let from_shell = installer::install(&exe(), &dirs(), Platform::Windows, false).unwrap();
    let from_tray = installer::install(&exe(), &dirs(), Platform::Windows, true).unwrap();
    let with_start = walk(from_shell, true)[2].clone();
    let without = walk(from_tray, true)[2].clone();
    assert_eq!(with_start, format!("{}Start-ScheduledTask -TaskName 'Shotpaste';", without));
    assert!(!without.contains("Start-ScheduledTask"));
}

#[test]
fn the_tray_turns_autostart_on_and_off() {
    for platform in [Platform::Windows, Platform::MacOs, Platform::Linux] {
        let on = installer::autostart_steps(true, &exe(), &dirs(), platform).unwrap();
        let install = installer::install(&exe(), &dirs(), platform, true).unwrap();
        assert_eq!(walk(on, true), walk(install, true));
        let off = installer::autostart_steps(false, &exe(), &dirs(), platform).unwrap();
        let asked = walk(off, true);
        assert!(!asked.iter().any(|a| a.starts_with("rmdir")));
        let uninstall = installer::uninstall(&dirs(), platform, false).unwrap();
        assert_eq!(asked, walk(uninstall, true));
    }
    let on = installer::autostart_steps(true, &exe(), &dirs(), Platform::Windows).unwrap();
    assert!(!walk(on, true)[2].contains("Start-ScheduledTask"));
    let told_on = installer::autostart_steps(true, &exe(), &nowhere(), Platform::Linux);
    assert_eq!(told(told_on), "failed to resolve config dir");
    let told_off = installer::autostart_steps(false, &exe(), &nowhere(), Platform::Unsupported);
    assert_eq!(told(told_off), "`shotpaste uninstall` is not implemented on this platform");
}

#[test]
fn registering_again_points_at_the_new_program() {
    let entry = |at: &str, platform| {
        let exe: Result<FilePath, String> = Ok(path(at));
        for step in installer::install(&exe, &dirs(), platform, false).unwrap() {
            if let Step::WriteFile { text, .. } = step {
                return text;
            }
        }
        panic!("no entry")
    };
    for platform in [Platform::Linux, Platform::MacOs, Platform::Windows] {
        assert_ne!(entry("/old/shotpaste", platform), entry("/new/shotpaste", platform));
    }
}

#[test]
fn install_tells_what_it_lacks() {
    let lost: Result<FilePath, String> = Err("gone".to_string());
    let unreadable: Result<FilePath, String> =
        Ok(FilePath { bytes: b"/\xff".to_vec(), parts: vec![], name: None, wide: false });
    let text = |exe: &Result<FilePath, String>, dirs: BaseDirs, platform| told(installer::install(exe, &dirs, platform, false));
    assert_eq!(
        text(&lost, dirs(), Platform::Linux),
        "failed to determine shotpaste binary path: gone"
    );
    assert_eq!(
        text(&lost, dirs(), Platform::Unsupported),
        "`shotpaste install` is not implemented on this platform"
    );
    assert_eq!(text(&unreadable, dirs(), Platform::Linux), "shotpaste path is not valid UTF-8");
    assert_eq!(text(&unreadable, dirs(), Platform::MacOs), "shotpaste path is not valid UTF-8");
    assert_eq!(
        text(&unreadable, dirs(), Platform::Windows),
        "shotpaste path is not valid UTF-8 (rename the install dir)"
    );
    assert_eq!(text(&exe(), nowhere(), Platform::Linux), "failed to resolve config dir");
    assert_eq!(text(&exe(), nowhere(), Platform::MacOs), "failed to resolve home dir");
    assert_eq!(text(&exe(), nowhere(), Platform::Windows), "failed to resolve LocalAppData");
    let odd = BaseDirs {
        home: Some(FilePath { bytes: b"/\xff".to_vec(), parts: vec![], name: None, wide: false }),
        ..nowhere()
    };
    assert_eq!(text(&exe(), odd, Platform::MacOs), "log path is not valid UTF-8");
}

#[test]
fn a_script_path_that_is_no_text_ends_the_install() {
    let odd = BaseDirs {
        data_local: Some(FilePath { bytes: b"C:\\\xff".to_vec(), parts: vec![], name: None, wide: false }),
        ..nowhere()
    };
    let asked = walk(installer::install(&exe(), &odd, Platform::Windows, false).unwrap(), true);
    assert_eq!(asked[2], "failed: VBS path is not valid UTF-8");
}

#[test]
fn each_install_step_has_its_words() {
    let fail_at = |platform, at: usize, reply: fn() -> Reply| {
        let steps = installer::install(&exe(), &dirs(), platform, false).unwrap();
        let (mut job, mut request) = Job::begin(steps);
        for _ in 0..at {
            let good = match &request {
                Request::Run { .. } => output(true, "501", ""),
                _ => Reply::Done,
            };
            request = job.advance(good);
        }
        shown(&job.advance(reply()))
    };
    let refused: fn() -> Reply = || Reply::Failed("why".to_string());
    let bad: fn() -> Reply = || output(false, "", " why \n");
    let garbled: fn() -> Reply =
        || Reply::Output { success: true, stdout: vec![0xff], stderr: Vec::new() };
    let linux = Platform::Linux;
    assert_eq!(fail_at(linux, 0, refused), "failed: failed to create systemd user dir: why");
    assert_eq!(fail_at(linux, 1, refused), "failed: failed to write systemd unit: why");
    assert_eq!(fail_at(linux, 2, refused), "run systemctl --user enable --now shotpaste.service");
    assert_eq!(fail_at(linux, 3, refused), "failed: failed to invoke systemctl: why");
    assert_eq!(
        fail_at(linux, 3, bad),
        "failed: `systemctl --user enable --now shotpaste.service` failed: why"
    );
    let mac = Platform::MacOs;
    assert_eq!(fail_at(mac, 0, refused), "failed: failed to create LaunchAgents dir: why");
    assert_eq!(fail_at(mac, 1, refused), "failed: failed to create Logs dir: why");
    assert_eq!(fail_at(mac, 2, refused), "failed: failed to write LaunchAgent plist: why");
    assert_eq!(fail_at(mac, 3, refused), "failed: failed to invoke `id -u`: why");
    assert_eq!(fail_at(mac, 3, bad), "failed: `id -u` failed");
    assert_eq!(
        fail_at(mac, 3, garbled),
        "failed: `id -u` output is not UTF-8: invalid utf-8 sequence of 1 bytes from index 0"
    );
    assert_eq!(fail_at(mac, 5, refused), "failed: failed to invoke launchctl: why");
    assert_eq!(fail_at(mac, 5, bad), "failed: launchctl bootstrap failed: why");
    let windows = Platform::Windows;
    assert_eq!(fail_at(windows, 0, refused), "failed: failed to create shotpaste state dir: why");
    assert_eq!(fail_at(windows, 1, refused), "failed: failed to write VBS shim: why");
    assert_eq!(fail_at(windows, 2, refused), "failed: failed to invoke PowerShell: why");
    assert_eq!(fail_at(windows, 2, bad), "failed: Register-ScheduledTask failed: why");
}

#[test]
fn linux_ends_autostart() {
    let unit = "/home/me/.config/systemd/user/shotpaste.service";
    let steps = installer::uninstall(&dirs(), Platform::Linux, false).unwrap();
    assert_eq!(
        walk(steps, true),
        vec![
            "run systemctl --user disable --now shotpaste.service".to_string(),
            format!("exists {}", unit),
            format!("rm {}", unit),
            "run systemctl --user daemon-reload".to_string(),
            "ok".to_string(),
        ]
    );
    let steps = installer::uninstall(&dirs(), Platform::Linux, true).unwrap();
    assert_eq!(
        walk(steps, false),
        vec![
            "run systemctl --user disable --now shotpaste.service".to_string(),
            format!("exists {}", unit),
            "run systemctl --user daemon-reload".to_string(),
            "exists /home/me/.config/shotpaste".to_string(),
            "ok".to_string(),
        ]
    );
    let steps = installer::uninstall(&nowhere(), Platform::Linux, false).unwrap();
    assert_eq!(walk(steps, true)[1], "failed: failed to resolve config dir");
}

#[test]
fn macos_ends_autostart() {
    let plist = "/home/me/Library/LaunchAgents/dev.shotpaste.watcher.plist";
    let steps = installer::uninstall(&dirs(), Platform::MacOs, true).unwrap();
    assert_eq!(
        walk(steps, true),
        vec![
            format!("exists {}", plist),
            "run id -u".to_string(),
            format!("run launchctl bootout gui/501 {}", plist),
            format!("rm {}", plist),
            "exists /home/me/.config/shotpaste".to_string(),
            "rmdir /home/me/.config/shotpaste".to_string(),
            "ok".to_string(),
        ]
    );
    let steps = installer::uninstall(&dirs(), Platform::MacOs, false).unwrap();
    assert_eq!(walk(steps, false), vec![format!("exists {}", plist), "ok".to_string()]);
    assert_eq!(
        told(installer::uninstall(&nowhere(), Platform::MacOs, false)),
        "failed to resolve home dir"
    );
}

#[test]
fn windows_ends_autostart() {
    let vbs = "C:\\Local\\shotpaste\\shotpaste-watch.vbs";
    let steps = installer::uninstall(&dirs(), Platform::Windows, false).unwrap();
    let asked = walk(steps, true);
    assert_eq!(
        asked[0],
        "run powershell.exe -NoLogo -NoProfile -NonInteractive -ExecutionPolicy Bypass -Command $ErrorActionPreference='SilentlyContinue';try { Stop-ScheduledTask -TaskName 'Shotpaste' } catch {};Unregister-ScheduledTask -TaskName 'Shotpaste' -Confirm:$false;"
    );
    assert_eq!(asked[1], format!("exists {}", vbs));
    assert_eq!(asked[2], format!("rm {}", vbs));
    assert_eq!(asked[3], "ok");
    let steps = installer::uninstall(&dirs(), Platform::Windows, false).unwrap();
    match &steps[0] {
        Step::Run { check: Check::Start(words), .. } => assert_eq!(words, "failed to invoke PowerShell"),
        _ => panic!("no command"),
    }
    let (mut job, _) = Job::begin(steps);
    job.advance(output(false, "", "not there"));
    job.advance(Reply::Exists(true));
    assert_eq!(shown(&job.advance(Reply::Failed("locked".to_string()))), "ok");
}

#[test]
fn settings_that_cannot_be_purged_are_told() {
    let steps = installer::uninstall(&dirs(), Platform::Windows, true).unwrap();
    let (mut job, _) = Job::begin(steps);
    job.advance(output(true, "", ""));
    job.advance(Reply::Exists(false));
    assert_eq!(shown(&job.advance(Reply::Exists(true))), "rmdir /home/me/.config\\shotpaste");
    assert_eq!(
        shown(&job.advance(Reply::Failed("busy".to_string()))),
        "failed: failed to remove config dir: busy"
    );
}

#[test]
fn each_uninstall_step_has_its_words() {
    let steps = installer::uninstall(&dirs(), Platform::Linux, false).unwrap();
    let (mut job, _) = Job::begin(steps);
    job.advance(Reply::Failed("none".to_string()));
    job.advance(Reply::Exists(true));
    assert_eq!(
        shown(&job.advance(Reply::Failed("denied".to_string()))),
        "failed: failed to remove systemd unit: denied"
    );
    let steps = installer::uninstall(&dirs(), Platform::MacOs, false).unwrap();
    let (mut job, _) = Job::begin(steps);
    job.advance(Reply::Exists(true));
    job.advance(output(true, "501\n", ""));
    job.advance(output(false, "", ""));
    assert_eq!(
        shown(&job.advance(Reply::Failed("denied".to_string()))),
        "failed: failed to remove plist: denied"
    );
    let steps = installer::uninstall(&dirs(), Platform::Windows, false).unwrap();
    let (mut job, _) = Job::begin(steps);
    assert_eq!(
        shown(&job.advance(Reply::Failed("gone".to_string()))),
        "failed: failed to invoke PowerShell: gone"
    );
    let odd = BaseDirs {
        home: Some(FilePath { bytes: b"/\xff".to_vec(), parts: vec![], name: None, wide: false }),
        ..nowhere()
    };
    let asked = walk(installer::uninstall(&odd, Platform::MacOs, false).unwrap(), true);
    assert_eq!(asked[2], "failed: plist path is not valid UTF-8");
}

#[test]
fn the_entry_marks_autostart_as_registered() {
    let file = |platform| installer::installer_installed(&dirs(), platform).map(|p| p.display());
    assert_eq!(
        file(Platform::Linux),
        Some("/home/me/.config/systemd/user/shotpaste.service".to_string())
    );
    assert_eq!(
        file(Platform::MacOs),
        Some("/home/me/Library/LaunchAgents/dev.shotpaste.watcher.plist".to_string())
    );
    assert_eq!(
        file(Platform::Windows),
        Some("C:\\Local\\shotpaste\\shotpaste-watch.vbs".to_string())
    );
    assert_eq!(file(Platform::Unsupported), None);
    assert!(installer::installer_installed(&nowhere(), Platform::Linux).is_none());
}

fn lines(request: StatusRequest) -> Vec<String> {
    match request {
        StatusRequest::Print(lines) => lines,
        _ => panic!("nothing to tell yet"),
    }
}

fn command(request: StatusRequest) -> String {
    match request {
        StatusRequest::Run { program, args } => format!("{} {}", program, args.join(" ")),
        _ => panic!("no command"),
    }
}

fn begin_status(platform: Platform) -> (StatusJob, StatusRequest) {
    match installer::status(&dirs(), platform) {
        Ok(begun) => begun,
        Err(failure) => panic!("{}", failure.text()),
    }
}

#[test]
fn linux_status_asks_systemd() {
    let (mut job, request) = begin_status(Platform::Linux);
    match request {
        StatusRequest::Exists(p) => {
            assert_eq!(p.display(), "/home/me/.config/systemd/user/shotpaste.service")
        }
        _ => panic!("no question"),
    }
    assert_eq!(
        command(job.advance(Reply::Exists(true))),
        "systemctl --user is-active shotpaste.service"
    );
    assert_eq!(
        command(job.advance(output(false, "inactive\n", ""))),
        "systemctl --user is-enabled shotpaste.service"
    );
    assert_eq!(
        lines(job.advance(Reply::Failed("gone".to_string()))),
        vec![
            "shotpaste: systemd user unit 'shotpaste.service'",
            "  active:  inactive",
            "  enabled: <systemctl unavailable>",
            "  unit:    /home/me/.config/systemd/user/shotpaste.service",
            "  details: systemctl --user status shotpaste.service",
        ]
    );
}

#[test]
fn linux_status_without_a_unit() {
    let (mut job, _) = begin_status(Platform::Linux);
    assert_eq!(
        lines(job.advance(Reply::Exists(false))),
        vec![
            "shotpaste: not installed (no systemd unit at /home/me/.config/systemd/user/shotpaste.service).",
            "  run `shotpaste install` to register it",
        ]
    );
}

#[test]
fn macos_status_asks_launchd() {
    for loaded in [true, false] {
        let (mut job, _) = begin_status(Platform::MacOs);
        assert_eq!(command(job.advance(Reply::Exists(true))), "id -u");
        assert_eq!(
            command(job.advance(output(true, "501\n", ""))),
            "launchctl print gui/501/dev.shotpaste.watcher"
        );
        let first = if loaded {
            "shotpaste: LaunchAgent 'dev.shotpaste.watcher' is loaded."
        } else {
            "shotpaste: LaunchAgent 'dev.shotpaste.watcher' is NOT loaded."
        };
        assert_eq!(
            lines(job.advance(output(loaded, "", ""))),
            vec![
                first,
                "  plist:   /home/me/Library/LaunchAgents/dev.shotpaste.watcher.plist",
                "  details: launchctl print gui/501/dev.shotpaste.watcher",
            ]
        );
    }
}

#[test]
fn macos_status_without_an_agent_or_a_number() {
    let (mut job, _) = begin_status(Platform::MacOs);
    assert_eq!(
        lines(job.advance(Reply::Exists(false))),
        vec![
            "shotpaste: not installed (no LaunchAgent plist).",
            "  run `shotpaste install` to register it",
        ]
    );
    let (mut job, _) = begin_status(Platform::MacOs);
    job.advance(Reply::Exists(true));
    match job.advance(output(false, "", "")) {
        StatusRequest::Fail(failure) => assert_eq!(failure.text(), "`id -u` failed"),
        _ => panic!("no failure"),
    }
}

#[test]
fn windows_status_reads_one_line() {
    let (mut job, request) = begin_status(Platform::Windows);
    assert_eq!(
        command(request),
        format!(
            "powershell.exe -NoLogo -NoProfile -NonInteractive -ExecutionPolicy Bypass -Command {}",
            script_for_status()
        )
    );
    assert_eq!(
        script_for_status(),
        "$ErrorActionPreference='Stop';try { $t = Get-ScheduledTask -TaskName 'Shotpaste' -ErrorAction Stop; $i = Get-ScheduledTaskInfo -TaskName 'Shotpaste'; 'REGISTERED|' + $t.State + '|' + $i.LastRunTime + '|' + $i.LastTaskResult; } catch { 'MISSING' };"
    );
    assert_eq!(
        lines(job.advance(output(true, "noise\r\nREGISTERED|Ready|05/12/2026 10:00:00|0\r\n", ""))),
        vec![
            "shotpaste: Scheduled Task 'Shotpaste' is registered.",
            "  state:       Ready",
            "  last run:    05/12/2026 10:00:00",
            "  last result: 0",
        ]
    );
}

#[test]
fn windows_status_lines() {
    assert_eq!(
        lines_for("MISSING"),
        vec![
            "shotpaste: not installed (Scheduled Task 'Shotpaste' missing).",
            "  run `shotpaste install` to register it",
        ]
    );
    assert_eq!(
        lines_for("REGISTERED|Ready"),
        vec![
            "shotpaste: Scheduled Task 'Shotpaste' is registered.",
            "  state:       Ready",
            "  last run:    ?",
            "  last result: ?",
        ]
    );
    assert_eq!(
        lines_for("what"),
        vec!["shotpaste: status check returned unexpected output: what"]
    );
    let (mut job, _) = begin_status(Platform::Windows);
    match job.advance(Reply::Failed("gone".to_string())) {
        StatusRequest::Fail(failure) => {
            assert_eq!(failure.text(), "failed to invoke PowerShell: gone")
        }
        _ => panic!("no failure"),
    }
}

#[test]
fn status_tells_what_it_lacks() {
    let text = |platform| told(installer::status(&nowhere(), platform));
    assert_eq!(text(Platform::Linux), "failed to resolve config dir");
    assert_eq!(text(Platform::MacOs), "failed to resolve home dir");
    assert_eq!(
        text(Platform::Unsupported),
        "`shotpaste status` is not implemented on this platform"
    );
}
