use shotpaste::installer::plan::{Arg, Check, Step};
use shotpaste::path::FilePath;
use shotpaste::powershell::{ps_squote, run_powershell};
use shotpaste::windows_shortcut::{ensure_aumid_shortcut, remove_aumid_shortcut};

fn script(step: &Step) -> String {
    match step {
        Step::Run { program, args, .. } => {
            assert_eq!(program, "powershell.exe");
            match &args[args.len() - 1] {
                Arg::Text(text) => text.clone(),
                _ => panic!("no script"),
            }
        }
        _ => panic!("no command"),
    }
}

#[test]
fn quoting_doubles_single_quotes() {
    assert_eq!(ps_squote("Shotpaste"), "'Shotpaste'");
    assert_eq!(ps_squote("it's"), "'it''s'");
    assert_eq!(ps_squote("''"), "''''''");
    assert_eq!(ps_squote(""), "''");
}

#[test]
fn powershell_runs_without_profile_or_questions() {
    assert_eq!(
        run_powershell("exit".to_string()),
        vec!["-NoLogo", "-NoProfile", "-NonInteractive", "-ExecutionPolicy", "Bypass", "-Command", "exit"]
    );
}

#[test]
fn the_name_of_the_toasts_is_registered() {
    let exe: Result<FilePath, String> =
        Ok(FilePath { bytes: b"C:\\it's\\shotpaste.exe".to_vec(), parts: vec![], name: None, wide: false });
    let step = ensure_aumid_shortcut("dev.shotpaste.watcher", &exe).unwrap();
    assert_eq!(
        script(&step),
        "$ErrorActionPreference='Stop';$key = 'HKCU:\\Software\\Classes\\AppUserModelId\\' + 'dev.shotpaste.watcher';if (-not (Test-Path $key)) { New-Item -Path $key -Force | Out-Null };New-ItemProperty -Path $key -Name 'DisplayName' -Value 'shotpaste' -PropertyType String -Force | Out-Null;New-ItemProperty -Path $key -Name 'IconUri' -Value 'C:\\it''s\\shotpaste.exe' -PropertyType String -Force | Out-Null;"
    );
    match &step {
        Step::Run { check: Check::Success(start, fail), .. } => {
            assert_eq!(start, "failed to invoke PowerShell");
            assert_eq!(fail, "AUMID registration failed: ");
        }
        _ => panic!("no command"),
    }
}

#[test]
fn registering_the_name_needs_the_program() {
    let lost: Result<FilePath, String> = Err("gone".to_string());
    let failure = ensure_aumid_shortcut("x", &lost).unwrap_err();
    assert_eq!(failure.text(), "failed to determine shotpaste binary path: gone");
    let odd: Result<FilePath, String> =
        Ok(FilePath { bytes: vec![0xff], parts: vec![], name: None, wide: false });
    let failure = ensure_aumid_shortcut("x", &odd).unwrap_err();
    assert_eq!(
        failure.text(),
        "shotpaste path is not valid UTF-8 (rename the install dir)"
    );
}

#[test]
fn the_name_of_the_toasts_is_removed_if_it_is_there() {
    let step = remove_aumid_shortcut();
    assert_eq!(
        script(&step),
        "$ErrorActionPreference='SilentlyContinue';Remove-Item -Path 'HKCU:\\Software\\Classes\\AppUserModelId\\dev.shotpaste.watcher' -Recurse -Force;"
    );
    assert!(matches!(step, Step::Run { check: Check::Ignore, .. }));
}
