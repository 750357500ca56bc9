//! What holds of autostart as a whole.
use crate::base_dirs::BaseDirsView;
use crate::config;
use crate::failure::FailureView;
use crate::installer;
use crate::installer::linux;
use crate::installer::macos;
use crate::installer::plan;
use crate::installer::plan::{
    ArgView, CheckView, JobView, OutcomeView, ReplyView, RequestView, StepView,
};
use crate::installer::status;
use crate::installer::status::{StatusPhaseView, StatusRequestView};
use crate::installer::windows;
use crate::path;
use crate::path::PathView;
use crate::platform::Platform;
use crate::powershell;
use crate::text;
use vstd::prelude::*;

verus! {

/// The text of the entry that starts the program with the path `exe`.
pub open spec fn entry_text(
    exe: Seq<char>,
    dirs: BaseDirsView,
    platform: Platform,
) -> Option<Seq<char>> {
    match platform {
        Platform::Windows => Some(windows::vbs_text(exe)),
        Platform::MacOs => match macos::log_file(dirs) {
            Some(log) => match path::path_text(log) {
                Some(log_text) => Some(macos::plist_text(exe, log_text)),
                None => None,
            },
            None => None,
        },
        Platform::Linux => Some(linux::unit_text(exe)),
        Platform::Unsupported => None,
    }
}

/// Which of the steps of registering writes the entry.
pub open spec fn entry_step(platform: Platform) -> int {
    if platform == Platform::MacOs {
        2
    } else {
        1
    }
}

/// Registering writes the entry for the program that asks, whether or not
/// there is one already: before it only folders are created.
pub proof fn law_install_points_at_the_asking_program(
    exe: PathView,
    dirs: BaseDirsView,
    platform: Platform,
    from_tray: bool,
)
    requires
        installer::install_plan(Ok(exe), dirs, platform, from_tray) is Ok,
    ensures
        ({
            let steps = installer::install_plan(Ok(exe), dirs, platform, from_tray)->Ok_0;
            let i = entry_step(platform);
            &&& i < steps.len()
            &&& forall|j: int| 0 <= j < i ==> (#[trigger] steps[j]) is CreateDir
            &&& steps[i] matches StepView::WriteFile { path, text, context }
            &&& Some(path) == installer::marker(dirs, platform)
            &&& path::path_text(exe) matches Some(exe_text)
            &&& entry_text(exe_text, dirs, platform) == Some(text)
        }),
{
}

/// The entries of two programs differ, so registering anew from another place
/// changes what is started.
pub proof fn law_other_program_gives_other_entry(
    one: Seq<char>,
    other: Seq<char>,
    dirs: BaseDirsView,
    platform: Platform,
)
    requires
        entry_text(one, dirs, platform) is Some,
        entry_text(one, dirs, platform) == entry_text(other, dirs, platform),
    ensures
        one == other,
{
    let text_one = entry_text(one, dirs, platform)->0;
    let text_other = entry_text(other, dirs, platform)->0;
    match platform {
        Platform::Windows => {
            reveal_strlit("\"\"");
            let quotes = "\"\""@;
            assert(quotes =~= seq!['"', '"']);
            let head = "Set oShell = CreateObject(\"WScript.Shell\")\r\noShell.Run \"\"\""@;
            let tail = "\"\" watch\", 0, False\r\n"@;
            let in_one = text::replaced(one, '"', quotes);
            let in_other = text::replaced(other, '"', quotes);
            lemma_between(head, in_one, in_other, tail);
            powershell::law_doubled_quotes_are_read_back(one, '"');
            powershell::law_doubled_quotes_are_read_back(other, '"');
        },
        Platform::MacOs => {
            let log = path::path_text(macos::log_file(dirs)->0)->0;
            let head = macos::PLIST_HEAD@ + macos::LABEL@ + macos::PLIST_PROGRAM@;
            let tail = macos::PLIST_STDOUT@ + log + macos::PLIST_STDERR@ + log + macos::PLIST_TAIL@;
            assert(text_one =~= head + one + tail);
            assert(text_other =~= head + other + tail);
            lemma_between(head, one, other, tail);
        },
        _ => {
            lemma_between(linux::UNIT_HEAD@, one, other, linux::UNIT_TAIL@);
        },
    }
}

proof fn lemma_between(head: Seq<char>, one: Seq<char>, other: Seq<char>, tail: Seq<char>)
    requires
        head + one + tail == head + other + tail,
    ensures
        one == other,
{
    let whole = head + one + tail;
    let same = head + other + tail;
    assert(whole.len() == same.len());
    assert(one.len() == other.len());
    assert(one =~= whole.subrange(head.len() as int, (head.len() + one.len()) as int));
    assert(other =~= same.subrange(head.len() as int, (head.len() + other.len()) as int));
}

/// Registering cannot succeed without the system having taken note of the
/// entry: no step before those on the settings can be passed over, and the
/// last of these either is the command that has it take note, and ends the
/// work with a failure unless it succeeds, or says why it could not be asked.
pub proof fn law_install_needs_the_registration(
    exe: PathView,
    dirs: BaseDirsView,
    platform: Platform,
    from_tray: bool,
    i: int,
    reply: ReplyView,
)
    requires
        installer::install_plan(Ok(exe), dirs, platform, from_tray) is Ok,
        0 <= i < installer::register_steps(exe, dirs, platform, from_tray)->Ok_0.len(),
    ensures
        ({
            let steps = installer::install_plan(Ok(exe), dirs, platform, from_tray)->Ok_0;
            let registering = installer::register_steps(exe, dirs, platform, from_tray)->Ok_0;
            let step = steps[i];
            &&& registering.is_prefix_of(steps)
            &&& !(plan::outcome(step, reply) is Skip)
            &&& i == registering.len() - 1 ==> {
                ||| step is Abort
                ||| step is Run && (plan::reply_fits(plan::asked(step, Seq::empty()), reply)
                    && !macos::succeeded(reply) ==> plan::outcome(step, reply) is Fail)
            }
        }),
{
}

/// On macOS an agent that is loaded already is unloaded first, so registering
/// can be repeated; that there is none to unload is no failure.
pub proof fn law_agent_is_unloaded_before_it_is_loaded(
    exe: PathView,
    dirs: BaseDirsView,
    entry: PathView,
    entry_text: Seq<char>,
)
    requires
        macos::install_steps(exe, dirs) is Ok,
        macos::plist_file(dirs) == Some(entry),
        path::path_text(entry) == Some(entry_text),
    ensures
        ({
            let steps = macos::install_steps(exe, dirs)->Ok_0;
            let n = steps.len() as int;
            &&& n == 6
            &&& steps[n - 2] == macos::launchctl_step("bootout"@, entry_text, CheckView::Ignore)
            &&& steps[n - 1] matches StepView::Run { program, args, check }
            &&& args[0] == ArgView::Text("bootstrap"@)
            &&& args[2] == ArgView::Text(entry_text)
        }),
{
}

/// Ending autostart removes the very file that registering writes, if it is
/// there, and no other.
pub proof fn law_uninstall_removes_what_install_wrote(
    dirs: BaseDirsView,
    platform: Platform,
    purge: bool,
    entry: PathView,
)
    requires
        installer::uninstall_plan(dirs, platform, purge) is Ok,
        installer::marker(dirs, platform) == Some(entry),
    ensures
        ({
            let steps = installer::uninstall_plan(dirs, platform, purge)->Ok_0;
            &&& exists|i: int|
                0 <= i < steps.len() && (#[trigger] steps[i]) is RemoveFile
            &&& exists|i: int|
                0 <= i < steps.len() && (#[trigger] steps[i]) == (StepView::UnlessExists {
                    path: entry,
                    count: if platform == Platform::MacOs {
                        3
                    } else {
                        1
                    },
                })
            &&& forall|i: int|
                0 <= i < steps.len() ==> ((#[trigger] steps[i]) matches StepView::RemoveFile {
                    path,
                    tell,
                } ==> path == entry)
        }),
{
    let steps = installer::uninstall_plan(dirs, platform, purge)->Ok_0;
    match platform {
        Platform::Windows => {
            assert(steps[1] is UnlessExists);
            assert(steps[2] is RemoveFile);
        },
        Platform::MacOs => {
            assert(steps[0] is UnlessExists);
            assert(steps[3] is RemoveFile);
        },
        _ => {
            assert(steps[1] is UnlessExists);
            assert(steps[2] is RemoveFile);
        },
    }
}

/// Ending autostart touches the settings only when asked to purge them, and
/// then removes their folder and no other.
pub proof fn law_settings_are_removed_only_by_purge(
    dirs: BaseDirsView,
    platform: Platform,
    purge: bool,
    i: int,
)
    requires
        installer::uninstall_plan(dirs, platform, purge) is Ok,
        0 <= i < installer::uninstall_plan(dirs, platform, purge)->Ok_0.len(),
    ensures
        installer::uninstall_plan(dirs, platform, purge)->Ok_0[i] matches StepView::RemoveDir {
            path,
            context,
        } ==> purge && dirs.config is Some && path == config::config_folder(
            dirs.config->0,
            platform,
        ),
{
}

/// Purging does all that ending autostart does, and then removes the settings if they are there.
pub proof fn law_purge_ends_with_the_settings(dirs: BaseDirsView, platform: Platform, dir: PathView)
    requires
        dirs.config == Some(dir),
        installer::uninstall_plan(dirs, platform, false) is Ok,
    ensures
        ({
            let kept = installer::uninstall_plan(dirs, platform, false)->Ok_0;
            let folder = config::config_folder(dir, platform);
            installer::uninstall_plan(dirs, platform, true) == Ok::<
                Seq<StepView>,
                crate::failure::FailureView,
            >(
                kept + seq![
                    StepView::UnlessExists { path: folder, count: 1 },
                    StepView::RemoveDir { path: folder, context: "failed to remove config dir"@ },
                ],
            )
        }),
{
}

/// Registering leaves settings that are there alone, and saves default ones
/// where there are none.
pub proof fn law_install_keeps_existing_settings(
    exe: PathView,
    dirs: BaseDirsView,
    platform: Platform,
    from_tray: bool,
    dir: PathView,
    uid: Seq<char>,
)
    requires
        dirs.config == Some(dir),
        installer::install_plan(Ok(exe), dirs, platform, from_tray) is Ok,
    ensures
        ({
            let steps = installer::install_plan(Ok(exe), dirs, platform, from_tray)->Ok_0;
            let at = (steps.len() - 2) as nat;
            let job = JobView { steps, at, uid };
            &&& plan::job_request(job) == RequestView::Exists(config::config_file(dir, platform))
            &&& plan::job_next(job, ReplyView::Exists(true)).1 == RequestView::Finish(Ok(()))
            &&& plan::job_next(job, ReplyView::Exists(false)).1 == (RequestView::SaveConfig {
                folder: config::config_folder(dir, platform),
                file: config::config_file(dir, platform),
                config: config::default_config(),
            })
        }),
{
}

/// Registering from the tray, where the watcher runs already, registers the
/// same and starts nothing; elsewhere on Windows the task is started too.
pub proof fn law_tray_does_not_start_a_second_watcher(
    vbs: Seq<char>,
    exe: PathView,
    dirs: BaseDirsView,
    platform: Platform,
)
    ensures
        windows::install_script(vbs, true) == windows::register_script(vbs),
        windows::install_script(vbs, false) == windows::install_script(vbs, true)
            + windows::start_script(),
        platform != Platform::Windows ==> installer::install_plan(Ok(exe), dirs, platform, true)
            == installer::install_plan(Ok(exe), dirs, platform, false),
{
}

/// Every answer takes the work at least one step further, so it ends after no
/// more answers than it has steps.
pub proof fn law_work_goes_forward(job: JobView, reply: ReplyView)
    requires
        plan::reply_fits(plan::job_request(job), reply),
    ensures
        job.at < job.steps.len(),
        job.at < plan::job_next(job, reply).0.at <= job.steps.len(),
        plan::job_next(job, reply).0.steps == job.steps,
{
}

/// A step that fails ends the work at once with that failure.
pub proof fn law_failed_step_ends_the_work(
    job: JobView,
    reply: ReplyView,
    f: crate::failure::FailureView,
)
    requires
        plan::reply_fits(plan::job_request(job), reply),
        plan::outcome(job.steps[job.at as int], reply) == OutcomeView::Fail(f),
    ensures
        plan::job_next(job, reply).1 == RequestView::Finish(Err(f)),
        plan::job_next(job, reply).0.at == job.steps.len(),
{
}

/// A step that is only tried never ends the work, whatever comes of it.
pub proof fn law_tried_step_never_ends_the_work(job: JobView, reply: ReplyView)
    requires
        plan::reply_fits(plan::job_request(job), reply),
        ({
            ||| job.steps[job.at as int] matches StepView::Run { check, .. } && check
                == CheckView::Ignore
            ||| job.steps[job.at as int] matches StepView::RemoveFile { tell, .. } && tell is None
            ||| job.steps[job.at as int] is SaveDefaults
        }),
    ensures
        plan::job_next(job, reply).0 == (JobView { at: job.at + 1, ..job }),
        plan::job_next(job, reply).1 == plan::job_request(plan::job_next(job, reply).0),
{
}

/// Work succeeds only when it has come to its end without a failure.
pub proof fn law_work_succeeds_at_its_end(job: JobView, reply: ReplyView)
    requires
        plan::reply_fits(plan::job_request(job), reply),
        plan::job_next(job, reply).1 == RequestView::Finish(Ok(())),
    ensures
        plan::job_next(job, reply).0.at == job.steps.len(),
        !(plan::outcome(job.steps[job.at as int], reply) is Fail),
{
}

/// Asking whether autostart is registered looks for the file that registering
/// writes; where it is missing, nothing else is asked.
pub proof fn law_status_looks_for_the_entry(dirs: BaseDirsView, platform: Platform, entry: PathView)
    requires
        platform == Platform::MacOs || platform == Platform::Linux,
        installer::marker(dirs, platform) == Some(entry),
    ensures
        status::status_begin(dirs, platform) matches Ok((phase, request)) && request
            == StatusRequestView::Exists(entry) && status::status_next(
            phase,
            ReplyView::Exists(false),
        ).1 is Print,
{
}

/// How many answers a question can still take.
pub open spec fn answers_left(phase: StatusPhaseView) -> nat {
    match phase {
        StatusPhaseView::Unit(_) | StatusPhaseView::Agent(_) => 3,
        StatusPhaseView::UnitActive(_) | StatusPhaseView::AgentUid(_) => 2,
        StatusPhaseView::UnitEnabled(_, _) | StatusPhaseView::AgentLoaded(_, _)
        | StatusPhaseView::Task => 1,
        StatusPhaseView::Ended => 0,
    }
}

/// The question whether autostart is registered is answered after three
/// answers at most: it then tells the user something or says why it cannot.
pub proof fn law_status_comes_to_an_end(phase: StatusPhaseView, reply: ReplyView)
    requires
        status::status_answers(phase, reply),
    ensures
        answers_left(phase) <= 3,
        answers_left(status::status_next(phase, reply).0) < answers_left(phase),
        status::status_next(phase, reply).0 is Ended <==> {
            ||| status::status_next(phase, reply).1 is Print
            ||| status::status_next(phase, reply).1 is Fail
        },
{
}

/// Registering takes the steps of the system at hand and then those on the
/// settings. It fails as the system's own part fails, where there is no such
/// part, or where the program does not know its path.
pub proof fn law_install_follows_the_system(
    exe: PathView,
    dirs: BaseDirsView,
    platform: Platform,
    from_tray: bool,
    cause: Seq<char>,
    dir: PathView,
)
    ensures
        ({
            let own = match platform {
                Platform::Windows => windows::install_steps(exe, dirs, from_tray),
                Platform::MacOs => macos::install_steps(exe, dirs),
                _ => linux::install_steps(exe, dirs),
            };
            let folder = path::joined(dir, "shotpaste"@, platform);
            let file = path::joined(folder, "config.toml"@, platform);
            let all = installer::install_plan(Ok(exe), dirs, platform, from_tray);
            &&& platform != Platform::Unsupported ==> {
                &&& own matches Err(f) ==> all == Err::<Seq<StepView>, FailureView>(f)
                &&& own matches Ok(steps) ==> (dirs.config == Some(dir) ==> all == Ok::<
                    Seq<StepView>,
                    FailureView,
                >(
                    steps.push(StepView::IfExists { path: file, count: 1 }).push(
                        StepView::SaveDefaults { folder, file },
                    ),
                ))
                &&& own matches Ok(steps) ==> (dirs.config is None ==> all == Ok::<
                    Seq<StepView>,
                    FailureView,
                >(steps))
                &&& installer::install_plan(Err(cause), dirs, platform, from_tray) == Err::<
                    Seq<StepView>,
                    FailureView,
                >(
                    FailureView {
                        context: "failed to determine shotpaste binary path"@,
                        cause: Some(cause),
                    },
                )
            }
            &&& platform == Platform::Unsupported ==> all == Err::<Seq<StepView>, FailureView>(
                FailureView {
                    context: "`shotpaste install` is not implemented on this platform"@,
                    cause: None,
                },
            )
        }),
{
    let own = match platform {
        Platform::Windows => windows::install_steps(exe, dirs, from_tray),
        Platform::MacOs => macos::install_steps(exe, dirs),
        _ => linux::install_steps(exe, dirs),
    };
    if platform != Platform::Unsupported && own is Ok {
        let steps = own->Ok_0;
        let folder = path::joined(dir, "shotpaste"@, platform);
        let file = path::joined(folder, "config.toml"@, platform);
        let all = installer::install_plan(Ok(exe), dirs, platform, from_tray)->Ok_0;
        if dirs.config == Some(dir) {
            assert(all =~= steps.push(StepView::IfExists { path: file, count: 1 }).push(
                StepView::SaveDefaults { folder, file },
            ));
        }
        if dirs.config is None {
            assert(all =~= steps);
        }
    }
}

/// Ending autostart takes the steps of the system at hand, and none on the
/// settings unless they are to be purged and there is a place for them.
pub proof fn law_uninstall_follows_the_system(dirs: BaseDirsView, platform: Platform, purge: bool)
    ensures
        ({
            let all = installer::uninstall_plan(dirs, platform, purge);
            &&& platform == Platform::Unsupported ==> all == Err::<Seq<StepView>, FailureView>(
                FailureView {
                    context: "`shotpaste uninstall` is not implemented on this platform"@,
                    cause: None,
                },
            )
            &&& !purge || dirs.config is None ==> {
                &&& platform == Platform::Windows ==> all == Ok::<Seq<StepView>, FailureView>(
                    windows::uninstall_steps(dirs),
                )
                &&& platform == Platform::Linux ==> all == Ok::<Seq<StepView>, FailureView>(
                    linux::uninstall_steps(dirs),
                )
                &&& platform == Platform::MacOs ==> all == macos::uninstall_steps(dirs)
            }
            &&& platform == Platform::MacOs && macos::uninstall_steps(dirs) is Err ==> all
                == macos::uninstall_steps(dirs)
        }),
{
    if dirs.config is None && purge {
        if installer::unregister_steps(dirs, platform) is Ok {
            let steps = installer::unregister_steps(dirs, platform)->Ok_0;
            assert(steps + installer::purge_steps(dirs, platform) =~= steps);
        }
    }
}

/// The file that shows that autostart is registered is the one that each
/// system's own part writes.
pub proof fn law_marker_is_the_entry(dirs: BaseDirsView)
    ensures
        installer::marker(dirs, Platform::Windows) == windows::vbs_file(dirs),
        installer::marker(dirs, Platform::MacOs) == macos::plist_file(dirs),
        installer::marker(dirs, Platform::Linux) == linux::unit_file(dirs),
        installer::marker(dirs, Platform::Unsupported) is None,
{
}

} // verus!
