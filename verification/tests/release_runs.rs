use thunderbird_release::mach::{CommandOutput, MachCommand};
use thunderbird_release::release::channel::Channel;
use thunderbird_release::release::cli::{Cli, Command, CommonArgs};
use thunderbird_release::release::commands::{PinRun, UpliftRun};
use thunderbird_release::release::error::CliError;
use thunderbird_release::release::pin::TagData;
use thunderbird_release::release::repo::{repos_for_channel, Repositories};
use thunderbird_release::release::run::{Event, Repo, Step};
use thunderbird_release::release::stages::{RustSyncRun, VendorRun, Workflow};
use thunderbird_release::release_cli::commands::all;

fn common(channel: Channel, version: Option<&str>) -> CommonArgs {
    CommonArgs {
        comm_dir: "/src/mozilla/comm".to_string(),
        channel,
        version: version.map(|v| v.to_string()),
    }
}

fn repos(channel: Channel, version: &str) -> Repositories {
    let (comm, moz) = repos_for_channel("/src/mozilla/comm", &channel, version);
    Repositories::new(comm, moz)
}

fn text(s: &str) -> Event {
    Event::Text(s.to_string())
}

fn mach_done(code: i32, stdout: &str) -> Event {
    Event::MachDone(CommandOutput { stdout: stdout.as_bytes().to_vec(), stderr: b"err".to_vec(), return_code: code })
}

fn hg_args(step: &Step) -> (Repo, Vec<String>) {
    match step {
        Step::Hg(repo, args) => (*repo, args.clone()),
        other => panic!("expected an hg step, got {:?}", other),
    }
}

fn tags() -> Vec<TagData> {
    vec![
        TagData { tag: "tip".to_string(), node: "ffff".to_string() },
        TagData { tag: "FIREFOX_128_0_1_RELEASE".to_string(), node: "0123456789abcdef".to_string() },
    ]
}

#[test]
fn pin_run_from_version_file_to_commit() {
    let mut run = PinRun::new(&repos(Channel::Release, ""), true);
    match run.next(Event::Proceed) {
        Step::ReadFile { path, context } => {
            assert_eq!(path, "mail/config/version.txt");
            assert!(context);
        }
        other => panic!("unexpected {:?}", other),
    }
    match run.next(text("128.0.1\n")) {
        Step::FetchTags(url) => {
            assert_eq!(url, "https://hg.mozilla.org/releases/mozilla-release/json-tags")
        }
        other => panic!("unexpected {:?}", other),
    }
    match run.next(Event::Tags(tags())) {
        Step::ReadFile { path, context } => {
            assert_eq!(path, ".gecko_rev.yml");
            assert!(context);
        }
        other => panic!("unexpected {:?}", other),
    }
    assert_eq!(run.tag().unwrap().tag, "FIREFOX_128_0_1_RELEASE");
    match run.next(text("GECKO_HEAD_REPOSITORY: x\n# note\n")) {
        Step::WriteFile { path, contents, context } => {
            assert_eq!(path, ".gecko_rev.yml");
            assert_eq!(
                contents,
                "GECKO_HEAD_REPOSITORY: https://hg.mozilla.org/releases/mozilla-release\nGECKO_HEAD_REF: FIREFOX_128_0_1_RELEASE\nGECKO_HEAD_REV: 0123456789abcdef\n# note\n"
            );
            assert_eq!(context, Some("failed to write .gecko_rev.yml".to_string()));
        }
        other => panic!("unexpected {:?}", other),
    }
    assert!(matches!(run.next(Event::Proceed), Step::ReadUser));
    assert!(matches!(run.next(text("kryoseu")), Step::OpenHg(Repo::Comm)));
    let (repo, args) = hg_args(&run.next(Event::Proceed));
    assert_eq!(repo, Repo::Comm);
    assert_eq!(
        args,
        vec![
            "commit",
            "-m",
            "No bug - Pin mozilla-release (FIREFOX_128_0_1_RELEASE/0123456789ab). r=release a=kryoseu",
            ".gecko_rev.yml"
        ]
    );
    let (_, args) = hg_args(&run.next(text("")));
    assert_eq!(args, vec!["log", "-r", ".", "-T", "{node}"]);
    assert!(matches!(run.next(text("abcdef")), Step::Done));
    assert!(matches!(run.next(Event::Proceed), Step::Done));
}

#[test]
fn pin_run_without_matching_tag() {
    let mut run = PinRun::new(&repos(Channel::Beta, ""), false);
    run.next(Event::Proceed);
    run.next(text("130.0\n"));
    match run.next(Event::Tags(tags())) {
        Step::Failed(CliError::AnyError(m)) => {
            assert_eq!(m, "no matching tag found in first 10 tags for version 130")
        }
        other => panic!("unexpected {:?}", other),
    }
    assert!(matches!(run.next(Event::Proceed), Step::Done));
}

#[test]
fn uplift_run_grafts_and_stamps() {
    let revs = vec!["abc".to_string()];
    let mut run = UpliftRun::new("john", &revs, false);
    assert!(matches!(run.next(Event::Proceed), Step::OpenHg(Repo::Comm)));
    for name in ["histedit", "evolve", "firefoxtree"] {
        let (_, args) = hg_args(&run.next(if name == "histedit" { Event::Proceed } else { text("") }));
        assert_eq!(args, vec!["config".to_string(), format!("extensions.{}", name)]);
    }
    match run.next(text("")) {
        Step::Log(Repo::Comm, args) => assert_eq!(args.command(), vec!["log", "-T", "json", "-r", "abc"]),
        other => panic!("unexpected {:?}", other),
    }
    let (_, args) = hg_args(&run.next(Event::Descriptions(vec!["Bug 9 - fix r=john DONTBUILD\nbody".to_string()])));
    assert_eq!(args, vec!["graft", "-r", "abc", "-n"]);
    let (_, args) = hg_args(&run.next(text("")));
    assert_eq!(args, vec!["graft", "-r", "abc"]);
    let (_, args) = hg_args(&run.next(text("")));
    assert_eq!(args, vec!["metaedit", "-m", "Bug 9 - fix r+a=john\nbody"]);
    assert!(matches!(run.next(text("")), Step::Done));
}

#[test]
fn uplift_run_checks_patches() {
    let revs = vec!["abc".to_string()];
    let mut run = UpliftRun::new("john", &revs, true);
    run.next(Event::Proceed);
    run.next(Event::Proceed);
    run.next(text(""));
    run.next(text(""));
    run.next(text(""));
    let (_, args) = hg_args(&run.next(Event::Descriptions(vec!["Bug 9 - fix".to_string()])));
    assert_eq!(args, vec!["export", "-r", "abc"]);
    let (_, args) = hg_args(&run.next(text("diff -r 1 f\n-a\n+b\n")));
    assert_eq!(args, vec!["graft", "-r", "abc", "-n"]);
    run.next(text(""));
    run.next(text(""));
    let (_, args) = hg_args(&run.next(text("")));
    assert_eq!(args, vec!["export", "-r", "."]);
    match run.next(text("diff -r 2 f\n-a\n+c\n")) {
        Step::Failed(CliError::CommandFailed(m)) => assert_eq!(m, "patch abc diverged after graft"),
        other => panic!("unexpected {:?}", other),
    }
}

#[test]
fn uplift_run_with_empty_log_aborts() {
    let revs = vec!["nope".to_string()];
    let mut run = UpliftRun::new("john", &revs, false);
    run.next(Event::Proceed);
    run.next(Event::Proceed);
    run.next(text(""));
    run.next(text(""));
    run.next(text(""));
    assert!(matches!(run.next(Event::Descriptions(vec![])), Step::Abort(_)));
}

#[test]
fn rust_sync_only_when_not_okay() {
    let mut run = RustSyncRun::new();
    assert!(matches!(run.next(Event::Proceed), Step::Mach(MachCommand::RustCheckUpstream)));
    assert!(matches!(run.next(mach_done(0, "Rust dependencies are okay.\n")), Step::Done));

    let mut run = RustSyncRun::new();
    run.next(Event::Proceed);
    assert!(matches!(run.next(mach_done(0, "2 crates differ\n")), Step::Mach(MachCommand::RustSync)));
    assert!(matches!(run.next(mach_done(0, "")), Step::Mach(MachCommand::RustVendor)));
    assert!(matches!(run.next(mach_done(0, "")), Step::Done));

    let mut run = RustSyncRun::new();
    run.next(Event::Proceed);
    match run.next(mach_done(2, "")) {
        Step::Failed(CliError::MachError(e)) => assert!(format!("{:?}", e).contains("err")),
        other => panic!("unexpected {:?}", other),
    }
}

#[test]
fn vendor_run_after_out_of_sync_check() {
    let mut run = VendorRun::new("mozilla-esr140", "kryoseu");
    assert!(matches!(run.next(Event::Proceed, "abcdef"), Step::OpenHg(Repo::Moz)));
    let (repo, args) = hg_args(&run.next(Event::Proceed, "abcdef"));
    assert_eq!(repo, Repo::Moz);
    assert_eq!(args, vec!["update", "-r", "abcdef"]);
    assert!(matches!(run.next(text(""), "abcdef"), Step::Mach(MachCommand::RustCheckUpstream)));
    assert!(matches!(run.next(mach_done(88, ""), "abcdef"), Step::Mach(MachCommand::RustSync)));
    assert!(matches!(run.next(mach_done(0, ""), "abcdef"), Step::Mach(MachCommand::RustVendor)));
    assert!(matches!(run.next(mach_done(0, ""), "abcdef"), Step::OpenHg(Repo::Comm)));
    let (_, args) = hg_args(&run.next(Event::Proceed, "abcdef"));
    assert_eq!(args, vec!["addremove", "third_party/rust"]);
    let (_, args) = hg_args(&run.next(text(""), "abcdef"));
    assert_eq!(
        args,
        vec!["commit", "-m", "No Bug - Vendored Rust from mozilla-esr140. r=release r+a=kryoseu"]
    );
    let (_, args) = hg_args(&run.next(text(""), "abcdef"));
    assert_eq!(args, vec!["log", "-r", ".", "-T", "{node}"]);
    assert!(matches!(run.next(text("n"), "abcdef"), Step::Done));
}

#[test]
fn vendor_run_in_sync_or_refused() {
    let mut run = VendorRun::new("mozilla-beta", "a");
    run.next(Event::Proceed, "n");
    run.next(Event::Proceed, "n");
    run.next(text(""), "n");
    assert!(matches!(run.next(mach_done(0, ""), "n"), Step::Done));

    let mut run = VendorRun::new("mozilla-beta", "a");
    run.next(Event::Proceed, "n");
    run.next(Event::Proceed, "n");
    run.next(text(""), "n");
    match run.next(mach_done(1, ""), "n") {
        Step::Failed(CliError::CommandFailed(m)) => {
            assert_eq!(m, "mach tb-rust check-upstream failed with exit code 1")
        }
        other => panic!("unexpected {:?}", other),
    }
}

fn drive(mut w: Workflow, answers: Vec<Event>) -> Vec<String> {
    let mut seen = Vec::new();
    let mut event = Event::Proceed;
    let mut answers = answers.into_iter();
    loop {
        let step = w.next(event);
        seen.push(format!("{:?}", step));
        match step {
            Step::Done | Step::Failed(_) | Step::Abort(_) => return seen,
            _ => {}
        }
        event = answers.next().unwrap_or(Event::Proceed);
    }
}

#[test]
fn cli_requires_version_for_update_version_and_all() {
    let cmd = Command::UpdateVersion { common: common(Channel::Beta, None) };
    match Cli::run(&cmd) {
        Some(Err(CliError::MissingArgument(m))) => assert_eq!(m, "--version"),
        _ => panic!("expected a missing argument"),
    }
    let cmd = Command::Pin { common: common(Channel::Esr, None) };
    match Cli::run(&cmd) {
        Some(Err(CliError::MissingArgument(m))) => {
            assert_eq!(m, "--version is required when --channel esr")
        }
        _ => panic!("expected a missing argument"),
    }
    let cmd = Command::PullUpdate {
        common: CommonArgs { comm_dir: "/".to_string(), channel: Channel::Beta, version: None },
    };
    assert!(Cli::run(&cmd).is_none());
}

#[test]
fn cli_pull_update_workflow() {
    let w = match Cli::run(&Command::PullUpdate { common: common(Channel::Beta, None) }) {
        Some(Ok(w)) => w,
        _ => panic!("expected a workflow"),
    };
    let seen = drive(w, vec![]);
    assert_eq!(seen.len(), 7);
    assert_eq!(seen[0], "OpenHg(Comm)");
    assert_eq!(seen[1], "OpenHg(Moz)");
    assert_eq!(seen[2], "Hg(Comm, [\"pull\", \"https://hg.mozilla.org/releases/comm-beta\"])");
    assert_eq!(seen[3], "Hg(Comm, [\"up\", \"comm-beta\", \"-C\"])");
    assert_eq!(seen[4], "Hg(Moz, [\"pull\", \"https://hg.mozilla.org/releases/mozilla-beta\"])");
    assert_eq!(seen[5], "Hg(Moz, [\"up\", \"beta\", \"-C\"])");
    assert_eq!(seen[6], "Done");
}

#[test]
fn cli_update_version_workflow() {
    let cmd = Command::UpdateVersion { common: common(Channel::Esr, Some("140.1.0esr")) };
    let w = match Cli::run(&cmd) {
        Some(Ok(w)) => w,
        _ => panic!("expected a workflow"),
    };
    let seen = drive(w, vec![]);
    assert!(seen[0].contains("mail/config/version.txt") && seen[0].contains("\"140.1.0\\n\""));
    assert!(seen[1].contains("mail/config/version_display.txt") && seen[1].contains("\"140.1.0esr\\n\""));
    assert_eq!(seen[2], "OpenHg(Comm)");
    assert!(seen[3].contains("No bug - Set version 140.1.0esr for release. r+a=release"));
    assert_eq!(seen[4], "Hg(Comm, [\"log\", \"-r\", \".\", \"-T\", \"{node}\"])");
    assert_eq!(seen[5], "Done");
}

#[test]
fn cli_all_workflow_stops_on_failed_check() {
    let cmd = Command::All {
        common: common(Channel::Release, Some("128")),
        approver: "john".to_string(),
        revs: vec!["abc".to_string()],
    };
    let w = match Cli::run(&cmd) {
        Some(Ok(w)) => w,
        _ => panic!("expected a workflow"),
    };
    let mut answers = vec![];
    for _ in 0..6 {
        answers.push(text(""));
    }
    answers.push(text("128.0\n"));
    answers.push(Event::Tags(tags()));
    answers.push(text("GECKO_HEAD_REPOSITORY: x\n"));
    answers.push(Event::Proceed);
    answers.push(text("me"));
    answers.push(Event::Proceed);
    answers.push(text(""));
    answers.push(text("node"));
    answers.push(mach_done(1, ""));
    let seen = drive(w, answers);
    assert!(seen.iter().any(|s| s.starts_with("FetchTags")));
    assert_eq!(seen[seen.len() - 2], "Mach(RustCheckUpstream)");
    assert!(seen[seen.len() - 1].starts_with("Failed(MachError("));
}

#[test]
fn release_cli_all_plan_runs_vendoring_at_pinned_node() {
    let revs: Vec<String> = vec![];
    let w = all(&repos(Channel::Beta, ""), "", "john", &revs);
    let mut answers = vec![];
    for _ in 0..6 {
        answers.push(text(""));
    }
    answers.push(text("128.0\n"));
    answers.push(Event::Tags(tags()));
    answers.push(text("GECKO_HEAD_REPOSITORY: x\n"));
    answers.push(Event::Proceed);
    answers.push(text("me"));
    answers.push(Event::Proceed);
    answers.push(text(""));
    answers.push(text("node"));
    // vendoring: open mozilla, update, check
    answers.push(Event::Proceed);
    answers.push(text(""));
    answers.push(mach_done(0, ""));
    let seen = drive(w, answers);
    let update = seen.iter().position(|s| s.starts_with("Hg(Moz, [\"update\"")).unwrap();
    assert_eq!(seen[update], "Hg(Moz, [\"update\", \"-r\", \"0123456789abcdef\"])");
    assert_eq!(seen[update + 1], "Mach(RustCheckUpstream)");
    // the uplift stage starts after the check reported the dependencies in sync
    assert_eq!(seen[update + 2], "OpenHg(Comm)");
}

#[test]
fn esr_suffix_only_in_display_version() {
    let repos = repos(Channel::Esr, "140");
    for version in ["140", "140esr"] {
        let steps = thunderbird_release::release_cli::commands::update_version(&repos, version);
        match &steps[0] {
            Step::WriteFile { path, contents, .. } => {
                assert_eq!(path, "mail/config/version.txt");
                assert_eq!(contents, "140\n");
            }
            other => panic!("unexpected {:?}", other),
        }
        match &steps[1] {
            Step::WriteFile { path, contents, .. } => {
                assert_eq!(path, "mail/config/version_display.txt");
                assert_eq!(contents, "140esr\n");
            }
            other => panic!("unexpected {:?}", other),
        }
    }
}

#[test]
fn display_version_off_esr_is_as_given() {
    let steps = thunderbird_release::release_cli::commands::update_version(&repos(Channel::Beta, ""), "130");
    match &steps[1] {
        Step::WriteFile { contents, .. } => assert_eq!(contents, "130\n"),
        other => panic!("unexpected {:?}", other),
    }
}

#[test]
fn cli_pin_pulls_both_repositories_first() {
    let w = match Cli::run(&Command::Pin { common: common(Channel::Esr, Some("128")) }) {
        Some(Ok(w)) => w,
        _ => panic!("expected a workflow"),
    };
    let mut answers = vec![];
    for _ in 0..6 {
        answers.push(text(""));
    }
    answers.push(text("128.0\n"));
    let seen = drive(w, answers);
    assert_eq!(seen[0], "OpenHg(Comm)");
    assert_eq!(seen[1], "OpenHg(Moz)");
    assert_eq!(seen[2], "Hg(Comm, [\"pull\", \"https://hg.mozilla.org/releases/comm-esr128\"])");
    assert_eq!(seen[3], "Hg(Comm, [\"up\", \"comm-esr128\", \"-C\"])");
    assert_eq!(seen[4], "Hg(Moz, [\"pull\", \"https://hg.mozilla.org/releases/mozilla-esr128\"])");
    assert_eq!(seen[5], "Hg(Moz, [\"up\", \"esr128\", \"-C\"])");
    assert!(seen[6].starts_with("ReadFile { path: \"mail/config/version.txt\""));
    assert_eq!(seen[7], "FetchTags(\"https://hg.mozilla.org/releases/mozilla-esr128/json-tags\")");
}

#[test]
fn uplift_run_over_two_revisions() {
    let revs = vec!["r1".to_string(), "r2".to_string()];
    let mut run = UpliftRun::new("ann", &revs, false);
    let mut seen = vec![];
    let mut event = Event::Proceed;
    loop {
        let step = run.next(event);
        seen.push(format!("{:?}", step));
        event = match &step {
            Step::Done | Step::Failed(_) | Step::Abort(_) => break,
            Step::Log(..) => Event::Descriptions(vec!["Bug 1 - x".to_string()]),
            Step::OpenHg(_) => Event::Proceed,
            _ => text(""),
        };
    }
    assert_eq!(seen.len(), 13);
    assert!(seen[4].contains("\"r1\""));
    assert_eq!(seen[5], "Hg(Comm, [\"graft\", \"-r\", \"r1\", \"-n\"])");
    assert_eq!(seen[6], "Hg(Comm, [\"graft\", \"-r\", \"r1\"])");
    assert_eq!(seen[7], "Hg(Comm, [\"metaedit\", \"-m\", \"Bug 1 - x a=ann\"])");
    assert!(seen[8].contains("\"r2\""));
    assert_eq!(seen[11], "Hg(Comm, [\"metaedit\", \"-m\", \"Bug 1 - x a=ann\"])");
    assert_eq!(seen[12], "Done");
}
