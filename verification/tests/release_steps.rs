use thunderbird_release::mach::{CommandOutput, Mach, MachCommand, MachError};
use thunderbird_release::release::channel::Channel;
use thunderbird_release::release::cli::CommonArgs;
use thunderbird_release::release::error::CliError;
use thunderbird_release::release::pin::{
    major_version, pin_commit_message, set_key, tags_url, update_gecko_rev_content, TagData,
    TagMatcher,
};
use thunderbird_release::release::repo::{
    repos_for_channel, try_repos_for_channel, CommRepository, MozillaRepository, Repositories,
    RepositoryKind,
};
use thunderbird_release::release::utils::{
    build_repos_from_args, log_output, normalize_uplift_message, try_build_repos_from_args,
};
use thunderbird_release::release::pin::pick_tag;
use thunderbird_release::release::utils::stamp_approver;
use thunderbird_release::release_cli::commands::run_mach as checked_run_mach;
use thunderbird_release::release_cli::utils::{compare_patches, extract_change_lines};

fn common(dir: &str, channel: Channel, version: Option<&str>) -> CommonArgs {
    CommonArgs { comm_dir: dir.to_string(), channel, version: version.map(|v| v.to_string()) }
}

fn tag(tag: &str, node: &str) -> TagData {
    TagData { tag: tag.to_string(), node: node.to_string() }
}

#[test]
fn repositories_of_each_channel() {
    let (comm, moz) = repos_for_channel("/src/mozilla/comm", &Channel::Beta, "");
    assert_eq!(comm.cwd, "/src/mozilla/comm");
    assert_eq!(moz.cwd, "/src/mozilla");
    assert_eq!(comm.kind.name(), "comm-beta");
    assert_eq!(comm.kind.url(), "https://hg.mozilla.org/releases/comm-beta");
    assert_eq!(moz.kind.name(), "beta");
    assert_eq!(moz.kind.url(), "https://hg.mozilla.org/releases/mozilla-beta");
    assert!(!comm.is_esr());

    let (comm, moz) = repos_for_channel("/src/mozilla/comm", &Channel::Release, "");
    assert_eq!(comm.kind.url(), "https://hg.mozilla.org/releases/comm-release");
    assert_eq!(moz.kind.url(), "https://hg.mozilla.org/releases/mozilla-release");

    let (comm, moz) = repos_for_channel("/src/mozilla/comm", &Channel::Esr, "140");
    assert!(comm.is_esr() && moz.is_esr());
    assert_eq!(comm.kind.name(), "comm-esr140");
    assert_eq!(moz.kind.name(), "esr140");
    assert_eq!(comm.kind.url(), "https://hg.mozilla.org/releases/comm-esr140");
    assert_eq!(moz.kind.url(), "https://hg.mozilla.org/releases/mozilla-esr140");
}

#[test]
fn comm_dir_without_parent() {
    assert!(try_repos_for_channel("", &Channel::Beta, "").is_none());
    assert!(try_repos_for_channel("/", &Channel::Beta, "").is_none());
    assert!(try_repos_for_channel("comm", &Channel::Beta, "").is_some());
    assert!(try_build_repos_from_args(&common("/", Channel::Release, None)).is_none());
}

#[test]
fn repository_kinds_by_hand() {
    let kind = RepositoryKind::Mozilla(MozillaRepository::Esr("128".to_string()));
    assert_eq!(kind.name(), "esr128");
    assert_eq!(kind.url(), "https://hg.mozilla.org/releases/mozilla-esr128");
    let kind = RepositoryKind::Comm(CommRepository::Esr("128".to_string()));
    assert_eq!(kind.url(), "https://hg.mozilla.org/releases/comm-esr128");
    let kind = RepositoryKind::Comm(CommRepository::Release);
    assert_eq!(kind.name(), "comm-release");
}

#[test]
fn esr_requires_version() {
    match build_repos_from_args(&common("/a/comm", Channel::Esr, None)) {
        Err(CliError::MissingArgument(m)) => assert_eq!(m, "--version is required when --channel esr"),
        other => panic!("unexpected {:?}", other.is_ok()),
    }
    let repos = build_repos_from_args(&common("/a/comm", Channel::Esr, Some("115"))).unwrap();
    assert_eq!(repos.comm().kind.name(), "comm-esr115");
    assert_eq!(repos.moz().cwd, "/a");
    let repos = thunderbird_release::release_cli::utils::build_repos_from_args(&common(
        "/a/comm",
        Channel::Beta,
        None,
    ))
    .unwrap();
    assert_eq!(repos.moz().kind.name(), "beta");
    assert_eq!(repos.moz().cwd, "/a");
    match thunderbird_release::release_cli::utils::build_repos_from_args(&common(
        "/a/comm",
        Channel::Esr,
        None,
    )) {
        Err(CliError::MissingArgument(m)) => assert_eq!(m, "--version"),
        other => panic!("unexpected {:?}", other.is_ok()),
    }
    let repos = thunderbird_release::release_cli::utils::try_build_repos_from_args(&common(
        "/a/comm",
        Channel::Esr,
        Some("128"),
    ))
    .unwrap()
    .unwrap();
    assert_eq!(repos.comm().kind.url(), "https://hg.mozilla.org/releases/comm-esr128");
    assert!(thunderbird_release::release_cli::utils::try_build_repos_from_args(&common(
        "/",
        Channel::Beta,
        None,
    ))
    .is_none());
}

#[test]
fn uplift_message_collapses_reviewer_and_approver() {
    let desc = "Bug 123 - fix thing r=john a=bob DONTBUILD\nDetails here\nr=john";
    let out = normalize_uplift_message(desc, "john").unwrap();
    assert_eq!(out, "Bug 123 - fix thing r+a=john \nDetails here\nr=john");
}

#[test]
fn uplift_message_appends_approver() {
    assert_eq!(
        normalize_uplift_message("Bug 1 - x r=alice", "bob").unwrap(),
        "Bug 1 - x r=alice a=bob"
    );
    assert_eq!(
        normalize_uplift_message("Bug 2 - y r+a=carol", "dave").unwrap(),
        "Bug 2 - y r=carol a=dave"
    );
    assert_eq!(
        normalize_uplift_message("Bug 3 - z r=erin a=Frank9", "erin").unwrap(),
        "Bug 3 - z r+a=erin "
    );
}

#[test]
fn tag_selection_scans_ten_newest() {
    let matcher = TagMatcher::new("128").unwrap();
    assert!(matcher.matches("FIREFOX_RELEASE_128_BASE"));
    assert!(matcher.matches("FIREFOX_128_0_1_RELEASE"));
    assert!(matcher.matches("FIREFOX_128_0esr_BUILD2"));
    assert!(!matcher.matches("FIREFOX_129_0_RELEASE"));
    assert!(!matcher.matches("FIREFOX_RELEASE_128_END"));
    let tags = vec![
        tag("tip", "0000"),
        tag("FIREFOX_NIGHTLY_129_END", "1111"),
        tag("FIREFOX_128_0_2_BUILD1", "2222"),
        tag("FIREFOX_RELEASE_128_BASE", "3333"),
    ];
    let found = matcher.select(&tags).unwrap();
    assert_eq!(found.tag, "FIREFOX_128_0_2_BUILD1");
    assert_eq!(found.node, "2222");

    let mut late = vec![];
    for i in 0..10 {
        late.push(tag(&format!("OTHER_{}", i), "x"));
    }
    late.push(tag("FIREFOX_RELEASE_128_BASE", "y"));
    match matcher.select(&late) {
        Err(CliError::AnyError(m)) => {
            assert_eq!(m, "no matching tag found in first 10 tags for version 128")
        }
        other => panic!("unexpected {:?}", other.is_ok()),
    }
}

#[test]
fn tag_pattern_that_does_not_compile() {
    match TagMatcher::new("(") {
        Err(CliError::AnyError(m)) => assert!(!m.is_empty()),
        other => panic!("unexpected {:?}", other.is_ok()),
    }
}

#[test]
fn set_key_replaces_first_active_line() {
    let mut lines = vec![
        "# GECKO_HEAD_REF: commented".to_string(),
        "GECKO_HEAD_REF: old".to_string(),
        "GECKO_HEAD_REF: second".to_string(),
    ];
    assert!(set_key(&mut lines, "GECKO_HEAD_REF", "new"));
    assert_eq!(lines, vec!["# GECKO_HEAD_REF: commented", "GECKO_HEAD_REF: new", "GECKO_HEAD_REF: second"]);
    assert!(!set_key(&mut lines, "GECKO_HEAD_REV", "abc"));
    assert_eq!(lines.len(), 3);
}

#[test]
fn gecko_rev_keeps_comments_and_reads_back() {
    let content = "GECKO_HEAD_REPOSITORY: https://old\nOTHER: 1\n# GECKO_HEAD_REV: keep me\n# trailing comment\n";
    let out = update_gecko_rev_content(
        content,
        "https://hg.mozilla.org/releases/mozilla-beta",
        &tag("FIREFOX_RELEASE_128_BASE", "0123456789abcdef"),
    )
    .unwrap();
    assert_eq!(
        out,
        "GECKO_HEAD_REPOSITORY: https://hg.mozilla.org/releases/mozilla-beta\n\
GECKO_HEAD_REF: FIREFOX_RELEASE_128_BASE\n\
GECKO_HEAD_REV: 0123456789abcdef\n\
OTHER: 1\n\
# GECKO_HEAD_REV: keep me\n\
# trailing comment\n"
    );
    let existing = "GECKO_HEAD_REPOSITORY: a\nGECKO_HEAD_REF: b\nGECKO_HEAD_REV: c\n";
    let out = update_gecko_rev_content(existing, "u", &tag("t", "n")).unwrap();
    assert_eq!(out, "GECKO_HEAD_REPOSITORY: u\nGECKO_HEAD_REF: t\nGECKO_HEAD_REV: n\n");
}

#[test]
fn gecko_rev_without_repository_line() {
    match update_gecko_rev_content("# nothing\n", "u", &tag("t", "n")) {
        Err(CliError::AnyError(m)) => assert_eq!(m, "GECKO_HEAD_REPOSITORY not found in .gecko_rev.yml"),
        other => panic!("unexpected {:?}", other.is_ok()),
    }
}

#[test]
fn version_and_messages() {
    assert_eq!(major_version("  128.0.1esr\n"), "128");
    assert_eq!(major_version("140"), "140");
    assert_eq!(tags_url("mozilla-beta"), "https://hg.mozilla.org/releases/mozilla-beta/json-tags");
    let t = tag("FIREFOX_RELEASE_128_BASE", "0123456789abcdef0123");
    assert_eq!(
        pin_commit_message("mozilla-release", &t, "kryoseu"),
        "No bug - Pin mozilla-release (FIREFOX_RELEASE_128_BASE/0123456789ab). r=release a=kryoseu"
    );
}

#[test]
fn log_output_splits_lines() {
    assert_eq!(log_output("a\r\nb\n\nc".to_string()), vec!["a", "b", "", "c"]);
    assert!(log_output(String::new()).is_empty());
}

#[test]
fn patch_change_lines() {
    let patch = "# HG changeset patch\n+not a change\ndiff -r 1 a.txt\n--- a/a.txt\n+++ b/a.txt\n@@ -1 +1 @@\n-old\n+new\n context\n";
    assert_eq!(extract_change_lines(patch), vec!["-old", "+new"]);
    let grafted = "# HG changeset patch\n# Parent other\ndiff -r 2 a.txt\n--- a/a.txt\n+++ b/a.txt\n@@ -3 +3 @@\n-old\n+new\n";
    assert!(compare_patches("abc", patch, grafted).is_ok());
    let diverged = "diff -r 2 a.txt\n-old\n+newer\n";
    match compare_patches("abc", patch, diverged) {
        Err(CliError::CommandFailed(m)) => assert_eq!(m, "patch abc diverged after graft"),
        other => panic!("unexpected {:?}", other.is_ok()),
    }
}

#[test]
fn mach_arguments_and_outcomes() {
    assert_eq!(MachCommand::RustCheckUpstream.into_args(), vec!["tb-rust", "check-upstream"]);
    assert_eq!(MachCommand::RustSync.into_args(), vec!["tb-rust", "sync"]);
    assert_eq!(MachCommand::RustVendor.into_args(), vec!["tb-rust", "vendor"]);
    let out = CommandOutput { stdout: vec![], stderr: vec![], return_code: 88 };
    assert!(out.is_acceptable_exit_code(MachCommand::RustCheckUpstream));
    assert!(!out.is_acceptable_exit_code(MachCommand::RustSync));
    let mach = Mach::new("/src/mozilla".to_string());
    assert_eq!(mach.cwd, "/src/mozilla");
    let ok = CommandOutput { stdout: b"fine\n".to_vec(), stderr: vec![], return_code: 0 };
    assert_eq!(mach.run_command_string(ok).unwrap(), "fine\n");
    let bad = CommandOutput { stdout: vec![], stderr: b"boom".to_vec(), return_code: 3 };
    match mach.run_command_string(bad) {
        Err(MachError::CommandFailed { code, stderr }) => {
            assert_eq!(code, 3);
            assert_eq!(stderr, "boom");
        }
        other => panic!("unexpected {:?}", other),
    }
}

#[test]
fn lenient_mach_check() {
    let out = CommandOutput { stdout: vec![], stderr: vec![], return_code: 88 };
    assert_eq!(checked_run_mach(MachCommand::RustCheckUpstream, out).unwrap().return_code, 88);
    let out = CommandOutput { stdout: vec![], stderr: vec![], return_code: 88 };
    match checked_run_mach(MachCommand::RustSync, out) {
        Err(CliError::CommandFailed(m)) => assert_eq!(m, "mach tb-rust sync failed with exit code 88"),
        other => panic!("unexpected {:?}", other.is_ok()),
    }
    let out = CommandOutput { stdout: vec![], stderr: vec![], return_code: -1 };
    match checked_run_mach(MachCommand::RustVendor, out) {
        Err(CliError::CommandFailed(m)) => assert_eq!(m, "mach tb-rust vendor failed with exit code -1"),
        other => panic!("unexpected {:?}", other.is_ok()),
    }
}

#[test]
fn repositories_pair() {
    let (comm, moz) = repos_for_channel("/x/comm", &Channel::Beta, "");
    let repos = Repositories::new(comm, moz);
    assert_eq!(repos.comm().cwd, "/x/comm");
    assert_eq!(repos.moz().cwd, "/x");
}

#[test]
fn stamping_after_approvals_are_removed() {
    assert_eq!(stamp_approver("Bug 1 - x r=ann ", "ann"), "Bug 1 - x r+a=ann ");
    assert_eq!(stamp_approver("Bug 1 - x r=ann DONTBUILD", "bob"), "Bug 1 - x r=ann a=bob");
}

#[test]
fn picking_a_tag_from_match_results() {
    let tags = vec![tag("a", "1"), tag("b", "2"), tag("c", "3")];
    assert_eq!(pick_tag(&tags, &vec![false, true, true], "7").unwrap().tag, "b");
    match pick_tag(&tags, &vec![false, false], "7") {
        Err(CliError::AnyError(m)) => assert_eq!(m, "no matching tag found in first 10 tags for version 7"),
        other => panic!("unexpected {:?}", other.is_ok()),
    }
}
