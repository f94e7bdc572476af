//! The release tool's commands and the arguments they take.
use vstd::prelude::*;

use crate::mach::MachCommand;
use crate::release::channel::Channel;
use crate::release::commands::{
    args_moz_repo_name, args_pull_update_views, pin, pull_update, update_version,
    update_version_views, uplifts,
};
use crate::release::error::CliError;
use crate::release::repo::path_parent;
use crate::release::stages::{
    is_action, MachRun, RustSyncRun, Stage, StageView, StepsRun, Workflow,
};
use crate::release::utils::{
    args_version, esr_version_message, missing_esr_version, moz_url_of,
    try_build_repos_from_args,
};
use crate::text::{from_chars, string_views, to_chars};

verus! {

/// Arguments shared by all subcommands.
#[derive(Debug)]
pub struct CommonArgs {
    /// Path to the comm repo inside the mozilla repo.
    ///
    /// Standard checkout layout has comm/ nested directly inside the
    /// mozilla directory, so the mozilla repo is inferred as the parent
    /// of this path.
    pub comm_dir: String,
    /// Release channel: beta, release, or esr
    pub channel: Channel,
    /// Version being released (e.g. "152").
    ///
    /// Required when --channel esr, and for the update-version and
    /// release subcommands.
    pub version: Option<String>,
}

/// The subcommands of the release tool.
#[derive(Debug)]
pub enum Command {
    /// Pull and update both the comm and mozilla repos to the tip of their branch.
    PullUpdate { common: CommonArgs },
    /// Pin .gecko_rev.yml to the most recent suitable Mozilla tag.
    ///
    /// Pulls both the comm and mozilla repos, determines the latest tag
    /// for the current major version, and commits the updated
    /// .gecko_rev.yml in the comm repo.
    Pin { common: CommonArgs },
    /// Graft one or more commits onto the current branch.
    Uplift { common: CommonArgs, approver: String, revs: Vec<String> },
    /// Check which Rust dependencies are out of sync with upstream.
    RustCheckUpstream { common: CommonArgs },
    /// Sync Rust dependencies with upstream.
    RustSync { common: CommonArgs },
    /// Vendor Rust dependencies.
    RustVendor { common: CommonArgs },
    /// Update version.txt and version_display.txt.
    UpdateVersion { common: CommonArgs },
    /// Run the full release workflow in sequence.
    All { common: CommonArgs, approver: String, revs: Vec<String> },
}

/// The arguments shared by all subcommands, of `cmd`.
pub open spec fn command_common(cmd: Command) -> CommonArgs {
    match cmd {
        Command::PullUpdate { common } => common,
        Command::Pin { common } => common,
        Command::Uplift { common, .. } => common,
        Command::RustCheckUpstream { common } => common,
        Command::RustSync { common } => common,
        Command::RustVendor { common } => common,
        Command::UpdateVersion { common } => common,
        Command::All { common, .. } => common,
    }
}

/// The arguments shared by all subcommands, of `cmd`.
pub fn command_common_args(cmd: &Command) -> (res: &CommonArgs)
    ensures
        *res == command_common(*cmd),
{
    match cmd {
        Command::PullUpdate { common } => common,
        Command::Pin { common } => common,
        Command::Uplift { common, .. } => common,
        Command::RustCheckUpstream { common } => common,
        Command::RustSync { common } => common,
        Command::RustVendor { common } => common,
        Command::UpdateVersion { common } => common,
        Command::All { common, .. } => common,
    }
}

/// The argument that is missing for `cmd`, if any: `--version` for the
/// subcommands that need it, or the ESR version for the others.
pub open spec fn missing_argument(cmd: Command) -> Option<Seq<char>> {
    let common = command_common(cmd);
    if (cmd is UpdateVersion || cmd is All) && common.version is None {
        Some("--version"@)
    } else if missing_esr_version(common) {
        Some(esr_version_message())
    } else {
        None
    }
}

/// What the stages of `cmd` do.
pub open spec fn command_plan(cmd: Command) -> Seq<StageView> {
    let common = command_common(cmd);
    let version = common.version->Some_0@;
    let pin = StageView::Pin(
        args_moz_repo_name(common),
        moz_url_of(common.channel, args_version(common)),
        true,
    );
    match cmd {
        Command::PullUpdate { .. } => seq![StageView::Steps(args_pull_update_views(common))],
        Command::Pin { .. } => seq![StageView::Steps(args_pull_update_views(common)), pin],
        Command::Uplift { approver, revs, .. } => seq![
            StageView::Uplift(approver@, string_views(revs@), false),
        ],
        Command::RustCheckUpstream { .. } => seq![StageView::Mach(MachCommand::RustCheckUpstream)],
        Command::RustSync { .. } => seq![StageView::Mach(MachCommand::RustSync)],
        Command::RustVendor { .. } => seq![StageView::Mach(MachCommand::RustVendor)],
        Command::UpdateVersion { .. } => seq![
            StageView::Steps(update_version_views(version, common.channel == Channel::Esr)),
        ],
        Command::All { approver, revs, .. } => seq![
            StageView::Steps(args_pull_update_views(common)),
            pin,
        ] + (if common.channel == Channel::Esr {
            seq![StageView::Steps(update_version_views(version, true))]
        } else {
            seq![]
        }) + seq![StageView::SyncRust, StageView::Uplift(approver@, string_views(revs@), false)],
    }
}

/// The release tool.
pub struct Cli;

/// The steps of a list all ask for outside work, and there is one.
proof fn lemma_fresh_steps(s: StepsRun)
    requires
        s.remaining().len() > 0,
        forall|i: int| 0 <= i < s.remaining().len() ==> is_action(#[trigger] s.remaining()[i]),
    ensures
        Stage::Steps(s).is_fresh(),
{
}

impl Cli {
    /// The workflow that carries out `command`: the missing argument when
    /// one is missing, or `None` when the comm directory has no parent
    /// directory to hold the mozilla repository.
    pub fn run(command: &Command) -> (res: Option<Result<Workflow, CliError>>)
        ensures
            missing_argument(*command) matches Some(m) ==> (res matches Some(
                Err(CliError::MissingArgument(a)),
            ) && a@ == m),
            missing_argument(*command) is None && path_parent(command_common(*command).comm_dir@)
                is None ==> res is None,
            missing_argument(*command) is None && path_parent(command_common(*command).comm_dir@)
                is Some ==> (res matches Some(Ok(w)) && w.plan() == command_plan(*command)
                && w.tag() is None && !w.is_finished() && w.well_formed()
                && w.current().is_fresh()),
    {
        let common = command_common_args(command);
        let needs_version = match command {
            Command::UpdateVersion { .. } | Command::All { .. } => true,
            _ => false,
        };
        let version: &str = match &common.version {
            Some(v) => v.as_str(),
            None => {
                if needs_version {
                    proof {
                        reveal_strlit("--version");
                    }
                    return Some(
                        Err(CliError::MissingArgument(from_chars(to_chars("--version").as_slice()))),
                    );
                }
                ""
            },
        };
        match try_build_repos_from_args(common) {
            None => return None,
            Some(Err(e)) => return Some(Err(e)),
            Some(Ok(_)) => {},
        }
        let mut stages: Vec<Stage> = Vec::new();
        match command {
            Command::PullUpdate { .. } => {
                let steps = match pull_update(common) {
                    Ok(s) => StepsRun::new(s),
                    Err(e) => return Some(Err(e)),
                };
                proof {
                    lemma_fresh_steps(steps);
                }
                stages.push(Stage::Steps(steps));
            },
            Command::Pin { .. } => {
                let steps = match pull_update(common) {
                    Ok(s) => StepsRun::new(s),
                    Err(e) => return Some(Err(e)),
                };
                proof {
                    lemma_fresh_steps(steps);
                }
                stages.push(Stage::Steps(steps));
                let p = match pin(common) {
                    Ok(p) => p,
                    Err(e) => return Some(Err(e)),
                };
                stages.push(Stage::Pin(p));
            },
            Command::Uplift { approver, revs, .. } => {
                let u = match uplifts(common, approver.as_str(), revs) {
                    Ok(u) => u,
                    Err(e) => return Some(Err(e)),
                };
                stages.push(Stage::Uplift(u));
            },
            Command::RustCheckUpstream { .. } => {
                stages.push(Stage::Mach(MachRun::new(MachCommand::RustCheckUpstream)));
            },
            Command::RustSync { .. } => {
                stages.push(Stage::Mach(MachRun::new(MachCommand::RustSync)));
            },
            Command::RustVendor { .. } => {
                stages.push(Stage::Mach(MachRun::new(MachCommand::RustVendor)));
            },
            Command::UpdateVersion { .. } => {
                let steps = match update_version(common, version) {
                    Ok(s) => StepsRun::new(s),
                    Err(e) => return Some(Err(e)),
                };
                proof {
                    lemma_fresh_steps(steps);
                }
                stages.push(Stage::Steps(steps));
            },
            Command::All { approver, revs, .. } => {
                let steps = match pull_update(common) {
                    Ok(s) => StepsRun::new(s),
                    Err(e) => return Some(Err(e)),
                };
                proof {
                    lemma_fresh_steps(steps);
                }
                stages.push(Stage::Steps(steps));
                let p = match pin(common) {
                    Ok(p) => p,
                    Err(e) => return Some(Err(e)),
                };
                stages.push(Stage::Pin(p));
                if common.channel == Channel::Esr {
                    let steps = match update_version(common, version) {
                        Ok(s) => StepsRun::new(s),
                        Err(e) => return Some(Err(e)),
                    };
                    proof {
                        lemma_fresh_steps(steps);
                    }
                    stages.push(Stage::Steps(steps));
                }
                stages.push(Stage::SyncRust(RustSyncRun::new()));
                let u = match uplifts(common, approver.as_str(), revs) {
                    Ok(u) => u,
                    Err(e) => return Some(Err(e)),
                };
                stages.push(Stage::Uplift(u));
            },
        }
        let w = Workflow::new(stages);
        assert(w.plan() =~= command_plan(*command));
        Some(Ok(w))
    }
}

/// The full workflow runs the stages of the other commands in order: the
/// pull and update of `pull-update`, the pin stage of `pin`, on ESR the
/// version bump of `update-version` right after the pin (and none off ESR),
/// the Rust sync, and the uplift of `uplift`.
pub proof fn lemma_all_runs_the_commands(cmd: Command)
    requires
        cmd is All,
        missing_argument(cmd) is None,
    ensures
        ({
            let common = command_common(cmd);
            let plan = command_plan(cmd);
            &&& plan[0] == command_plan(Command::PullUpdate { common })[0]
            &&& plan[1] == command_plan(Command::Pin { common })[1]
            &&& common.channel == Channel::Esr ==> {
                &&& plan.len() == 5
                &&& plan[2] == command_plan(Command::UpdateVersion { common })[0]
                &&& plan[3] == StageView::SyncRust
            }
            &&& common.channel != Channel::Esr ==> plan.len() == 4 && plan[2] == StageView::SyncRust
            &&& plan.last() == match cmd {
                Command::All { approver, revs, .. } => command_plan(
                    Command::Uplift { common, approver, revs },
                )[0],
                _ => StageView::SyncRust,
            }
        }),
{
}

} // verus!
