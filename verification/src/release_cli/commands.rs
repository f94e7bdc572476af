//! The release commands of `release-cli`: the same steps as the release
//! tool, with patch checks on uplifts, a lenient `./mach` upstream check and
//! the full release workflow.
use vstd::prelude::*;

use crate::mach::{mach_args, CommandOutput, MachCommand};
use crate::release::commands::{
    lemma_pull_update_actions, lemma_update_version_actions, moz_repo_name_of, pull_update_steps, repos_pull_update_views, update_version_views,
    version_steps, PinPhase, PinRun, UpliftPhase, UpliftRun,
};
use crate::release::error::CliError;
use crate::release::repo::{kind_url, Repositories};
use crate::release::run::{step_views, Step};
use crate::release::stages::{
    is_action, Stage, StageView, StepsRun, VendorRun, Workflow,
};
use crate::text::{from_chars, push_signed_decimal, push_str, signed_decimal, string_views};

verus! {

/// The `./mach` arguments of `cmd` as one line.
pub open spec fn mach_line(cmd: MachCommand) -> Seq<char> {
    mach_args(cmd)[0] + " "@ + mach_args(cmd)[1]
}

/// The message of the failure of `./mach` with `cmd`.
pub open spec fn mach_failure_message(cmd: MachCommand, code: i32) -> Seq<char> {
    "mach "@ + mach_line(cmd) + " failed with exit code "@ + signed_decimal(code as int)
}

/// Whether `code` is an exit code `./mach` may end `cmd` with: zero, or
/// the out-of-sync code of the upstream check.
pub open spec fn acceptable_exit(cmd: MachCommand, code: i32) -> bool {
    code == 0 || (cmd == MachCommand::RustCheckUpstream && code == 88)
}

/// The output of a finished `./mach` run of `cmd`, or the failure when its
/// exit code is not acceptable for `cmd`.
pub fn run_mach(cmd: MachCommand, output: CommandOutput) -> (res: Result<CommandOutput, CliError>)
    ensures
        acceptable_exit(cmd, output.return_code) ==> res == Ok::<CommandOutput, CliError>(output),
        !acceptable_exit(cmd, output.return_code) ==> (res matches Err(CliError::CommandFailed(m))
            && m@ == mach_failure_message(cmd, output.return_code)),
{
    if !output.is_acceptable_exit_code(cmd) {
        let args = cmd.into_args();
        assert(args@.len() == 2) by {
            assert(string_views(args@).len() == mach_args(cmd).len());
        }
        assert(args@[0]@ == mach_args(cmd)[0] && args@[1]@ == mach_args(cmd)[1]) by {
            assert(string_views(args@)[0] == args@[0]@);
            assert(string_views(args@)[1] == args@[1]@);
        }
        let mut message: Vec<char> = Vec::new();
        push_str(&mut message, "mach ");
        push_str(&mut message, args[0].as_str());
        push_str(&mut message, " ");
        push_str(&mut message, args[1].as_str());
        push_str(&mut message, " failed with exit code ");
        push_signed_decimal(&mut message, output.return_code as i64);
        proof {
            assert(message@ =~= mach_failure_message(cmd, output.return_code));
        }
        return Err(CliError::CommandFailed(from_chars(message.as_slice())));
    }
    Ok(output)
}

/// Pull and update both the comm and mozilla repositories to the tip of
/// their branch: the steps that do it.
pub fn pull_update(repos: &Repositories) -> (res: Vec<Step>)
    ensures
        step_views(res@) == repos_pull_update_views(*repos),
{
    pull_update_steps(repos)
}

/// Pin `.gecko_rev.yml` in the comm repository to the most recent suitable
/// tag of the mozilla repository, and commit it: the run that does it. The
/// run's tag is the one it pinned.
pub fn pin(repos: &Repositories) -> (res: PinRun)
    ensures
        res.phase() == PinPhase::Start,
        res.moz_repo_name() == moz_repo_name_of(repos.spec_moz().kind),
        res.moz_url() == kind_url(repos.spec_moz().kind),
        !res.version_context(),
{
    PinRun::new(repos, false)
}

/// Graft `revs` onto the comm repository, approved by `approver`, and check
/// that each graft changes the same lines as the original: the run that
/// does it.
pub fn uplifts(repos: &Repositories, approver: &str, revs: &Vec<String>) -> (res: UpliftRun)
    ensures
        res.phase() == UpliftPhase::Start,
        res.approver() == approver@,
        res.revs() == string_views(revs@),
        res.check_patches(),
{
    UpliftRun::new(approver, revs, true)
}

/// Set `version` in the version files of the comm repository and commit
/// them: the steps that do it.
pub fn update_version(repos: &Repositories, version: &str) -> (res: Vec<Step>)
    ensures
        step_views(res@) == update_version_views(version@, repos.spec_comm().spec_is_esr()),
{
    version_steps(version, repos.comm().is_esr())
}

/// What the stages of the full release workflow do.
pub open spec fn all_plan(
    repos: Repositories,
    version: Seq<char>,
    approver: Seq<char>,
    revs: Seq<Seq<char>>,
) -> Seq<StageView> {
    let moz = repos.spec_moz().kind;
    seq![
        StageView::Steps(repos_pull_update_views(repos)),
        StageView::Pin(moz_repo_name_of(moz), kind_url(moz), false),
    ] + (if repos.spec_comm().spec_is_esr() {
        seq![StageView::Steps(update_version_views(version, true))]
    } else {
        seq![]
    }) + seq![
        StageView::Vendor(moz_repo_name_of(moz), approver),
        StageView::Uplift(approver, revs, true),
    ]
}

/// A list of steps that all ask for outside work, as a stage.
fn steps_stage(steps: Vec<Step>) -> (res: Stage)
    requires
        steps@.len() > 0,
        forall|i: int| 0 <= i < steps@.len() ==> is_action(#[trigger] steps@[i]@),
    ensures
        res.is_fresh(),
        res@ == StageView::Steps(step_views(steps@)),
{
    let run = StepsRun::new(steps);
    assert forall|i: int| 0 <= i < run.remaining().len() implies is_action(
        #[trigger] run.remaining()[i],
    ) by {
        assert(run.remaining()[i] == steps@[i]@);
    }
    Stage::Steps(run)
}

/// The full release workflow: pull and update both repositories, pin
/// `.gecko_rev.yml`, bump the version files (ESR only), update the mozilla
/// repository to the pinned changeset and vendor the Rust dependencies
/// when they are out of sync, then graft each uplift.
pub fn all(repos: &Repositories, version: &str, approver: &str, revs: &Vec<String>) -> (res: Workflow)
    ensures
        res.plan() == all_plan(*repos, version@, approver@, string_views(revs@)),
        res.tag() is None,
        !res.is_finished(),
        res.well_formed(),
        res.current().is_fresh(),
{
    let mut stages: Vec<Stage> = Vec::new();
    let steps = pull_update(repos);
    proof {
        lemma_pull_update_actions(*repos);
    }
    assert forall|i: int| 0 <= i < steps@.len() implies is_action(#[trigger] steps@[i]@) by {
        assert(step_views(steps@)[i] == steps@[i]@);
    }
    stages.push(steps_stage(steps));
    stages.push(Stage::Pin(pin(repos)));
    if repos.comm().is_esr() {
        let steps = update_version(repos, version);
        proof {
            lemma_update_version_actions(version@, true);
        }
        assert forall|i: int| 0 <= i < steps@.len() implies is_action(#[trigger] steps@[i]@) by {
            assert(step_views(steps@)[i] == steps@[i]@);
        }
        stages.push(steps_stage(steps));
    }
    let mut name: Vec<char> = Vec::new();
    push_str(&mut name, "mozilla-");
    push_str(&mut name, repos.moz().kind.name().as_str());
    stages.push(Stage::Vendor(VendorRun::new(from_chars(name.as_slice()).as_str(), approver)));
    stages.push(Stage::Uplift(uplifts(repos, approver, revs)));
    let w = Workflow::new(stages);
    assert(w.plan() =~= all_plan(*repos, version@, approver@, string_views(revs@)));
    w
}

} // verus!
