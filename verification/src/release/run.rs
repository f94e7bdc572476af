//! The vocabulary of a release run: the outside steps the release logic
//! asks for, and what each step reports back.
use vstd::prelude::*;

use crate::api::{CommitArgs, LogArgs};

use crate::mach::{CommandOutput, MachCommand};
use crate::release::error::CliError;
use crate::release::pin::TagData;
use crate::text::string_views;

verus! {

/// Which repository a step works in.
#[derive(Debug, Clone, Copy, PartialEq, Eq, Structural)]
pub enum Repo {
    Comm,
    Moz,
}

/// One piece of outside work.
#[derive(Debug)]
pub enum Step {
    /// Start an hg command server in the repository. Answered by `Proceed`.
    OpenHg(Repo),
    /// Run hg with these arguments in the repository; a nonzero exit code
    /// fails the run. Answered by `Text` with the standard output.
    Hg(Repo, Vec<String>),
    /// List log entries with `-T json`; answered by `Descriptions` with
    /// the description of each entry.
    Log(Repo, LogArgs),
    /// Read a file below the comm repository; answered by `Text` with its
    /// contents. When `context` is set, a failure is reported as
    /// "failed to read PATH".
    ReadFile { path: String, context: bool },
    /// Write a file below the comm repository. Answered by `Proceed`. When
    /// `context` is given, a failure is reported with that message.
    WriteFile { path: String, contents: String, context: Option<String> },
    /// Fetch the JSON tag list at this address; answered by `Tags`.
    FetchTags(String),
    /// Read the `USER` environment variable; answered by `Text` with its
    /// value, or "unknown".
    ReadUser,
    /// Run `./mach` in the mozilla repository; answered by `MachDone`.
    Mach(MachCommand),
    /// The run finished.
    Done,
    /// The run stopped with this error.
    Failed(CliError),
    /// The run cannot go on; the process ends abruptly with this message.
    Abort(String),
}

/// What a step means, with its texts as character sequences.
pub enum StepView {
    OpenHg(Repo),
    Hg(Repo, Seq<Seq<char>>),
    Log(Repo, Seq<Seq<char>>),
    ReadFile(Seq<char>, bool),
    WriteFile(Seq<char>, Seq<char>, Option<Seq<char>>),
    FetchTags(Seq<char>),
    ReadUser,
    Mach(MachCommand),
    Done,
    Failed,
    Abort(Seq<char>),
}

impl View for Step {
    type V = StepView;

    open spec fn view(&self) -> StepView {
        match self {
            Step::OpenHg(r) => StepView::OpenHg(*r),
            Step::Hg(r, a) => StepView::Hg(*r, string_views(a@)),
            Step::Log(r, a) => StepView::Log(*r, a.spec_command()),
            Step::ReadFile { path, context } => StepView::ReadFile(path@, *context),
            Step::WriteFile { path, contents, context } => StepView::WriteFile(
                path@,
                contents@,
                match context {
                    Some(c) => Some(c@),
                    None => None,
                },
            ),
            Step::FetchTags(u) => StepView::FetchTags(u@),
            Step::ReadUser => StepView::ReadUser,
            Step::Mach(c) => StepView::Mach(*c),
            Step::Done => StepView::Done,
            Step::Failed(_) => StepView::Failed,
            Step::Abort(m) => StepView::Abort(m@),
        }
    }
}

/// What the previous step reported.
#[derive(Debug)]
pub enum Event {
    /// The step finished with nothing to report; also the first event of a run.
    Proceed,
    /// Text the step produced: command output, file contents, a user name.
    Text(String),
    /// The descriptions of the log entries the step listed.
    Descriptions(Vec<String>),
    /// The tags the step fetched.
    Tags(Vec<TagData>),
    /// What the `./mach` run produced.
    MachDone(CommandOutput),
}

/// Whether `event` is the kind of answer `step` gets.
pub open spec fn answers(step: StepView, event: Event) -> bool {
    match step {
        StepView::Hg(_, _) => event is Text,
        StepView::ReadFile(_, _) => event is Text,
        StepView::ReadUser => event is Text,
        StepView::Log(_, _) => event is Descriptions,
        StepView::FetchTags(_) => event is Tags,
        StepView::Mach(_) => event is MachDone,
        _ => event is Proceed,
    }
}

/// The steps that commit with `args` in `repo` and then read back the new
/// changeset's node, as `HgRepo::commit` does.
pub open spec fn commit_views(repo: Repo, args: CommitArgs) -> Seq<StepView> {
    seq![
        StepView::Hg(repo, args.spec_command()),
        StepView::Hg(repo, seq!["log"@, "-r"@, "."@, "-T"@, "{node}"@]),
    ]
}

/// The views of a list of steps.
pub open spec fn step_views(steps: Seq<Step>) -> Seq<StepView> {
    steps.map_values(|s: Step| s@)
}

/// Appends the steps that commit with `args` in `repo` and read back the
/// new node.
pub fn push_commit(steps: &mut Vec<Step>, repo: Repo, args: CommitArgs)
    ensures
        step_views(final(steps)@) == step_views(old(steps)@) + commit_views(repo, args),
{
    let ghost spec_args = args.spec_command();
    let commit = args.command();
    let ghost before = steps@;
    steps.push(Step::Hg(repo, commit));
    let resolve = crate::api::resolve_rev_command(".");
    steps.push(Step::Hg(repo, resolve));
    assert(step_views(steps@) =~= step_views(before) + commit_views(repo, args));
}

} // verus!
