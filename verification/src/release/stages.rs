//! The stages of a release command, and the workflow that runs them in
//! order: each stage asks for outside work one step at a time, and the
//! workflow moves on to the next stage when one is done.
use vstd::prelude::*;

use crate::api::{resolve_rev_command, CommitArgs, UpdateArgs};
use crate::args::push_arg;
use crate::mach::{MachCommand, MachError, CommandOutput};
use crate::release::commands::{
    pin_next, run_mach, uplift_next, PinPhase, PinRun, UpliftPhase, UpliftRun,
};
use crate::release::error::CliError;
use crate::release::pin::TagData;
use crate::release::run::{answers, step_views, Event, Repo, Step, StepView};
use crate::release_cli::commands::{acceptable_exit, mach_failure_message, run_mach as checked_mach};
use crate::text::{chars_eq, from_chars, push_str, string_views, to_chars, utf8_lossy_text};

verus! {

/// Whether `res` reports that the `./mach` run which produced `output`
/// exited with a nonzero code.
pub open spec fn mach_failed(res: Step, output: CommandOutput) -> bool {
    res matches Step::Failed(CliError::MachError(MachError::CommandFailed { code, stderr }))
        && code == output.return_code && stderr@ == utf8_lossy_text(output.stderr@)
}

/// Where a single `./mach` run stands.
#[derive(Debug, Clone, Copy, PartialEq, Eq, Structural)]
pub enum MachPhase {
    Start,
    Running,
    Finished,
}

/// One `./mach` subcommand, which fails the command when it exits with a
/// nonzero code.
pub struct MachRun {
    cmd: MachCommand,
    phase: MachPhase,
}

/// One step of a `./mach` run.
pub open spec fn mach_next(old: MachRun, event: Event, res: Step, new: MachRun) -> bool {
    &&& new.command() == old.command()
    &&& forall|e: Event| #[trigger] answers(res@, e) ==> new.awaits(e)
    &&& old.phase() == MachPhase::Start ==> res@ == StepView::Mach(old.command()) && new.phase()
        == MachPhase::Running
    &&& old.phase() == MachPhase::Running ==> (event matches Event::MachDone(o) && (if o.return_code
        != 0 {
        mach_failed(res, o)
    } else {
        res@ == StepView::Done
    })) && new.phase() == MachPhase::Finished
    &&& old.phase() == MachPhase::Finished ==> res@ == StepView::Done && new.phase()
        == MachPhase::Finished
}

impl MachRun {
    pub closed spec fn command(&self) -> MachCommand {
        self.cmd
    }

    pub closed spec fn phase(&self) -> MachPhase {
        self.phase
    }

    /// Whether `event` is the answer the last step gets.
    pub open spec fn awaits(&self, event: Event) -> bool {
        match self.phase() {
            MachPhase::Running => event is MachDone,
            _ => event is Proceed,
        }
    }

    /// A run of `./mach` with `cmd`.
    pub fn new(cmd: MachCommand) -> (res: MachRun)
        ensures
            res.command() == cmd,
            res.phase() == MachPhase::Start,
    {
        MachRun { cmd, phase: MachPhase::Start }
    }

    /// The next step of the run, given what the last one reported.
    pub fn next(&mut self, event: Event) -> (res: Step)
        requires
            old(self).awaits(event),
        ensures
            mach_next(*old(self), event, res, *final(self)),
    {
        match self.phase {
            MachPhase::Start => {
                self.phase = MachPhase::Running;
                Step::Mach(self.cmd)
            },
            MachPhase::Running => {
                self.phase = MachPhase::Finished;
                let output = match event {
                    Event::MachDone(o) => o,
                    _ => {
                        assert(false);
                        CommandOutput { stdout: Vec::new(), stderr: Vec::new(), return_code: 0 }
                    },
                };
                match run_mach(output) {
                    Ok(_) => Step::Done,
                    Err(e) => Step::Failed(e),
                }
            },
            MachPhase::Finished => Step::Done,
        }
    }
}

/// What `./mach tb-rust check-upstream` prints when the vendored Rust
/// dependencies match upstream.
pub open spec fn rust_okay_text() -> Seq<char> {
    "Rust dependencies are okay.\n"@
}

/// Where a Rust dependency sync stands.
#[derive(Debug, Clone, Copy, PartialEq, Eq, Structural)]
pub enum SyncPhase {
    Start,
    Checking,
    Syncing,
    Vendoring,
    Finished,
}

/// Checking the Rust dependencies against upstream, and syncing and
/// vendoring them when the check does not report them okay.
pub struct RustSyncRun {
    phase: SyncPhase,
}

/// One step of a Rust dependency sync.
pub open spec fn rust_sync_next(old: RustSyncRun, event: Event, res: Step, new: RustSyncRun) -> bool {
    &&& forall|e: Event| #[trigger] answers(res@, e) ==> new.awaits(e)
    &&& old.phase() == SyncPhase::Start ==> res@ == StepView::Mach(MachCommand::RustCheckUpstream)
        && new.phase() == SyncPhase::Checking
    &&& old.phase() == SyncPhase::Checking ==> (event matches Event::MachDone(o) && (if o.return_code
        != 0 {
        mach_failed(res, o) && new.phase() == SyncPhase::Finished
    } else if utf8_lossy_text(o.stdout@) == rust_okay_text() {
        res@ == StepView::Done && new.phase() == SyncPhase::Finished
    } else {
        res@ == StepView::Mach(MachCommand::RustSync) && new.phase() == SyncPhase::Syncing
    }))
    &&& old.phase() == SyncPhase::Syncing ==> (event matches Event::MachDone(o) && (if o.return_code
        != 0 {
        mach_failed(res, o) && new.phase() == SyncPhase::Finished
    } else {
        res@ == StepView::Mach(MachCommand::RustVendor) && new.phase() == SyncPhase::Vendoring
    }))
    &&& old.phase() == SyncPhase::Vendoring ==> (event matches Event::MachDone(o) && (if o.return_code
        != 0 {
        mach_failed(res, o)
    } else {
        res@ == StepView::Done
    })) && new.phase() == SyncPhase::Finished
    &&& old.phase() == SyncPhase::Finished ==> res@ == StepView::Done && new.phase()
        == SyncPhase::Finished
}

impl RustSyncRun {
    pub closed spec fn phase(&self) -> SyncPhase {
        self.phase
    }

    /// Whether `event` is the answer the last step gets.
    pub open spec fn awaits(&self, event: Event) -> bool {
        match self.phase() {
            SyncPhase::Start | SyncPhase::Finished => event is Proceed,
            _ => event is MachDone,
        }
    }

    /// A sync that has not started.
    pub fn new() -> (res: RustSyncRun)
        ensures
            res.phase() == SyncPhase::Start,
    {
        RustSyncRun { phase: SyncPhase::Start }
    }

    /// The next step of the sync, given what the last one reported.
    pub fn next(&mut self, event: Event) -> (res: Step)
        requires
            old(self).awaits(event),
        ensures
            rust_sync_next(*old(self), event, res, *final(self)),
    {
        if self.phase == SyncPhase::Start {
            self.phase = SyncPhase::Checking;
            return Step::Mach(MachCommand::RustCheckUpstream);
        }
        if self.phase == SyncPhase::Finished {
            return Step::Done;
        }
        let output = match event {
            Event::MachDone(o) => o,
            _ => {
                assert(false);
                CommandOutput { stdout: Vec::new(), stderr: Vec::new(), return_code: 0 }
            },
        };
        let text = match run_mach(output) {
            Ok(t) => t,
            Err(e) => {
                self.phase = SyncPhase::Finished;
                return Step::Failed(e);
            },
        };
        match self.phase {
            SyncPhase::Checking => {
                proof {
                    reveal_strlit("Rust dependencies are okay.\n");
                }
                if chars_eq(to_chars(text.as_str()).as_slice(), to_chars("Rust dependencies are okay.\n").as_slice()) {
                    self.phase = SyncPhase::Finished;
                    Step::Done
                } else {
                    self.phase = SyncPhase::Syncing;
                    Step::Mach(MachCommand::RustSync)
                }
            },
            SyncPhase::Syncing => {
                self.phase = SyncPhase::Vendoring;
                Step::Mach(MachCommand::RustVendor)
            },
            _ => {
                self.phase = SyncPhase::Finished;
                Step::Done
            },
        }
    }
}

/// Whether `res` reports that `./mach` ended `cmd` with the unacceptable
/// exit code `code`.
pub open spec fn mach_refused(res: Step, cmd: MachCommand, code: i32) -> bool {
    res matches Step::Failed(CliError::CommandFailed(m)) && m@ == mach_failure_message(cmd, code)
}

/// The message of the commit that records vendored Rust dependencies.
pub open spec fn vendor_message(moz_repo_name: Seq<char>, approver: Seq<char>) -> Seq<char> {
    "No Bug - Vendored Rust from "@ + moz_repo_name + ". r=release r+a="@ + approver
}

/// Where a vendoring of the Rust dependencies stands.
#[derive(Debug, Clone, Copy, PartialEq, Eq, Structural)]
pub enum VendorPhase {
    Start,
    OpeningMoz,
    Updating,
    Checking,
    Syncing,
    Vendoring,
    OpeningComm,
    AddingRemoving,
    Committing,
    Resolving,
    Finished,
}

/// Updating the mozilla repository to the pinned changeset, checking the
/// Rust dependencies against it, and when the check reports them out of
/// sync, syncing and vendoring them and committing the result in the comm
/// repository.
pub struct VendorRun {
    moz_repo_name: String,
    approver: String,
    phase: VendorPhase,
}

/// One step of a vendoring; `node` is the pinned changeset.
pub open spec fn vendor_next(old: VendorRun, event: Event, node: Seq<char>, res: Step, new: VendorRun) -> bool {
    &&& new.moz_repo_name() == old.moz_repo_name()
    &&& new.approver() == old.approver()
    &&& forall|e: Event| #[trigger] answers(res@, e) ==> new.awaits(e)
    &&& old.phase() == VendorPhase::Start ==> res@ == StepView::OpenHg(Repo::Moz) && new.phase()
        == VendorPhase::OpeningMoz
    &&& old.phase() == VendorPhase::OpeningMoz ==> res@ == StepView::Hg(
        Repo::Moz,
        seq!["update"@, "-r"@, node],
    ) && new.phase() == VendorPhase::Updating
    &&& old.phase() == VendorPhase::Updating ==> res@ == StepView::Mach(
        MachCommand::RustCheckUpstream,
    ) && new.phase() == VendorPhase::Checking
    &&& old.phase() == VendorPhase::Checking ==> (event matches Event::MachDone(o) && (if !acceptable_exit(
        MachCommand::RustCheckUpstream,
        o.return_code,
    ) {
        mach_refused(res, MachCommand::RustCheckUpstream, o.return_code) && new.phase()
            == VendorPhase::Finished
    } else if o.return_code == 88 {
        res@ == StepView::Mach(MachCommand::RustSync) && new.phase() == VendorPhase::Syncing
    } else {
        res@ == StepView::Done && new.phase() == VendorPhase::Finished
    }))
    &&& old.phase() == VendorPhase::Syncing ==> (event matches Event::MachDone(o) && (if o.return_code
        != 0 {
        mach_refused(res, MachCommand::RustSync, o.return_code) && new.phase()
            == VendorPhase::Finished
    } else {
        res@ == StepView::Mach(MachCommand::RustVendor) && new.phase() == VendorPhase::Vendoring
    }))
    &&& old.phase() == VendorPhase::Vendoring ==> (event matches Event::MachDone(o) && (if o.return_code
        != 0 {
        mach_refused(res, MachCommand::RustVendor, o.return_code) && new.phase()
            == VendorPhase::Finished
    } else {
        res@ == StepView::OpenHg(Repo::Comm) && new.phase() == VendorPhase::OpeningComm
    }))
    &&& old.phase() == VendorPhase::OpeningComm ==> res@ == StepView::Hg(
        Repo::Comm,
        seq!["addremove"@, "third_party/rust"@],
    ) && new.phase() == VendorPhase::AddingRemoving
    &&& old.phase() == VendorPhase::AddingRemoving ==> res@ == StepView::Hg(
        Repo::Comm,
        seq!["commit"@, "-m"@, vendor_message(old.moz_repo_name(), old.approver())],
    ) && new.phase() == VendorPhase::Committing
    &&& old.phase() == VendorPhase::Committing ==> res@ == StepView::Hg(
        Repo::Comm,
        seq!["log"@, "-r"@, "."@, "-T"@, "{node}"@],
    ) && new.phase() == VendorPhase::Resolving
    &&& (old.phase() == VendorPhase::Resolving || old.phase() == VendorPhase::Finished) ==> res@
        == StepView::Done && new.phase() == VendorPhase::Finished
}

impl VendorRun {
    /// The name of the mozilla repository the dependencies come from.
    pub closed spec fn moz_repo_name(&self) -> Seq<char> {
        self.moz_repo_name@
    }

    /// Who approves the vendoring commit.
    pub closed spec fn approver(&self) -> Seq<char> {
        self.approver@
    }

    pub closed spec fn phase(&self) -> VendorPhase {
        self.phase
    }

    /// Whether `event` is the answer the last step gets.
    pub open spec fn awaits(&self, event: Event) -> bool {
        match self.phase() {
            VendorPhase::Updating | VendorPhase::AddingRemoving | VendorPhase::Committing
            | VendorPhase::Resolving => event is Text,
            VendorPhase::Checking | VendorPhase::Syncing | VendorPhase::Vendoring => event is MachDone,
            _ => event is Proceed,
        }
    }

    /// A vendoring from `moz_repo_name`, approved by `approver`.
    pub fn new(moz_repo_name: &str, approver: &str) -> (res: VendorRun)
        ensures
            res.moz_repo_name() == moz_repo_name@,
            res.approver() == approver@,
            res.phase() == VendorPhase::Start,
    {
        VendorRun {
            moz_repo_name: moz_repo_name.to_owned(),
            approver: approver.to_owned(),
            phase: VendorPhase::Start,
        }
    }

    /// The outcome of a `./mach` run of `cmd`: its output when the
    /// vendoring may go on, or the failure that ends it.
    fn check(&mut self, cmd: MachCommand, event: Event) -> (res: Result<CommandOutput, Step>)
        requires
            event is MachDone,
        ensures
            final(self).moz_repo_name() == old(self).moz_repo_name(),
            final(self).approver() == old(self).approver(),
            event matches Event::MachDone(o) && (if acceptable_exit(cmd, o.return_code) {
                res == Ok::<CommandOutput, Step>(o) && final(self).phase() == old(self).phase()
            } else {
                res matches Err(r) && mach_refused(r, cmd, o.return_code) && final(self).phase()
                    == VendorPhase::Finished
            }),
    {
        let output = match event {
            Event::MachDone(o) => o,
            _ => {
                assert(false);
                CommandOutput { stdout: Vec::new(), stderr: Vec::new(), return_code: 0 }
            },
        };
        match checked_mach(cmd, output) {
            Ok(o) => Ok(o),
            Err(e) => {
                self.phase = VendorPhase::Finished;
                Err(Step::Failed(e))
            },
        }
    }

    /// The next step of the vendoring, given what the last one reported;
    /// `node` is the changeset the mozilla repository is updated to.
    pub fn next(&mut self, event: Event, node: &str) -> (res: Step)
        requires
            old(self).awaits(event),
        ensures
            vendor_next(*old(self), event, node@, res, *final(self)),
    {
        proof {
            reveal_strlit("update");
            reveal_strlit("-r");
        }
        match self.phase {
            VendorPhase::Start => {
                self.phase = VendorPhase::OpeningMoz;
                Step::OpenHg(Repo::Moz)
            },
            VendorPhase::OpeningMoz => {
                self.phase = VendorPhase::Updating;
                let args = UpdateArgs { rev: Some(node.to_owned()), clean: false };
                let cmd = args.command();
                assert(string_views(cmd@) =~= seq!["update"@, "-r"@, node@]);
                Step::Hg(Repo::Moz, cmd)
            },
            VendorPhase::Updating => {
                self.phase = VendorPhase::Checking;
                Step::Mach(MachCommand::RustCheckUpstream)
            },
            VendorPhase::Checking => {
                match self.check(MachCommand::RustCheckUpstream, event) {
                    Ok(o) => {
                        if o.return_code == 88 {
                            self.phase = VendorPhase::Syncing;
                            Step::Mach(MachCommand::RustSync)
                        } else {
                            self.phase = VendorPhase::Finished;
                            Step::Done
                        }
                    },
                    Err(r) => r,
                }
            },
            VendorPhase::Syncing => {
                match self.check(MachCommand::RustSync, event) {
                    Ok(_) => {
                        self.phase = VendorPhase::Vendoring;
                        Step::Mach(MachCommand::RustVendor)
                    },
                    Err(r) => r,
                }
            },
            VendorPhase::Vendoring => {
                match self.check(MachCommand::RustVendor, event) {
                    Ok(_) => {
                        self.phase = VendorPhase::OpeningComm;
                        Step::OpenHg(Repo::Comm)
                    },
                    Err(r) => r,
                }
            },
            VendorPhase::OpeningComm => {
                self.phase = VendorPhase::AddingRemoving;
                let mut v: Vec<String> = Vec::new();
                push_arg(&mut v, "addremove");
                push_arg(&mut v, "third_party/rust");
                assert(string_views(v@) =~= seq!["addremove"@, "third_party/rust"@]);
                Step::Hg(Repo::Comm, v)
            },
            VendorPhase::AddingRemoving => {
                self.phase = VendorPhase::Committing;
                let mut message: Vec<char> = Vec::new();
                push_str(&mut message, "No Bug - Vendored Rust from ");
                push_str(&mut message, self.moz_repo_name.as_str());
                push_str(&mut message, ". r=release r+a=");
                push_str(&mut message, self.approver.as_str());
                let args = CommitArgs {
                    message: from_chars(message.as_slice()),
                    user: None,
                    files: Vec::new(),
                    close_branch: false,
                    date: None,
                };
                let cmd = args.command();
                proof {
                    reveal_strlit("");
                    assert(string_views(args.files@) =~= seq![]);
                    assert(args.spec_command() =~= seq![
                        "commit"@,
                        "-m"@,
                        vendor_message(self.moz_repo_name@, self.approver@),
                    ]);
                }
                Step::Hg(Repo::Comm, cmd)
            },
            VendorPhase::Committing => {
                self.phase = VendorPhase::Resolving;
                Step::Hg(Repo::Comm, resolve_rev_command("."))
            },
            VendorPhase::Resolving | VendorPhase::Finished => {
                self.phase = VendorPhase::Finished;
                Step::Done
            },
        }
    }
}

/// A fixed list of steps, asked for one after the other.
pub struct StepsRun {
    /// The steps still to ask for, the next one last.
    pending: Vec<Step>,
}

/// One step of a list: the next step of the list, or the end.
pub open spec fn steps_next(old: StepsRun, res: Step, new: StepsRun) -> bool {
    if old.remaining().len() == 0 {
        res@ == StepView::Done && new.remaining().len() == 0
    } else {
        res@ == old.remaining()[0] && new.remaining() == old.remaining().drop_first()
    }
}

impl StepsRun {
    /// The steps still to ask for, in order.
    pub closed spec fn remaining(&self) -> Seq<StepView> {
        let n = self.pending@.len();
        Seq::new(n, |i: int| self.pending@[n - 1 - i]@)
    }

    /// A run of `steps` in their order.
    pub fn new(steps: Vec<Step>) -> (res: StepsRun)
        ensures
            res.remaining() == step_views(steps@),
    {
        let ghost orig = steps@;
        let mut steps = steps;
        let mut pending: Vec<Step> = Vec::new();
        while steps.len() > 0
            invariant
                steps@.len() + pending@.len() == orig.len(),
                steps@ == orig.take(steps@.len() as int),
                forall|i: int| 0 <= i < pending@.len() ==> pending@[i] == orig[orig.len() - 1 - i],
            decreases steps@.len(),
        {
            let ghost before = steps@;
            let s = steps.pop().unwrap();
            assert(steps@ == orig.take(steps@.len() as int)) by {
                assert(steps@ =~= before.drop_last());
            }
            pending.push(s);
        }
        let res = StepsRun { pending };
        assert(res.remaining() =~= step_views(orig));
        res
    }

    /// The next step of the list.
    pub fn next(&mut self) -> (res: Step)
        ensures
            steps_next(*old(self), res, *final(self)),
    {
        let ghost before = self.remaining();
        match self.pending.pop() {
            Some(s) => {
                assert(self.remaining() =~= before.drop_first());
                s
            },
            None => Step::Done,
        }
    }
}

/// Whether a step asks for outside work, rather than ending a run.
pub open spec fn is_action(v: StepView) -> bool {
    !(v is Done) && !(v is Failed) && !(v is Abort)
}

/// A stage of a release command.
pub enum Stage {
    /// A fixed list of steps.
    Steps(StepsRun),
    /// Pinning `.gecko_rev.yml` to a mozilla tag and committing it.
    Pin(PinRun),
    /// One `./mach` subcommand.
    Mach(MachRun),
    /// Syncing and vendoring the Rust dependencies when they are not okay.
    SyncRust(RustSyncRun),
    /// Vendoring the Rust dependencies at the pinned changeset.
    Vendor(VendorRun),
    /// Grafting uplifts.
    Uplift(UpliftRun),
}

/// What a stage that has not started will do.
pub enum StageView {
    Steps(Seq<StepView>),
    /// The mozilla repository's name and address, and whether a failed read
    /// of the version file is reported with context.
    Pin(Seq<char>, Seq<char>, bool),
    Mach(MachCommand),
    SyncRust,
    /// The mozilla repository's name and the approver.
    Vendor(Seq<char>, Seq<char>),
    /// The approver, the revisions, and whether patches are compared.
    Uplift(Seq<char>, Seq<Seq<char>>, bool),
}

impl View for Stage {
    type V = StageView;

    open spec fn view(&self) -> StageView {
        match self {
            Stage::Steps(s) => StageView::Steps(s.remaining()),
            Stage::Pin(p) => StageView::Pin(p.moz_repo_name(), p.moz_url(), p.version_context()),
            Stage::Mach(m) => StageView::Mach(m.command()),
            Stage::SyncRust(_) => StageView::SyncRust,
            Stage::Vendor(v) => StageView::Vendor(v.moz_repo_name(), v.approver()),
            Stage::Uplift(u) => StageView::Uplift(u.approver(), u.revs(), u.check_patches()),
        }
    }
}

/// One step of a stage: the stage's own step; `node` is the pinned
/// changeset, for a vendoring.
pub open spec fn stage_next(old: Stage, event: Event, node: Seq<char>, res: Step, new: Stage) -> bool {
    match old {
        Stage::Steps(s) => new matches Stage::Steps(t) && steps_next(s, res, t),
        Stage::Pin(p) => new matches Stage::Pin(q) && pin_next(p, event, res, q),
        Stage::Mach(m) => new matches Stage::Mach(n) && mach_next(m, event, res, n),
        Stage::SyncRust(r) => new matches Stage::SyncRust(t) && rust_sync_next(r, event, res, t),
        Stage::Vendor(v) => new matches Stage::Vendor(w) && vendor_next(v, event, node, res, w),
        Stage::Uplift(u) => new matches Stage::Uplift(w) && uplift_next(u, event, res, w),
    }
}

impl Stage {
    /// Whether the stage has not started.
    pub open spec fn is_fresh(&self) -> bool {
        match self {
            Stage::Steps(s) => s.remaining().len() > 0 && forall|i: int|
                0 <= i < s.remaining().len() ==> #[trigger] is_action(s.remaining()[i]),
            Stage::Pin(p) => p.phase() == PinPhase::Start,
            Stage::Mach(m) => m.phase() == MachPhase::Start,
            Stage::SyncRust(r) => r.phase() == SyncPhase::Start,
            Stage::Vendor(v) => v.phase() == VendorPhase::Start,
            Stage::Uplift(u) => u.phase() == UpliftPhase::Start,
        }
    }

    /// Whether `event` is the answer the last step of the stage gets.
    pub open spec fn awaits(&self, event: Event) -> bool {
        match self {
            Stage::Steps(_) => true,
            Stage::Pin(p) => p.awaits(event),
            Stage::Mach(m) => m.awaits(event),
            Stage::SyncRust(r) => r.awaits(event),
            Stage::Vendor(v) => v.awaits(event),
            Stage::Uplift(u) => u.awaits(event),
        }
    }

    /// The next step of the stage, given what the last one reported.
    pub fn next(&mut self, event: Event, node: &str) -> (res: Step)
        requires
            old(self).awaits(event),
        ensures
            stage_next(*old(self), event, node@, res, *final(self)),
            forall|e: Event| #[trigger] answers(res@, e) ==> final(self).awaits(e),
    {
        match self {
            Stage::Steps(s) => s.next(),
            Stage::Pin(p) => p.next(event),
            Stage::Mach(m) => m.next(event),
            Stage::SyncRust(r) => r.next(event),
            Stage::Vendor(v) => v.next(event, node),
            Stage::Uplift(u) => u.next(event),
        }
    }
}

/// A fresh stage asked to start does not end at once.
pub proof fn lemma_fresh_stage_acts(s: Stage, node: Seq<char>, res: Step, t: Stage)
    requires
        s.is_fresh(),
        stage_next(s, Event::Proceed, node, res, t),
    ensures
        is_action(res@),
{
    if let Stage::Steps(r) = s {
        assert(is_action(r.remaining()[0]));
    }
}

/// The changeset a tag names, or nothing before a pin chose one.
pub open spec fn tag_node(tag: Option<TagData>) -> Seq<char> {
    match tag {
        Some(t) => t.node@,
        None => ""@,
    }
}

/// The tag known after stage `s` finished: the one a pin chose, or the
/// one known before.
pub open spec fn finished_tag(s: Stage, tag: Option<TagData>) -> Option<TagData> {
    match s {
        Stage::Pin(p) => p.spec_tag(),
        _ => tag,
    }
}

/// The stages of a release command, run in order.
pub struct Workflow {
    current: Stage,
    /// The stages after the current one, the next one last.
    pending: Vec<Stage>,
    tag: Option<TagData>,
    finished: bool,
}

/// What a workflow does after its current stage answered `r` and became
/// `s`: it passes the step on, starts the next stage when the stage is
/// done, and finishes when the stage failed or no stage is left.
pub open spec fn workflow_after(old: Workflow, r: Step, s: Stage, res: Step, new: Workflow) -> bool {
    let tag = finished_tag(s, old.tag());
    if r@ is Done {
        if old.upcoming().len() == 0 {
            res@ == StepView::Done && new.is_finished()
        } else {
            &&& stage_next(old.upcoming()[0], Event::Proceed, tag_node(tag), res, new.current())
            &&& new.upcoming() == old.upcoming().drop_first()
            &&& new.tag() == tag
            &&& !new.is_finished()
        }
    } else if !is_action(r@) {
        res == r && new.is_finished()
    } else {
        &&& res == r
        &&& new.current() == s
        &&& new.upcoming() == old.upcoming()
        &&& new.tag() == old.tag()
        &&& !new.is_finished()
    }
}

/// One step of a workflow.
pub open spec fn workflow_next(old: Workflow, event: Event, res: Step, new: Workflow) -> bool {
    if old.is_finished() {
        res@ == StepView::Done && new.is_finished()
    } else {
        exists|r: Step, s: Stage|
            #[trigger] stage_next(old.current(), event, tag_node(old.tag()), r, s) && workflow_after(
                old,
                r,
                s,
                res,
                new,
            )
    }
}

impl Workflow {
    /// Whether the stages after the current one have not started.
    pub closed spec fn well_formed(&self) -> bool {
        forall|i: int| 0 <= i < self.pending@.len() ==> #[trigger] self.pending@[i].is_fresh()
    }

    /// The stage that runs now.
    pub closed spec fn current(&self) -> Stage {
        self.current
    }

    /// The stages after the current one, in order.
    pub closed spec fn upcoming(&self) -> Seq<Stage> {
        let n = self.pending@.len();
        Seq::new(n, |i: int| self.pending@[n - 1 - i])
    }

    /// The tag the last finished pin chose.
    pub closed spec fn tag(&self) -> Option<TagData> {
        self.tag
    }

    /// Whether the workflow has ended.
    pub closed spec fn is_finished(&self) -> bool {
        self.finished
    }

    /// What the stages of the workflow do.
    pub open spec fn plan(&self) -> Seq<StageView> {
        seq![self.current()@] + self.upcoming().map_values(|s: Stage| s@)
    }

    /// Whether `event` is the answer the last step gets.
    pub open spec fn awaits(&self, event: Event) -> bool {
        self.is_finished() || self.current().awaits(event)
    }

    /// A workflow that runs `stages` in order.
    pub fn new(stages: Vec<Stage>) -> (res: Workflow)
        requires
            stages@.len() > 0,
            forall|i: int| 0 <= i < stages@.len() ==> #[trigger] stages@[i].is_fresh(),
        ensures
            res.current() == stages@[0],
            res.upcoming() == stages@.drop_first(),
            res.tag() is None,
            !res.is_finished(),
            res.well_formed(),
    {
        let ghost orig = stages@;
        let mut stages = stages;
        let mut pending: Vec<Stage> = Vec::new();
        while stages.len() > 1
            invariant
                stages@.len() >= 1,
                stages@.len() + pending@.len() == orig.len(),
                stages@ == orig.take(stages@.len() as int),
                forall|i: int| 0 <= i < pending@.len() ==> pending@[i] == orig[orig.len() - 1 - i],
                forall|i: int| 0 <= i < orig.len() ==> #[trigger] orig[i].is_fresh(),
            decreases stages@.len(),
        {
            let ghost before = stages@;
            let s = stages.pop().unwrap();
            assert(stages@ == orig.take(stages@.len() as int)) by {
                assert(stages@ =~= before.drop_last());
            }
            pending.push(s);
        }
        let first = stages.pop().unwrap();
        assert forall|i: int| 0 <= i < pending@.len() implies #[trigger] pending@[i].is_fresh() by {
            assert(pending@[i] == orig[orig.len() - 1 - i]);
        }
        let res = Workflow { current: first, pending, tag: None, finished: false };
        assert(res.upcoming() =~= orig.drop_first());
        res
    }

    /// The next step of the workflow, given what the last one reported.
    pub fn next(&mut self, event: Event) -> (res: Step)
        requires
            old(self).well_formed(),
            old(self).awaits(event),
        ensures
            final(self).well_formed(),
            workflow_next(*old(self), event, res, *final(self)),
            res@ is Done ==> final(self).is_finished(),
            forall|e: Event| #[trigger] answers(res@, e) ==> final(self).awaits(e),
    {
        if self.finished {
            return Step::Done;
        }
        let ghost old_self = *self;
        let node = match &self.tag {
            Some(t) => t.node.clone(),
            None => String::new(),
        };
        proof {
            reveal_strlit("");
        }
        assert(node@ == tag_node(old_self.tag()));
        assert(self.current == old_self.current());
        let ghost ev = event;
        let r = self.current.next(event, node.as_str());
        let ghost s = self.current;
        let ghost r_spec = r;
        assert(stage_next(old_self.current(), ev, tag_node(old_self.tag()), r_spec, s));
        match &r {
            Step::Done => {},
            Step::Failed(_) | Step::Abort(_) => {
                self.finished = true;
                assert(workflow_after(old_self, r_spec, s, r, *self));
                return r;
            },
            _ => {
                assert(workflow_after(old_self, r_spec, s, r, *self));
                return r;
            },
        }
        if let Stage::Pin(p) = &self.current {
            self.tag = match p.tag() {
                Some(t) => Some(t.duplicate()),
                None => None,
            };
        }
        assert(self.tag == finished_tag(s, old_self.tag));
        let ghost before = self.upcoming();
        match self.pending.pop() {
            None => {
                self.finished = true;
                assert(workflow_after(old_self, r_spec, s, Step::Done, *self));
                Step::Done
            },
            Some(next_stage) => {
                assert(next_stage == before[0]);
                assert(next_stage.is_fresh());
                self.current = next_stage;
                let node = match &self.tag {
                    Some(t) => t.node.clone(),
                    None => String::new(),
                };
                let res = self.current.next(Event::Proceed, node.as_str());
                proof {
                    lemma_fresh_stage_acts(before[0], node@, res, self.current);
                    assert(self.upcoming() =~= before.drop_first());
                    assert(workflow_after(old_self, r_spec, s, res, *self));
                }
                res
            },
        }
    }
}

/// A sync asks to vendor only right after it asked to sync and that sync
/// exited with code zero: a failed sync is never followed by vendoring.
pub proof fn lemma_vendor_only_after_sync(
    s0: RustSyncRun,
    e0: Event,
    r0: Step,
    s1: RustSyncRun,
    e1: Event,
    r1: Step,
    s2: RustSyncRun,
)
    requires
        rust_sync_next(s0, e0, r0, s1),
        rust_sync_next(s1, e1, r1, s2),
        r1@ == StepView::Mach(MachCommand::RustVendor),
    ensures
        r0@ == StepView::Mach(MachCommand::RustSync),
        e1 matches Event::MachDone(o) && o.return_code == 0,
{
}

/// Any `./mach` run that exits with a nonzero code ends a sync: the step is
/// the failure with that code and error text, and from then on the run asks
/// for nothing more.
pub proof fn lemma_failed_mach_ends_sync(
    s0: RustSyncRun,
    o: CommandOutput,
    r0: Step,
    s1: RustSyncRun,
    e1: Event,
    r1: Step,
    s2: RustSyncRun,
)
    requires
        s0.phase() != SyncPhase::Start && s0.phase() != SyncPhase::Finished,
        o.return_code != 0,
        rust_sync_next(s0, Event::MachDone(o), r0, s1),
        rust_sync_next(s1, e1, r1, s2),
    ensures
        mach_failed(r0, o),
        s1.phase() == SyncPhase::Finished,
        r1@ == StepView::Done,
{
}

} // verus!
