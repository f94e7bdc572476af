//! The release steps: what each subcommand asks the outside world to do,
//! and the decisions between those steps.
use vstd::prelude::*;
use vstd::utf8::is_char_boundary;

use crate::api::{resolve_rev_command, CommitArgs, LogArgs};
use crate::args::push_arg;
use crate::mach::{CommandOutput, Mach, MachError};
use crate::pattern::regex_compile_error;
use crate::release::error::CliError;
use crate::release::pin::{has_short_node, major_version, major_version_of, pin_commit_message, pin_message, base_pattern, first_version_tag, no_tag_message, pinned_content, release_pattern, tag_scan_limit, tags_url, tags_url_of, update_gecko_rev_content, TagData, TagMatcher};
use crate::release::repo::{kind_name, kind_url, Repositories, RepositoryKind};
use crate::release::stages::is_action;
use crate::release::run::{answers, push_commit, step_views, Event, Repo, Step, StepView};
use crate::release::channel::Channel;
use crate::release::cli::CommonArgs;
use crate::release::utils::{approval_pattern, args_version, build_repos_from_args, esr_version_message, lemma_repos_names, missing_esr_version, moz_name_of, moz_url_of, comm_name_of, comm_url_of, normalize_uplift_message, normalized_message, repos_of_args, resolvable};
use crate::release_cli::utils::{change_lines, compare_patches, diverged_message};
use crate::text::{from_chars, has_suffix, push_str, string_views, to_chars, utf8_lossy_text};

verus! {

/// The steps that pull both repositories and update them to the tip of
/// their branch.
pub open spec fn pull_update_views(
    comm_url: Seq<char>,
    comm_name: Seq<char>,
    moz_url: Seq<char>,
    moz_name: Seq<char>,
) -> Seq<StepView> {
    seq![
        StepView::OpenHg(Repo::Comm),
        StepView::OpenHg(Repo::Moz),
        StepView::Hg(Repo::Comm, seq!["pull"@, comm_url]),
        StepView::Hg(Repo::Comm, seq!["up"@, comm_name, "-C"@]),
        StepView::Hg(Repo::Moz, seq!["pull"@, moz_url]),
        StepView::Hg(Repo::Moz, seq!["up"@, moz_name, "-C"@]),
    ]
}

/// The pull and update steps for the repositories of `repos`.
pub open spec fn repos_pull_update_views(repos: Repositories) -> Seq<StepView> {
    let c = repos.spec_comm().kind;
    let m = repos.spec_moz().kind;
    pull_update_views(kind_url(c), kind_name(c), kind_url(m), kind_name(m))
}

fn hg_step(repo: Repo, a: &str, b: String, c: Option<&str>) -> (res: Step)
    ensures
        res@ == StepView::Hg(
            repo,
            match c {
                Some(x) => seq![a@, b@, x@],
                None => seq![a@, b@],
            },
        ),
{
    let mut v: Vec<String> = Vec::new();
    push_arg(&mut v, a);
    let ghost before = v@;
    v.push(b);
    assert(string_views(v@) =~= string_views(before).push(b@));
    match c {
        Some(x) => push_arg(&mut v, x),
        None => {},
    }
    let s = Step::Hg(repo, v);
    proof {
        match c {
            Some(x) => assert(string_views(v@) =~= seq![a@, b@, x@]),
            None => assert(string_views(v@) =~= seq![a@, b@]),
        }
    }
    s
}

/// The steps that pull and update both the comm and mozilla repositories
/// to the tip of their branch.
pub fn pull_update_steps(repos: &Repositories) -> (res: Vec<Step>)
    ensures
        step_views(res@) == repos_pull_update_views(*repos),
{
    let c_repo = repos.comm();
    let m_repo = repos.moz();
    let mut steps: Vec<Step> = Vec::new();
    steps.push(Step::OpenHg(Repo::Comm));
    steps.push(Step::OpenHg(Repo::Moz));
    steps.push(hg_step(Repo::Comm, "pull", c_repo.kind.url(), None));
    steps.push(hg_step(Repo::Comm, "up", c_repo.kind.name(), Some("-C")));
    steps.push(hg_step(Repo::Moz, "pull", m_repo.kind.url(), None));
    steps.push(hg_step(Repo::Moz, "up", m_repo.kind.name(), Some("-C")));
    assert(step_views(steps@) =~= repos_pull_update_views(*repos));
    steps
}

/// `version` without a trailing `esr`.
pub open spec fn plain_version(version: Seq<char>) -> Seq<char> {
    if has_suffix(version, "esr"@) {
        version.take(version.len() - 3)
    } else {
        version
    }
}

/// The version shown to users: on ESR always with its `esr` suffix.
pub open spec fn display_version(version: Seq<char>, esr: bool) -> Seq<char> {
    if esr {
        plain_version(version) + "esr"@
    } else {
        version
    }
}

/// On ESR, a version given with or without its `esr` suffix writes the same
/// `version.txt` (without the suffix) and the same `version_display.txt`
/// (with it).
pub proof fn lemma_esr_suffix_stripped(version: Seq<char>)
    requires
        !has_suffix(version, "esr"@),
    ensures
        plain_version(version + "esr"@) == version,
        plain_version(version) == version,
        display_version(version + "esr"@, true) == version + "esr"@,
        display_version(version, true) == version + "esr"@,
{
    reveal_strlit("esr");
    let v = version + "esr"@;
    assert(v.skip(v.len() - 3) =~= "esr"@);
    assert(v.take(v.len() - 3) =~= version);
}

/// The steps that write the version files and commit them; `esr` tells
/// whether the comm repository is an ESR repository.
pub open spec fn update_version_views(version: Seq<char>, esr: bool) -> Seq<StepView> {
    seq![
        StepView::WriteFile("mail/config/version.txt"@, plain_version(version) + "\n"@, None),
        StepView::WriteFile(
            "mail/config/version_display.txt"@,
            display_version(version, esr) + "\n"@,
            None,
        ),
        StepView::OpenHg(Repo::Comm),
        StepView::Hg(
            Repo::Comm,
            seq!["commit"@, "-m"@, "No bug - Set version "@ + version + " for release. r+a=release"@]
                + seq!["mail/config/version.txt"@, "mail/config/version_display.txt"@],
        ),
        StepView::Hg(Repo::Comm, seq!["log"@, "-r"@, "."@, "-T"@, "{node}"@]),
    ]
}

/// Every pull and update step asks for outside work.
pub proof fn lemma_pull_update_actions(repos: Repositories)
    ensures
        repos_pull_update_views(repos).len() == 6,
        forall|i: int|
            0 <= i < 6 ==> is_action(#[trigger] repos_pull_update_views(repos)[i]),
{
    let v = repos_pull_update_views(repos);
    assert forall|i: int| 0 <= i < 6 implies is_action(#[trigger] v[i]) by {
        if i == 0 {
        } else if i == 1 {
        } else if i == 2 {
        } else if i == 3 {
        } else if i == 4 {
        } else {
        }
    }
}

/// Every step of a version bump asks for outside work.
pub proof fn lemma_update_version_actions(version: Seq<char>, esr: bool)
    ensures
        update_version_views(version, esr).len() == 5,
        forall|i: int|
            0 <= i < 5 ==> is_action(#[trigger] update_version_views(version, esr)[i]),
{
    let v = update_version_views(version, esr);
    assert forall|i: int| 0 <= i < 5 implies is_action(#[trigger] v[i]) by {
        if i == 0 {
        } else if i == 1 {
        } else if i == 2 {
        } else if i == 3 {
        } else {
        }
    }
}


/// The steps that set `version` in `mail/config/version.txt` (without an
/// `esr` suffix) and `mail/config/version_display.txt` (with it, on ESR),
/// and commit both.
pub fn version_steps(version: &str, esr: bool) -> (res: Vec<Step>)
    ensures
        step_views(res@) == update_version_views(version@, esr),
{
    let chars = to_chars(version);
    let suffix = to_chars("esr");
    proof {
        reveal_strlit("esr");
        assert(suffix@.len() == 3);
    }
    let mut plain: Vec<char> = if crate::text::ends_with(chars.as_slice(), suffix.as_slice()) {
        crate::text::copy_range(chars.as_slice(), 0, chars.len() - 3)
    } else {
        chars
    };
    assert(plain@ == plain_version(version@));
    let mut display = if esr {
        let mut d = plain.clone();
        push_str(&mut d, "esr");
        d
    } else {
        to_chars(version)
    };
    assert(display@ == display_version(version@, esr));
    push_str(&mut plain, "\n");
    push_str(&mut display, "\n");
    let mut steps: Vec<Step> = Vec::new();
    steps.push(
        Step::WriteFile {
            path: "mail/config/version.txt".to_owned(),
            contents: from_chars(plain.as_slice()),
            context: None,
        },
    );
    steps.push(
        Step::WriteFile {
            path: "mail/config/version_display.txt".to_owned(),
            contents: from_chars(display.as_slice()),
            context: None,
        },
    );
    steps.push(Step::OpenHg(Repo::Comm));
    let mut message: Vec<char> = Vec::new();
    push_str(&mut message, "No bug - Set version ");
    push_str(&mut message, version);
    push_str(&mut message, " for release. r+a=release");
    let mut files: Vec<String> = Vec::new();
    push_arg(&mut files, "mail/config/version.txt");
    push_arg(&mut files, "mail/config/version_display.txt");
    let args = CommitArgs {
        message: from_chars(message.as_slice()),
        files,
        close_branch: false,
        user: None,
        date: None,
    };
    assert(args.spec_command() =~= seq!["commit"@, "-m"@, "No bug - Set version "@ + version@ + " for release. r+a=release"@]
        + seq!["mail/config/version.txt"@, "mail/config/version_display.txt"@]);
    push_commit(&mut steps, Repo::Comm, args);
    assert(step_views(steps@) =~= update_version_views(version@, esr));
    steps
}

/// The output of a `./mach` run as text, or the failure when it exited
/// with a nonzero code.
pub fn run_mach(output: CommandOutput) -> (res: Result<String, CliError>)
    ensures
        output.return_code != 0 ==> (res matches Err(
            CliError::MachError(MachError::CommandFailed { code, stderr }),
        ) && code == output.return_code && stderr@ == utf8_lossy_text(output.stderr@)),
        output.return_code == 0 ==> (res matches Ok(s) && s@ == utf8_lossy_text(output.stdout@)),
{
    let mach = Mach::new(String::new());
    match mach.run_command_string(output) {
        Ok(s) => Ok(s),
        Err(e) => Err(CliError::MachError(e)),
    }
}

/// The pull and update steps for the repositories `common` names.
pub open spec fn args_pull_update_views(common: CommonArgs) -> Seq<StepView> {
    let (c, v) = (common.channel, args_version(common));
    pull_update_views(comm_url_of(c, v), comm_name_of(c, v), moz_url_of(c, v), moz_name_of(c, v))
}

/// The name of the mozilla repository of `common` in the tag service.
pub open spec fn args_moz_repo_name(common: CommonArgs) -> Seq<char> {
    "mozilla-"@ + moz_name_of(common.channel, args_version(common))
}

/// The repositories `common` names, or the missing ESR version.
fn resolve(common: &CommonArgs) -> (res: Result<Repositories, CliError>)
    requires
        resolvable(*common),
    ensures
        missing_esr_version(*common) ==> (res matches Err(CliError::MissingArgument(m)) && m@
            == esr_version_message()),
        !missing_esr_version(*common) ==> (res matches Ok(r) && repos_of_args(r, *common)),
        res matches Ok(r) ==> repos_pull_update_views(r) == args_pull_update_views(*common)
            && kind_name(r.spec_moz().kind) == moz_name_of(common.channel, args_version(*common))
            && kind_url(r.spec_moz().kind) == moz_url_of(common.channel, args_version(*common))
            && (r.spec_comm().spec_is_esr() <==> common.channel == Channel::Esr),
{
    let res = build_repos_from_args(common);
    proof {
        if !missing_esr_version(*common) {
            lemma_repos_names(res->Ok_0, *common);
        }
    }
    res
}

/// Pull and update both the comm and mozilla repositories of `common` to
/// the tip of their branch: the steps that do it.
pub fn pull_update(common: &CommonArgs) -> (res: Result<Vec<Step>, CliError>)
    requires
        resolvable(*common),
    ensures
        missing_esr_version(*common) ==> (res matches Err(CliError::MissingArgument(m)) && m@
            == esr_version_message()),
        !missing_esr_version(*common) ==> (res matches Ok(steps) && step_views(steps@)
            == args_pull_update_views(*common)),
{
    let repos = resolve(common)?;
    Ok(pull_update_steps(&repos))
}

/// Pin `.gecko_rev.yml` in the comm repository of `common` to the most
/// recent suitable tag of its mozilla repository: the run that does it.
pub fn pin(common: &CommonArgs) -> (res: Result<PinRun, CliError>)
    requires
        resolvable(*common),
    ensures
        missing_esr_version(*common) ==> (res matches Err(CliError::MissingArgument(m)) && m@
            == esr_version_message()),
        !missing_esr_version(*common) ==> (res matches Ok(p) && p.phase() == PinPhase::Start
            && p.moz_repo_name() == args_moz_repo_name(*common) && p.moz_url() == moz_url_of(
            common.channel,
            args_version(*common),
        ) && p.version_context()),
{
    let repos = resolve(common)?;
    Ok(PinRun::new(&repos, true))
}

/// Graft `revs` onto the comm repository of `common`, approved by
/// `approver`: the run that does it.
pub fn uplifts(common: &CommonArgs, approver: &str, revs: &Vec<String>) -> (res: Result<
    UpliftRun,
    CliError,
>)
    requires
        resolvable(*common),
    ensures
        missing_esr_version(*common) ==> (res matches Err(CliError::MissingArgument(m)) && m@
            == esr_version_message()),
        !missing_esr_version(*common) ==> (res matches Ok(u) && u.phase() == UpliftPhase::Start
            && u.approver() == approver@ && u.revs() == string_views(revs@)
            && !u.check_patches()),
{
    let _repos = resolve(common)?;
    Ok(UpliftRun::new(approver, revs, false))
}

/// Set `version` in the version files of the comm repository of `common`
/// and commit them: the steps that do it.
pub fn update_version(common: &CommonArgs, version: &str) -> (res: Result<Vec<Step>, CliError>)
    requires
        resolvable(*common),
    ensures
        missing_esr_version(*common) ==> (res matches Err(CliError::MissingArgument(m)) && m@
            == esr_version_message()),
        !missing_esr_version(*common) ==> (res matches Ok(steps) && step_views(steps@)
            == update_version_views(version@, common.channel == Channel::Esr)),
{
    let _repos = resolve(common)?;
    let esr = match common.channel {
        Channel::Esr => true,
        _ => false,
    };
    Ok(version_steps(version, esr))
}

/// Where a pin stands.
#[derive(Debug, Clone, Copy, PartialEq, Eq, Structural)]
pub enum PinPhase {
    Start,
    ReadingVersion,
    FetchingTags,
    ReadingGecko,
    WritingGecko,
    ReadingUser,
    Opening,
    Committing,
    Resolving,
    Finished,
}

/// Pinning `.gecko_rev.yml` to the most recent suitable Mozilla tag and
/// committing it: reads the major version, fetches the tags, rewrites the
/// file and commits it.
pub struct PinRun {
    moz_repo_name: String,
    moz_url: String,
    version_context: bool,
    phase: PinPhase,
    matcher: Option<TagMatcher>,
    tag: Option<TagData>,
    message: String,
}

/// The name of the mozilla repository in the tag service.
pub open spec fn moz_repo_name_of(moz: RepositoryKind) -> Seq<char> {
    "mozilla-"@ + kind_name(moz)
}

/// The first tags a pin considers.
pub open spec fn scanned_tags(tags: Seq<TagData>) -> Seq<TagData> {
    tags.take(
        if tags.len() < tag_scan_limit() {
            tags.len() as int
        } else {
            tag_scan_limit() as int
        },
    )
}

/// The message of the abort when a tag's node is too short to show.
pub open spec fn short_node_abort() -> Seq<char> {
    "tag node has no character boundary at byte 12"@
}

/// One step of a pin: `res` is what the run in state `old` asks for
/// after `event`, and `new` is its state afterwards.
pub open spec fn pin_next(old: PinRun, event: Event, res: Step, new: PinRun) -> bool {
    &&& forall|e: Event| #[trigger] answers(res@, e) ==> new.awaits(e)
    &&& new.moz_repo_name() == old.moz_repo_name()
    &&& new.moz_url() == old.moz_url()
    &&& new.version_context() == old.version_context()
    &&& old.phase() == PinPhase::Start ==> {
        &&& res@ == StepView::ReadFile("mail/config/version.txt"@, old.version_context())
        &&& new.phase() == PinPhase::ReadingVersion
    }
    &&& old.phase() == PinPhase::ReadingVersion ==> (event matches Event::Text(c) && {
        let major = major_version_of(c@);
        match regex_compile_error(base_pattern(major)) {
            Some(m) => res matches Step::Failed(CliError::AnyError(e)) && e@ == m
                && new.phase() == PinPhase::Finished,
            None => match regex_compile_error(release_pattern(major)) {
                Some(m) => res matches Step::Failed(CliError::AnyError(e)) && e@ == m
                    && new.phase() == PinPhase::Finished,
                None => {
                    &&& res@ == StepView::FetchTags(tags_url_of(old.moz_repo_name()))
                    &&& new.phase() == PinPhase::FetchingTags
                    &&& new.major() == major
                },
            },
        }
    })
    &&& old.phase() == PinPhase::FetchingTags ==> (event matches Event::Tags(ts) && {
        let scanned = scanned_tags(ts@);
        let k = first_version_tag(scanned, old.major());
        if k >= scanned.len() {
            res matches Step::Failed(CliError::AnyError(e)) && e@ == no_tag_message(old.major())
                && new.phase() == PinPhase::Finished
        } else if !has_short_node(scanned[k as int].node@) {
            res@ == StepView::Abort(short_node_abort()) && new.phase() == PinPhase::Finished
        } else {
            &&& res@ == StepView::ReadFile(".gecko_rev.yml"@, true)
            &&& new.phase() == PinPhase::ReadingGecko
            &&& new.spec_tag() == Some(scanned[k as int])
        }
    })
    &&& old.phase() == PinPhase::ReadingGecko ==> (event matches Event::Text(c) && {
        let t = old.spec_tag()->Some_0;
        match pinned_content(c@, old.moz_url(), t.tag@, t.node@) {
            Err(m) => res matches Step::Failed(CliError::AnyError(e)) && e@ == m && new.phase()
                == PinPhase::Finished,
            Ok(x) => {
                &&& res@ == StepView::WriteFile(
                    ".gecko_rev.yml"@,
                    x,
                    Some("failed to write .gecko_rev.yml"@),
                )
                &&& new.phase() == PinPhase::WritingGecko
                &&& new.spec_tag() == old.spec_tag()
            },
        }
    })
    &&& old.phase() == PinPhase::WritingGecko ==> {
        &&& res@ == StepView::ReadUser
        &&& new.phase() == PinPhase::ReadingUser
        &&& new.spec_tag() == old.spec_tag()
    }
    &&& old.phase() == PinPhase::ReadingUser ==> (event matches Event::Text(u) && {
        let t = old.spec_tag()->Some_0;
        &&& res@ == StepView::OpenHg(Repo::Comm)
        &&& new.phase() == PinPhase::Opening
        &&& new.message() == pin_message(old.moz_repo_name(), t.tag@, t.node@, u@)
        &&& new.spec_tag() == old.spec_tag()
    })
    &&& old.phase() == PinPhase::Opening ==> {
        &&& res@ == StepView::Hg(
            Repo::Comm,
            seq!["commit"@, "-m"@, old.message(), ".gecko_rev.yml"@],
        )
        &&& new.phase() == PinPhase::Committing
        &&& new.spec_tag() == old.spec_tag()
    }
    &&& old.phase() == PinPhase::Committing ==> {
        &&& res@ == StepView::Hg(Repo::Comm, seq!["log"@, "-r"@, "."@, "-T"@, "{node}"@])
        &&& new.phase() == PinPhase::Resolving
        &&& new.spec_tag() == old.spec_tag()
    }
    &&& old.phase() == PinPhase::Resolving ==> {
        &&& res@ == StepView::Done
        &&& new.phase() == PinPhase::Finished
        &&& new.spec_tag() == old.spec_tag()
    }
    &&& old.phase() == PinPhase::Finished ==> res@ == StepView::Done && new.phase()
        == PinPhase::Finished
}

impl PinRun {
    #[verifier::type_invariant]
    spec fn well_formed(self) -> bool {
        &&& self.phase == PinPhase::FetchingTags ==> self.matcher is Some
        &&& (self.phase == PinPhase::ReadingGecko || self.phase == PinPhase::WritingGecko
            || self.phase == PinPhase::ReadingUser) ==> (self.tag matches Some(t)
            && has_short_node(t.node@))
        &&& (self.phase == PinPhase::Opening || self.phase == PinPhase::Committing
            || self.phase == PinPhase::Resolving || self.phase == PinPhase::Finished)
            ==> self.tag is Some || self.phase == PinPhase::Finished
    }

    pub closed spec fn phase(&self) -> PinPhase {
        self.phase
    }

    /// The name of the mozilla repository in the tag service.
    pub closed spec fn moz_repo_name(&self) -> Seq<char> {
        self.moz_repo_name@
    }

    /// The address of the mozilla repository.
    pub closed spec fn moz_url(&self) -> Seq<char> {
        self.moz_url@
    }

    /// Whether a failed read of the version file is reported with context.
    pub closed spec fn version_context(&self) -> bool {
        self.version_context
    }

    /// The major version whose tags are searched.
    pub closed spec fn major(&self) -> Seq<char> {
        match self.matcher {
            Some(m) => m.version(),
            None => seq![],
        }
    }

    /// The tag chosen, once there is one.
    pub closed spec fn spec_tag(&self) -> Option<TagData> {
        self.tag
    }

    /// The commit message, once it is known.
    pub closed spec fn message(&self) -> Seq<char> {
        self.message@
    }

    /// Whether `event` is the answer the last step gets.
    pub open spec fn awaits(&self, event: Event) -> bool {
        match self.phase() {
            PinPhase::ReadingVersion | PinPhase::ReadingGecko | PinPhase::ReadingUser
            | PinPhase::Committing | PinPhase::Resolving => event is Text,
            PinPhase::FetchingTags => event is Tags,
            _ => event is Proceed,
        }
    }

    /// A pin of the comm repository to a tag of the mozilla repository.
    /// With `version_context`, a failed read of the version file is
    /// reported as "failed to read PATH".
    pub fn new(repos: &Repositories, version_context: bool) -> (res: PinRun)
        ensures
            res.phase() == PinPhase::Start,
            res.moz_repo_name() == moz_repo_name_of(repos.spec_moz().kind),
            res.moz_url() == kind_url(repos.spec_moz().kind),
            res.version_context() == version_context,
    {
        let m_repo = repos.moz();
        let mut name: Vec<char> = Vec::new();
        push_str(&mut name, "mozilla-");
        push_str(&mut name, m_repo.kind.name().as_str());
        PinRun {
            moz_repo_name: from_chars(name.as_slice()),
            moz_url: m_repo.kind.url(),
            version_context,
            phase: PinPhase::Start,
            matcher: None,
            tag: None,
            message: String::new(),
        }
    }

    /// The tag the pin chose.
    pub fn tag(&self) -> (res: Option<&TagData>)
        ensures
            res == match self.spec_tag() {
                Some(t) => Some(&t),
                None => None::<&TagData>,
            },
    {
        match &self.tag {
            Some(t) => Some(t),
            None => None,
        }
    }

    /// The next step of the pin, given what the last one reported.
    pub fn next(&mut self, event: Event) -> (res: Step)
        requires
            old(self).awaits(event),
        ensures
            pin_next(*old(self), event, res, *final(self)),
    {
        proof {
            use_type_invariant(&*self);
        }
        match self.phase {
            PinPhase::Start => {
                self.phase = PinPhase::ReadingVersion;
                Step::ReadFile {
                    path: "mail/config/version.txt".to_owned(),
                    context: self.version_context,
                }
            },
            PinPhase::ReadingVersion => {
                let content = match event {
                    Event::Text(c) => c,
                    _ => {
                        assert(false);
                        String::new()
                    },
                };
                let major = major_version(content.as_str());
                match TagMatcher::new(major.as_str()) {
                    Ok(m) => {
                        self.matcher = Some(m);
                        self.phase = PinPhase::FetchingTags;
                        Step::FetchTags(tags_url(self.moz_repo_name.as_str()))
                    },
                    Err(e) => {
                        self.phase = PinPhase::Finished;
                        Step::Failed(e)
                    },
                }
            },
            PinPhase::FetchingTags => {
                let tags = match event {
                    Event::Tags(t) => t,
                    _ => {
                        assert(false);
                        Vec::new()
                    },
                };
                let found = match &self.matcher {
                    Some(m) => m.select(&tags),
                    None => {
                        assert(false);
                        Err(CliError::AnyError(String::new()))
                    },
                };
                match found {
                    Ok(t) => {
                        if !t.node.as_str().is_char_boundary(12) {
                            self.phase = PinPhase::Finished;
                            Step::Abort("tag node has no character boundary at byte 12".to_owned())
                        } else {
                            self.tag = Some(t);
                            self.phase = PinPhase::ReadingGecko;
                            Step::ReadFile { path: ".gecko_rev.yml".to_owned(), context: true }
                        }
                    },
                    Err(e) => {
                        self.phase = PinPhase::Finished;
                        Step::Failed(e)
                    },
                }
            },
            PinPhase::ReadingGecko => {
                let content = match event {
                    Event::Text(c) => c,
                    _ => {
                        assert(false);
                        String::new()
                    },
                };
                let updated = match &self.tag {
                    Some(t) => update_gecko_rev_content(content.as_str(), self.moz_url.as_str(), t),
                    None => {
                        assert(false);
                        Err(CliError::AnyError(String::new()))
                    },
                };
                match updated {
                    Ok(x) => {
                        self.phase = PinPhase::WritingGecko;
                        Step::WriteFile {
                            path: ".gecko_rev.yml".to_owned(),
                            contents: x,
                            context: Some("failed to write .gecko_rev.yml".to_owned()),
                        }
                    },
                    Err(e) => {
                        self.phase = PinPhase::Finished;
                        Step::Failed(e)
                    },
                }
            },
            PinPhase::WritingGecko => {
                self.phase = PinPhase::ReadingUser;
                Step::ReadUser
            },
            PinPhase::ReadingUser => {
                let user = match event {
                    Event::Text(u) => u,
                    _ => {
                        assert(false);
                        String::new()
                    },
                };
                let message = match &self.tag {
                    Some(t) => pin_commit_message(self.moz_repo_name.as_str(), t, user.as_str()),
                    None => {
                        assert(false);
                        String::new()
                    },
                };
                self.message = message;
                self.phase = PinPhase::Opening;
                Step::OpenHg(Repo::Comm)
            },
            PinPhase::Opening => {
                let mut files: Vec<String> = Vec::new();
                push_arg(&mut files, ".gecko_rev.yml");
                let args = CommitArgs {
                    message: self.message.clone(),
                    files,
                    close_branch: false,
                    user: None,
                    date: None,
                };
                self.phase = PinPhase::Committing;
                let cmd = args.command();
                assert(string_views(cmd@) =~= seq!["commit"@, "-m"@, self.message@, ".gecko_rev.yml"@]);
                Step::Hg(Repo::Comm, cmd)
            },
            PinPhase::Committing => {
                self.phase = PinPhase::Resolving;
                Step::Hg(Repo::Comm, resolve_rev_command("."))
            },
            PinPhase::Resolving => {
                self.phase = PinPhase::Finished;
                Step::Done
            },
            PinPhase::Finished => Step::Done,
        }
    }
}

/// Where an uplift run stands.
#[derive(Debug, Clone, Copy, PartialEq, Eq, Structural)]
pub enum UpliftPhase {
    Start,
    /// The repository is being opened.
    Opening,
    /// The k-th extension is being checked.
    CheckingExtension(usize),
    /// The log entry of the i-th revision is being listed.
    ReadingLog(usize),
    /// The i-th revision is being exported.
    ExportingOriginal(usize),
    /// The graft of the i-th revision is being tried.
    DryRunning(usize),
    /// The i-th revision is being grafted.
    Grafting(usize),
    /// The grafted description is being rewritten.
    EditingMessage(usize),
    /// The grafted changeset is being exported.
    ExportingGraft(usize),
    Finished,
}

/// The hg extensions an uplift needs.
pub open spec fn needed_extension(k: int) -> Seq<char> {
    if k == 0 {
        "histedit"@
    } else if k == 1 {
        "evolve"@
    } else {
        "firefoxtree"@
    }
}

/// The message of the abort when a revision lists no log entry.
pub open spec fn empty_log_abort() -> Seq<char> {
    "index out of bounds: the len is 0 but the index is 0"@
}

/// The message of the abort when the approval pattern does not compile.
pub open spec fn approval_pattern_abort() -> Seq<char> {
    "the approval pattern does not compile"@
}

/// Grafting commits onto the comm repository: each is dry-run, grafted and
/// its message rewritten to include the approver. With `check_patches`,
/// each graft is also compared with the original patch.
pub struct UpliftRun {
    approver: String,
    revs: Vec<String>,
    check_patches: bool,
    phase: UpliftPhase,
    desc: String,
    original: String,
}

/// One step of an uplift: `res` is what the run in state `old` asks for
/// after `event`, and `new` is its state afterwards.
pub open spec fn uplift_next(old: UpliftRun, event: Event, res: Step, new: UpliftRun) -> bool {
    &&& forall|e: Event| #[trigger] answers(res@, e) ==> new.awaits(e)
    &&& new.approver() == old.approver()
    &&& new.revs() == old.revs()
    &&& new.check_patches() == old.check_patches()
    &&& old.phase() == UpliftPhase::Start ==> res@ == StepView::OpenHg(Repo::Comm) && new.phase()
        == UpliftPhase::Opening
    &&& old.phase() == UpliftPhase::Opening ==> {
        &&& res@ == StepView::Hg(Repo::Comm, seq!["config"@, "extensions."@ + needed_extension(0)])
        &&& new.phase() == UpliftPhase::CheckingExtension(0)
    }
    &&& old.phase() matches UpliftPhase::CheckingExtension(k) ==> if k < 2 {
        &&& res@ == StepView::Hg(
            Repo::Comm,
            seq!["config"@, "extensions."@ + needed_extension(k + 1)],
        )
        &&& new.phase() == UpliftPhase::CheckingExtension((k + 1) as usize)
    } else if old.revs().len() > 0 {
        &&& res@ == StepView::Log(Repo::Comm, log_args(old.revs()[0]))
        &&& new.phase() == UpliftPhase::ReadingLog(0)
    } else {
        res@ == StepView::Done && new.phase() == UpliftPhase::Finished
    }
    &&& old.phase() matches UpliftPhase::ReadingLog(i) ==> (event matches Event::Descriptions(d)
        && if d@.len() == 0 {
        res@ == StepView::Abort(empty_log_abort()) && new.phase() == UpliftPhase::Finished
    } else if old.check_patches() {
        &&& res@ == StepView::Hg(Repo::Comm, seq!["export"@, "-r"@, old.revs()[i as int]])
        &&& new.phase() == UpliftPhase::ExportingOriginal(i)
        &&& new.desc() == d@[0]@
    } else {
        &&& res@ == StepView::Hg(Repo::Comm, dry_run_args(old.revs()[i as int]))
        &&& new.phase() == UpliftPhase::DryRunning(i)
        &&& new.desc() == d@[0]@
    })
    &&& old.phase() matches UpliftPhase::ExportingOriginal(i) ==> (event matches Event::Text(t) && {
        &&& res@ == StepView::Hg(Repo::Comm, dry_run_args(old.revs()[i as int]))
        &&& new.phase() == UpliftPhase::DryRunning(i)
        &&& new.desc() == old.desc()
        &&& new.original() == t@
    })
    &&& old.phase() matches UpliftPhase::DryRunning(i) ==> {
        &&& res@ == StepView::Hg(Repo::Comm, graft_args(old.revs()[i as int]))
        &&& new.phase() == UpliftPhase::Grafting(i)
        &&& new.desc() == old.desc()
        &&& new.original() == old.original()
    }
    &&& old.phase() matches UpliftPhase::Grafting(i) ==> if regex_compile_error(
        approval_pattern(),
    ) is Some {
        res@ == StepView::Abort(approval_pattern_abort()) && new.phase() == UpliftPhase::Finished
    } else {
        &&& res@ == StepView::Hg(
            Repo::Comm,
            metaedit_args(normalized_message(old.desc(), old.approver())),
        )
        &&& new.phase() == UpliftPhase::EditingMessage(i)
        &&& new.original() == old.original()
    }
    &&& old.phase() matches UpliftPhase::EditingMessage(i) ==> if old.check_patches() {
        &&& res@ == StepView::Hg(Repo::Comm, seq!["export"@, "-r"@, "."@])
        &&& new.phase() == UpliftPhase::ExportingGraft(i)
        &&& new.original() == old.original()
    } else if i + 1 < old.revs().len() {
        &&& res@ == StepView::Log(Repo::Comm, log_args(old.revs()[i + 1]))
        &&& new.phase() == UpliftPhase::ReadingLog((i + 1) as usize)
    } else {
        res@ == StepView::Done && new.phase() == UpliftPhase::Finished
    }
    &&& old.phase() matches UpliftPhase::ExportingGraft(i) ==> (event matches Event::Text(g)
        && if change_lines(old.original()) != change_lines(g@) {
        &&& res matches Step::Failed(CliError::CommandFailed(m))
        &&& m@ == diverged_message(old.revs()[i as int])
        &&& new.phase() == UpliftPhase::Finished
    } else if i + 1 < old.revs().len() {
        &&& res@ == StepView::Log(Repo::Comm, log_args(old.revs()[i + 1]))
        &&& new.phase() == UpliftPhase::ReadingLog((i + 1) as usize)
    } else {
        res@ == StepView::Done && new.phase() == UpliftPhase::Finished
    })
    &&& old.phase() == UpliftPhase::Finished ==> res@ == StepView::Done && new.phase()
        == UpliftPhase::Finished
}

/// The arguments that list the log entry of `rev` as JSON.
pub open spec fn log_args(rev: Seq<char>) -> Seq<Seq<char>> {
    seq!["log"@, "-T"@, "json"@, "-r"@, rev]
}

/// The arguments that try a graft of `rev` without making it.
pub open spec fn dry_run_args(rev: Seq<char>) -> Seq<Seq<char>> {
    seq!["graft"@, "-r"@, rev, "-n"@]
}

/// The arguments that graft `rev`.
pub open spec fn graft_args(rev: Seq<char>) -> Seq<Seq<char>> {
    seq!["graft"@, "-r"@, rev]
}

/// The arguments that replace the description of the working parent.
pub open spec fn metaedit_args(message: Seq<char>) -> Seq<Seq<char>> {
    seq!["metaedit"@, "-m"@, message]
}

/// The steps an uplift asks for to graft revision `rev`, once its log entry
/// gave the description `desc`: the original patch when patches are
/// compared, the dry run, the graft, the rewritten description, and the
/// grafted patch when patches are compared.
pub open spec fn revision_steps(
    rev: Seq<char>,
    desc: Seq<char>,
    approver: Seq<char>,
    check_patches: bool,
) -> Seq<StepView> {
    if check_patches {
        seq![
            StepView::Hg(Repo::Comm, seq!["export"@, "-r"@, rev]),
            StepView::Hg(Repo::Comm, dry_run_args(rev)),
            StepView::Hg(Repo::Comm, graft_args(rev)),
            StepView::Hg(Repo::Comm, metaedit_args(normalized_message(desc, approver))),
            StepView::Hg(Repo::Comm, seq!["export"@, "-r"@, "."@]),
        ]
    } else {
        seq![
            StepView::Hg(Repo::Comm, dry_run_args(rev)),
            StepView::Hg(Repo::Comm, graft_args(rev)),
            StepView::Hg(Repo::Comm, metaedit_args(normalized_message(desc, approver))),
        ]
    }
}

/// Whether `states`, `events` and `steps` are a run of an uplift: each step
/// is what the state before it asks for after the event, and leads to the
/// state after it.
pub open spec fn uplift_trace(states: Seq<UpliftRun>, events: Seq<Event>, steps: Seq<Step>) -> bool {
    &&& states.len() == steps.len() + 1
    &&& events.len() == steps.len()
    &&& forall|j: int| 0 <= j < steps.len() ==> #[trigger] uplift_step_at(states, events, steps, j)
}

/// Step `j` of a run follows from the state before it.
pub open spec fn uplift_step_at(
    states: Seq<UpliftRun>,
    events: Seq<Event>,
    steps: Seq<Step>,
    j: int,
) -> bool {
    uplift_next(states[j], events[j], steps[j], states[j + 1])
}

/// Where the steps of revision `i` start in a run: after the opening and
/// the three extension checks, each revision takes four steps, or six when
/// patches are compared.
pub open spec fn block_start(check_patches: bool, i: int) -> int {
    if check_patches {
        4 + 6 * i
    } else {
        4 + 4 * i
    }
}

/// The `o`-th step for revision `rev` with description `desc`: its log
/// entry, then the steps of `revision_steps`.
pub open spec fn block_view(
    rev: Seq<char>,
    desc: Seq<char>,
    approver: Seq<char>,
    check_patches: bool,
    o: int,
) -> StepView {
    if o == 0 {
        StepView::Log(Repo::Comm, log_args(rev))
    } else {
        revision_steps(rev, desc, approver, check_patches)[o - 1]
    }
}

/// The states of a run keep the approver, the revisions and whether
/// patches are compared.
proof fn lemma_trace_keeps(states: Seq<UpliftRun>, events: Seq<Event>, steps: Seq<Step>, j: int)
    requires
        uplift_trace(states, events, steps),
        0 <= j <= steps.len(),
    ensures
        states[j].approver() == states[0].approver(),
        states[j].revs() == states[0].revs(),
        states[j].check_patches() == states[0].check_patches(),
    decreases j,
{
    if j > 0 {
        lemma_trace_keeps(states, events, steps, j - 1);
        assert(uplift_step_at(states, events, steps, j - 1));
    }
}

/// Once the log entry of revision `i` is asked for, the run asks for the
/// rest of that revision's steps, then for the next revision's log entry,
/// or ends after the last; the log entry must answer with a description,
/// and with patch comparison the graft must change the same lines as the
/// original.
pub proof fn lemma_uplift_revision(
    states: Seq<UpliftRun>,
    events: Seq<Event>,
    steps: Seq<Step>,
    p: int,
    i: usize,
    desc: Seq<char>,
)
    requires
        uplift_trace(states, events, steps),
        0 <= p,
        p + (if states[p + 1].check_patches() { 6int } else { 4int }) < steps.len(),
        i < states[p + 1].revs().len(),
        states[p + 1].revs().len() <= usize::MAX,
        states[p + 1].phase() == UpliftPhase::ReadingLog(i),
        events[p + 1] matches Event::Descriptions(d) && d@.len() > 0 && d@[0]@ == desc,
        states[p + 1].check_patches() ==> (events[p + 2] matches Event::Text(a) && events[p
            + 6] matches Event::Text(b) && change_lines(a@) == change_lines(b@)),
        regex_compile_error(approval_pattern()) is None,
    ensures
        ({
            let s = states[p + 1];
            let b = if s.check_patches() { 6int } else { 4int };
            &&& forall|o: int|
                1 <= o < b ==> steps[p + o]@ == block_view(
                    s.revs()[i as int],
                    desc,
                    s.approver(),
                    s.check_patches(),
                    o,
                )
            &&& i + 1 < s.revs().len() ==> steps[p + b]@ == StepView::Log(
                Repo::Comm,
                log_args(s.revs()[i + 1]),
            ) && states[p + b + 1].phase() == UpliftPhase::ReadingLog((i + 1) as usize)
            &&& i + 1 >= s.revs().len() ==> steps[p + b]@ == StepView::Done && states[p + b
                + 1].phase() == UpliftPhase::Finished
        }),
{
    let s = states[p + 1];
    assert(uplift_step_at(states, events, steps, p + 1));
    assert(uplift_step_at(states, events, steps, p + 2));
    assert(uplift_step_at(states, events, steps, p + 3));
    assert(uplift_step_at(states, events, steps, p + 4));
    if s.check_patches() {
        assert(uplift_step_at(states, events, steps, p + 5));
        assert(uplift_step_at(states, events, steps, p + 6));
    }
}

/// A whole uplift: it asks to open the comm repository and to check the
/// histedit, evolve and firefoxtree extensions, then for each revision in
/// order its log entry, the original patch when patches are compared, the
/// dry run, the graft, the description rewritten for the approver, and the
/// grafted patch when patches are compared, and then it is done. This holds
/// when each log entry answers with a description and, with patch
/// comparison, each graft changes the same lines as the original.
pub proof fn lemma_uplift_whole_run(
    states: Seq<UpliftRun>,
    events: Seq<Event>,
    steps: Seq<Step>,
    descs: Seq<Seq<char>>,
)
    requires
        uplift_trace(states, events, steps),
        states[0].phase() == UpliftPhase::Start,
        states[0].revs().len() <= usize::MAX,
        steps.len() == block_start(states[0].check_patches(), states[0].revs().len() as int) + 1,
        descs.len() == states[0].revs().len(),
        forall|i: int|
            0 <= i < descs.len() ==> (#[trigger] events[block_start(states[0].check_patches(), i)
                + 1] matches Event::Descriptions(d) && d@.len() > 0 && d@[0]@ == descs[i]),
        states[0].check_patches() ==> forall|i: int|
            0 <= i < descs.len() ==> (#[trigger] events[block_start(true, i) + 2] matches Event::Text(
                a,
            ) && events[block_start(true, i) + 6] matches Event::Text(b) && change_lines(a@)
                == change_lines(b@)),
        regex_compile_error(approval_pattern()) is None,
    ensures
        steps[0]@ == StepView::OpenHg(Repo::Comm),
        forall|k: int|
            0 <= k < 3 ==> steps[1 + k]@ == StepView::Hg(
                Repo::Comm,
                seq!["config"@, "extensions."@ + #[trigger] needed_extension(k)],
            ),
        forall|i: int, o: int|
            0 <= i < descs.len() && 0 <= o < (if states[0].check_patches() { 6int } else { 4int })
                ==> steps[block_start(states[0].check_patches(), i) + o]@ == #[trigger] block_view(
                states[0].revs()[i],
                descs[i],
                states[0].approver(),
                states[0].check_patches(),
                o,
            ),
        steps[block_start(states[0].check_patches(), descs.len() as int)]@ == StepView::Done,
{
    let n = descs.len() as int;
    assert(uplift_step_at(states, events, steps, 0));
    assert(uplift_step_at(states, events, steps, 1));
    assert(uplift_step_at(states, events, steps, 2));
    assert(uplift_step_at(states, events, steps, 3));
    assert(uplift_step_at(states, events, steps, 4));
    lemma_trace_keeps(states, events, steps, 4);
    assert forall|k: int| 0 <= k < 3 implies steps[1 + k]@ == StepView::Hg(
        Repo::Comm,
        seq!["config"@, "extensions."@ + #[trigger] needed_extension(k)],
    ) by {
        if k == 0 {
        } else if k == 1 {
        } else {
        }
    }
    lemma_uplift_run_from(states, events, steps, descs, 0);
}

/// The run from revision `i` on, by induction over the revisions.
proof fn lemma_uplift_run_from(
    states: Seq<UpliftRun>,
    events: Seq<Event>,
    steps: Seq<Step>,
    descs: Seq<Seq<char>>,
    i: int,
)
    requires
        uplift_trace(states, events, steps),
        states[0].revs().len() <= usize::MAX,
        steps.len() == block_start(states[0].check_patches(), states[0].revs().len() as int) + 1,
        descs.len() == states[0].revs().len(),
        forall|k: int|
            0 <= k < descs.len() ==> (#[trigger] events[block_start(states[0].check_patches(), k)
                + 1] matches Event::Descriptions(d) && d@.len() > 0 && d@[0]@ == descs[k]),
        states[0].check_patches() ==> forall|k: int|
            0 <= k < descs.len() ==> (#[trigger] events[block_start(true, k) + 2] matches Event::Text(
                a,
            ) && events[block_start(true, k) + 6] matches Event::Text(b) && change_lines(a@)
                == change_lines(b@)),
        regex_compile_error(approval_pattern()) is None,
        0 <= i <= descs.len(),
        i < descs.len() ==> steps[block_start(states[0].check_patches(), i)]@ == StepView::Log(
            Repo::Comm,
            log_args(states[0].revs()[i]),
        ) && states[block_start(states[0].check_patches(), i) + 1].phase()
            == UpliftPhase::ReadingLog(i as usize),
        i == descs.len() ==> steps[block_start(states[0].check_patches(), i)]@ == StepView::Done,
    ensures
        forall|k: int, o: int|
            i <= k < descs.len() && 0 <= o < (if states[0].check_patches() { 6int } else { 4int })
                ==> steps[block_start(states[0].check_patches(), k) + o]@ == #[trigger] block_view(
                states[0].revs()[k],
                descs[k],
                states[0].approver(),
                states[0].check_patches(),
                o,
            ),
        steps[block_start(states[0].check_patches(), descs.len() as int)]@ == StepView::Done,
    decreases descs.len() - i,
{
    if i < descs.len() {
        let c = states[0].check_patches();
        let p = block_start(c, i);
        lemma_trace_keeps(states, events, steps, p + 1);
        assert(events[block_start(c, i) + 1] matches Event::Descriptions(d) && d@.len() > 0
            && d@[0]@ == descs[i]);
        if c {
            assert(events[block_start(true, i) + 2] matches Event::Text(a) && events[block_start(
                true,
                i,
            ) + 6] matches Event::Text(b) && change_lines(a@) == change_lines(b@));
        }
        lemma_uplift_revision(states, events, steps, p, i as usize, descs[i]);
        assert(block_start(c, i + 1) == p + (if c { 6int } else { 4int }));
        lemma_uplift_run_from(states, events, steps, descs, i + 1);
        assert forall|k: int, o: int|
            i <= k < descs.len() && 0 <= o < (if c { 6int } else { 4int }) implies steps[block_start(
            c,
            k,
        ) + o]@ == #[trigger] block_view(
            states[0].revs()[k],
            descs[k],
            states[0].approver(),
            c,
            o,
        ) by {
            if k == i && o > 0 {
                assert(1 <= o < (if c { 6int } else { 4int }));
            }
        }
    }
}

/// Once an uplift asks for something that is not outside work (it is done,
/// failed, or cannot go on), it asks for nothing more: every later step is
/// `Done`.
pub proof fn lemma_uplift_stops(states: Seq<UpliftRun>, events: Seq<Event>, steps: Seq<Step>, j: int)
    requires
        uplift_trace(states, events, steps),
        0 <= j < steps.len(),
        !is_action(steps[j]@),
    ensures
        forall|k: int| j < k < steps.len() ==> #[trigger] steps[k]@ == StepView::Done,
{
    assert(uplift_step_at(states, events, steps, j));
    assert(states[j + 1].phase() == UpliftPhase::Finished);
    lemma_uplift_finished(states, events, steps, j + 1);
}

proof fn lemma_uplift_finished(states: Seq<UpliftRun>, events: Seq<Event>, steps: Seq<Step>, j: int)
    requires
        uplift_trace(states, events, steps),
        0 <= j <= steps.len(),
        states[j].phase() == UpliftPhase::Finished,
    ensures
        forall|k: int| j <= k < steps.len() ==> #[trigger] steps[k]@ == StepView::Done,
    decreases steps.len() - j,
{
    if j < steps.len() {
        assert(uplift_step_at(states, events, steps, j));
        lemma_uplift_finished(states, events, steps, j + 1);
        assert forall|k: int| j <= k < steps.len() implies #[trigger] steps[k]@ == StepView::Done by {
            if k > j {
            }
        }
    }
}

/// The first arguments of the hg commands an uplift runs are all different.
proof fn lemma_uplift_verbs_differ()
    ensures
        "graft"@ != "export"@,
        "graft"@ != "metaedit"@,
        "graft"@ != "config"@,
        "metaedit"@ != "export"@,
        "metaedit"@ != "config"@,
{
    reveal_strlit("graft");
    reveal_strlit("export");
    reveal_strlit("metaedit");
    reveal_strlit("config");
    assert("graft"@[0] != "export"@[0]);
    assert("graft"@[0] != "metaedit"@[0]);
    assert("graft"@[0] != "config"@[0]);
    assert("metaedit"@[0] != "export"@[0]);
    assert("metaedit"@[0] != "config"@[0]);
}

/// An uplift grafts a revision only right after a dry run of that same
/// revision.
pub proof fn lemma_uplift_dry_run_first(
    s0: UpliftRun,
    e0: Event,
    r0: Step,
    s1: UpliftRun,
    e1: Event,
    r1: Step,
    s2: UpliftRun,
    rev: Seq<char>,
)
    requires
        uplift_next(s0, e0, r0, s1),
        uplift_next(s1, e1, r1, s2),
        r1@ == StepView::Hg(Repo::Comm, graft_args(rev)),
    ensures
        r0@ == StepView::Hg(Repo::Comm, dry_run_args(rev)),
{
    lemma_uplift_verbs_differ();
    let args = graft_args(rev);
    assert(args[0] == "graft"@);
    assert(args.len() == 3);
}

/// An uplift rewrites a description only right after it grafted a
/// revision, and the new description is the one of that revision's log
/// entry, stamped for the approver.
pub proof fn lemma_uplift_rewrites_after_graft(
    s0: UpliftRun,
    e0: Event,
    r0: Step,
    s1: UpliftRun,
    e1: Event,
    r1: Step,
    s2: UpliftRun,
    message: Seq<char>,
)
    requires
        uplift_next(s0, e0, r0, s1),
        uplift_next(s1, e1, r1, s2),
        r1@ == StepView::Hg(Repo::Comm, metaedit_args(message)),
    ensures
        s0.phase() matches UpliftPhase::DryRunning(i) && r0@ == StepView::Hg(
            Repo::Comm,
            graft_args(s0.revs()[i as int]),
        ),
        message == normalized_message(s0.desc(), s0.approver()),
{
    lemma_uplift_verbs_differ();
    let args = metaedit_args(message);
    assert(args[0] == "metaedit"@);
    assert(args.len() == 3);
}

impl UpliftRun {
    #[verifier::type_invariant]
    spec fn well_formed(self) -> bool {
        match self.phase {
            UpliftPhase::CheckingExtension(k) => k < 3,
            UpliftPhase::ReadingLog(i) | UpliftPhase::ExportingOriginal(i)
            | UpliftPhase::DryRunning(i) | UpliftPhase::Grafting(i)
            | UpliftPhase::EditingMessage(i) | UpliftPhase::ExportingGraft(i) => i
                < self.revs@.len(),
            _ => true,
        }
    }

    pub closed spec fn phase(&self) -> UpliftPhase {
        self.phase
    }

    pub closed spec fn approver(&self) -> Seq<char> {
        self.approver@
    }

    pub closed spec fn revs(&self) -> Seq<Seq<char>> {
        string_views(self.revs@)
    }

    pub closed spec fn check_patches(&self) -> bool {
        self.check_patches
    }

    /// The description of the revision being grafted.
    pub closed spec fn desc(&self) -> Seq<char> {
        self.desc@
    }

    /// The exported patch of the revision being grafted.
    pub closed spec fn original(&self) -> Seq<char> {
        self.original@
    }

    /// Whether `event` is the answer the last step gets.
    pub open spec fn awaits(&self, event: Event) -> bool {
        match self.phase() {
            UpliftPhase::Start | UpliftPhase::Opening | UpliftPhase::Finished => event is Proceed,
            UpliftPhase::ReadingLog(_) => event is Descriptions,
            _ => event is Text,
        }
    }

    /// An uplift of `revs` approved by `approver`.
    pub fn new(approver: &str, revs: &Vec<String>, check_patches: bool) -> (res: UpliftRun)
        ensures
            res.phase() == UpliftPhase::Start,
            res.approver() == approver@,
            res.revs() == string_views(revs@),
            res.check_patches() == check_patches,
    {
        let mut copy: Vec<String> = Vec::new();
        crate::args::push_strings(&mut copy, revs);
        assert(string_views(copy@) =~= string_views(revs@));
        UpliftRun {
            approver: approver.to_owned(),
            revs: copy,
            check_patches,
            phase: UpliftPhase::Start,
            desc: String::new(),
            original: String::new(),
        }
    }

    /// The step that begins revision `i`, or the end of the run.
    fn begin_rev(&mut self, i: usize) -> (res: Step)
        requires
            i <= old(self).revs@.len(),
        ensures
            final(self).approver() == old(self).approver(),
            final(self).revs() == old(self).revs(),
            final(self).check_patches() == old(self).check_patches(),
            i < old(self).revs().len() ==> res@ == StepView::Log(
                Repo::Comm,
                seq!["log"@, "-T"@, "json"@, "-r"@, old(self).revs()[i as int]],
            ) && final(self).phase() == UpliftPhase::ReadingLog(i),
            i >= old(self).revs().len() ==> res@ == StepView::Done && final(self).phase()
                == UpliftPhase::Finished,
    {
        if i < self.revs.len() {
            self.phase = UpliftPhase::ReadingLog(i);
            let args = LogArgs {
                revs: Some(self.revs[i].clone()),
                limit: None,
                follow: false,
                paths: Vec::new(),
            };
            assert(args.spec_command() =~= seq!["log"@, "-T"@, "json"@, "-r"@, self.revs@[i as int]@]);
            Step::Log(Repo::Comm, args)
        } else {
            self.phase = UpliftPhase::Finished;
            Step::Done
        }
    }

    /// The next step of the uplift, given what the last one reported.
    pub fn next(&mut self, event: Event) -> (res: Step)
        requires
            old(self).awaits(event),
        ensures
            uplift_next(*old(self), event, res, *final(self)),
    {
        proof {
            use_type_invariant(&*self);
            reveal_strlit("histedit");
            reveal_strlit("evolve");
            reveal_strlit("firefoxtree");
        }
        match self.phase {
            UpliftPhase::Start => {
                self.phase = UpliftPhase::Opening;
                Step::OpenHg(Repo::Comm)
            },
            UpliftPhase::Opening => {
                self.phase = UpliftPhase::CheckingExtension(0);
                Step::Hg(Repo::Comm, extension_check(0))
            },
            UpliftPhase::CheckingExtension(k) => {
                if k < 2 {
                    self.phase = UpliftPhase::CheckingExtension(k + 1);
                    Step::Hg(Repo::Comm, extension_check(k + 1))
                } else {
                    self.begin_rev(0)
                }
            },
            UpliftPhase::ReadingLog(i) => {
                let descs = match event {
                    Event::Descriptions(d) => d,
                    _ => {
                        assert(false);
                        Vec::new()
                    },
                };
                if descs.len() == 0 {
                    self.phase = UpliftPhase::Finished;
                    return Step::Abort(
                        "index out of bounds: the len is 0 but the index is 0".to_owned(),
                    );
                }
                self.desc = descs[0].clone();
                if self.check_patches {
                    self.phase = UpliftPhase::ExportingOriginal(i);
                    Step::Hg(Repo::Comm, crate::api::export_command(self.revs[i].as_str()))
                } else {
                    self.phase = UpliftPhase::DryRunning(i);
                    Step::Hg(Repo::Comm, graft_command(self.revs[i].as_str(), true))
                }
            },
            UpliftPhase::ExportingOriginal(i) => {
                let text = match event {
                    Event::Text(t) => t,
                    _ => {
                        assert(false);
                        String::new()
                    },
                };
                self.original = text;
                self.phase = UpliftPhase::DryRunning(i);
                Step::Hg(Repo::Comm, graft_command(self.revs[i].as_str(), true))
            },
            UpliftPhase::DryRunning(i) => {
                self.phase = UpliftPhase::Grafting(i);
                Step::Hg(Repo::Comm, graft_command(self.revs[i].as_str(), false))
            },
            UpliftPhase::Grafting(i) => {
                match normalize_uplift_message(self.desc.as_str(), self.approver.as_str()) {
                    Some(m) => {
                        self.phase = UpliftPhase::EditingMessage(i);
                        let mut v: Vec<String> = Vec::new();
                        push_arg(&mut v, "metaedit");
                        push_arg(&mut v, "-m");
                        push_arg(&mut v, m.as_str());
                        proof {
                            reveal_strlit("metaedit");
                            reveal_strlit("-m");
                            assert(string_views(v@) =~= seq!["metaedit"@, "-m"@, m@]);
                        }
                        Step::Hg(Repo::Comm, v)
                    },
                    None => {
                        self.phase = UpliftPhase::Finished;
                        Step::Abort("the approval pattern does not compile".to_owned())
                    },
                }
            },
            UpliftPhase::EditingMessage(i) => {
                if self.check_patches {
                    self.phase = UpliftPhase::ExportingGraft(i);
                    Step::Hg(Repo::Comm, crate::api::export_command("."))
                } else {
                    let n = self.revs.len();
                    assert(i < n);
                    self.begin_rev(i + 1)
                }
            },
            UpliftPhase::ExportingGraft(i) => {
                let grafted = match event {
                    Event::Text(t) => t,
                    _ => {
                        assert(false);
                        String::new()
                    },
                };
                match compare_patches(self.revs[i].as_str(), self.original.as_str(), grafted.as_str()) {
                    Ok(()) => {
                        let n = self.revs.len();
                        assert(i < n);
                        self.begin_rev(i + 1)
                    },
                    Err(e) => {
                        self.phase = UpliftPhase::Finished;
                        Step::Failed(e)
                    },
                }
            },
            UpliftPhase::Finished => Step::Done,
        }
    }
}

/// `hg config extensions.NAME` for the k-th needed extension.
fn extension_check(k: usize) -> (res: Vec<String>)
    requires
        k < 3,
    ensures
        string_views(res@) == seq!["config"@, "extensions."@ + needed_extension(k as int)],
{
    let mut name: Vec<char> = Vec::new();
    push_str(&mut name, "extensions.");
    if k == 0 {
        push_str(&mut name, "histedit");
    } else if k == 1 {
        push_str(&mut name, "evolve");
    } else {
        push_str(&mut name, "firefoxtree");
    }
    let mut v: Vec<String> = Vec::new();
    push_arg(&mut v, "config");
    let ghost before = v@;
    let s = from_chars(name.as_slice());
    v.push(s);
    assert(string_views(v@) =~= string_views(before).push(s@));
    v
}

/// `hg graft -r REV`, with `-n` for a dry run.
fn graft_command(rev: &str, dry_run: bool) -> (res: Vec<String>)
    ensures
        string_views(res@) == if dry_run {
            seq!["graft"@, "-r"@, rev@, "-n"@]
        } else {
            seq!["graft"@, "-r"@, rev@]
        },
{
    let mut v: Vec<String> = Vec::new();
    push_arg(&mut v, "graft");
    push_arg(&mut v, "-r");
    push_arg(&mut v, rev);
    if dry_run {
        push_arg(&mut v, "-n");
    }
    v
}

} // verus!
