//! The comm and mozilla repositories of a release channel.
use vstd::prelude::*;

use crate::release::channel::Channel;
use crate::text::push_str;
use crate::text::from_chars;

verus! {

pub enum CommRepository {
    Beta,
    Release,
    Esr(String),
}

pub enum MozillaRepository {
    Beta,
    Release,
    Esr(String),
}

pub enum RepositoryKind {
    Comm(CommRepository),
    Mozilla(MozillaRepository),
}

pub struct Repository {
    pub cwd: String,
    pub kind: RepositoryKind,
}

impl Repository {
    /// Whether this is an ESR repository.
    pub open spec fn spec_is_esr(&self) -> bool {
        match self.kind {
            RepositoryKind::Comm(CommRepository::Esr(_)) => true,
            RepositoryKind::Mozilla(MozillaRepository::Esr(_)) => true,
            _ => false,
        }
    }

    /// Whether this is an ESR repository.
    pub fn is_esr(&self) -> (res: bool)
        ensures
            res == self.spec_is_esr(),
    {
        match &self.kind {
            RepositoryKind::Comm(CommRepository::Esr(_)) => true,
            RepositoryKind::Mozilla(MozillaRepository::Esr(_)) => true,
            _ => false,
        }
    }
}

/// The comm repository and the mozilla repository around it.
pub struct Repositories {
    comm: Repository,
    moz: Repository,
}

impl Repositories {
    /// The comm repository.
    pub closed spec fn spec_comm(&self) -> &Repository {
        &self.comm
    }

    /// The mozilla repository.
    pub closed spec fn spec_moz(&self) -> &Repository {
        &self.moz
    }

    pub fn new(comm: Repository, moz: Repository) -> (res: Repositories)
        ensures
            *res.spec_comm() == comm,
            *res.spec_moz() == moz,
    {
        Repositories { comm, moz }
    }

    pub fn comm(&self) -> (res: &Repository)
        ensures
            res == self.spec_comm(),
    {
        &self.comm
    }

    pub fn moz(&self) -> (res: &Repository)
        ensures
            res == self.spec_moz(),
    {
        &self.moz
    }
}

/// What `Path::parent` gives for a path, as text, under the path rules of
/// the platform the tool is built for.
pub uninterp spec fn path_parent(path: Seq<char>) -> Option<Seq<char>>;

/// Calls `std::path::Path::parent`: the directory that holds `path`, if
/// any. A path given as `&str` is valid Unicode, so its parent converts back
/// to text without loss.
#[verifier::external_body]
pub(crate) fn parent_dir(path: &str) -> (res: Option<String>)
    ensures
        res is Some <==> path_parent(path@) is Some,
        res matches Some(p) ==> path_parent(path@) == Some(p@),
{
    match std::path::Path::new(path).parent() {
        Some(p) => Some(p.to_string_lossy().into_owned()),
        None => None,
    }
}

/// Whether the repositories are the comm and mozilla repositories of
/// `channel` (at `version` for ESR), in `comm_dir` and its parent.
pub open spec fn channel_repos(
    res: (Repository, Repository),
    comm_dir: Seq<char>,
    moz_dir: Seq<char>,
    channel: Channel,
    version: Seq<char>,
) -> bool {
    let (comm, moz) = res;
    &&& comm.cwd@ == comm_dir
    &&& moz.cwd@ == moz_dir
    &&& match channel {
        Channel::Beta => comm.kind == RepositoryKind::Comm(CommRepository::Beta) && moz.kind
            == RepositoryKind::Mozilla(MozillaRepository::Beta),
        Channel::Release => comm.kind == RepositoryKind::Comm(CommRepository::Release)
            && moz.kind == RepositoryKind::Mozilla(MozillaRepository::Release),
        Channel::Esr => (comm.kind matches RepositoryKind::Comm(CommRepository::Esr(v))
            && v@ == version) && (moz.kind matches RepositoryKind::Mozilla(
            MozillaRepository::Esr(w),
        ) && w@ == version),
    }
}

/// Off the ESR channel, the repositories of a channel do not depend on the
/// version; on each channel they are the channel's comm and mozilla
/// repositories, in the comm directory and its parent.
pub proof fn lemma_repos_ignore_version(
    res: (Repository, Repository),
    comm_dir: Seq<char>,
    moz_dir: Seq<char>,
    channel: Channel,
    v1: Seq<char>,
    v2: Seq<char>,
)
    requires
        channel != Channel::Esr,
    ensures
        channel_repos(res, comm_dir, moz_dir, channel, v1) == channel_repos(
            res,
            comm_dir,
            moz_dir,
            channel,
            v2,
        ),
{
}

/// Returns the comm and mozilla repositories for the given channel.
///
/// `comm_dir` is the path to the comm repository (passed via `--comm-dir`).
/// The mozilla repository lives in the parent of `comm_dir`, since the standard
/// checkout layout places comm/ inside the mozilla directory.
pub fn repos_for_channel(comm_dir: &str, channel: &Channel, version: &str) -> (res: (
    Repository,
    Repository,
))
    requires
        path_parent(comm_dir@) is Some,
    ensures
        channel_repos(res, comm_dir@, path_parent(comm_dir@)->Some_0, *channel, version@),
{
    let moz_dir = match parent_dir(comm_dir) {
        Some(p) => p,
        None => {
            assert(false);
            String::new()
        },
    };
    match channel {
        Channel::Beta => (
            Repository { kind: RepositoryKind::Comm(CommRepository::Beta), cwd: comm_dir.to_owned() },
            Repository { kind: RepositoryKind::Mozilla(MozillaRepository::Beta), cwd: moz_dir },
        ),
        Channel::Release => (
            Repository {
                kind: RepositoryKind::Comm(CommRepository::Release),
                cwd: comm_dir.to_owned(),
            },
            Repository { kind: RepositoryKind::Mozilla(MozillaRepository::Release), cwd: moz_dir },
        ),
        Channel::Esr => (
            Repository {
                kind: RepositoryKind::Comm(CommRepository::Esr(version.to_owned())),
                cwd: comm_dir.to_owned(),
            },
            Repository {
                kind: RepositoryKind::Mozilla(MozillaRepository::Esr(version.to_owned())),
                cwd: moz_dir,
            },
        ),
    }
}

/// The repositories for the channel, or `None` when `comm_dir` has no
/// parent directory to hold the mozilla repository.
pub fn try_repos_for_channel(comm_dir: &str, channel: &Channel, version: &str) -> (res: Option<
    (Repository, Repository),
>)
    ensures
        path_parent(comm_dir@) is None ==> res is None,
        path_parent(comm_dir@) is Some ==> (res matches Some(r) && channel_repos(
            r,
            comm_dir@,
            path_parent(comm_dir@)->Some_0,
            *channel,
            version@,
        )),
{
    match parent_dir(comm_dir) {
        Some(_) => Some(repos_for_channel(comm_dir, channel, version)),
        None => None,
    }
}

/// The base address of the release repositories.
pub open spec fn hg_url() -> Seq<char> {
    "https://hg.mozilla.org/releases/"@
}

/// The name of a repository's branch.
pub open spec fn kind_name(kind: RepositoryKind) -> Seq<char> {
    match kind {
        RepositoryKind::Comm(CommRepository::Beta) => "comm-beta"@,
        RepositoryKind::Comm(CommRepository::Release) => "comm-release"@,
        RepositoryKind::Comm(CommRepository::Esr(v)) => "comm-esr"@ + v@,
        RepositoryKind::Mozilla(MozillaRepository::Beta) => "beta"@,
        RepositoryKind::Mozilla(MozillaRepository::Release) => "release"@,
        RepositoryKind::Mozilla(MozillaRepository::Esr(v)) => "esr"@ + v@,
    }
}

/// The address a repository is pulled from: the releases address followed
/// by the repository's name.
pub open spec fn kind_url(kind: RepositoryKind) -> Seq<char> {
    match kind {
        RepositoryKind::Comm(_) => hg_url() + kind_name(kind),
        RepositoryKind::Mozilla(_) => hg_url() + "mozilla-"@ + kind_name(kind),
    }
}

impl RepositoryKind {
    pub fn name(&self) -> (res: String)
        ensures
            res@ == kind_name(*self),
    {
        let mut out: Vec<char> = Vec::new();
        match self {
            RepositoryKind::Comm(comm_repository) => match comm_repository {
                CommRepository::Beta => push_str(&mut out, "comm-beta"),
                CommRepository::Release => push_str(&mut out, "comm-release"),
                CommRepository::Esr(version) => {
                    push_str(&mut out, "comm-esr");
                    push_str(&mut out, version.as_str());
                },
            },
            RepositoryKind::Mozilla(mozilla_repository) => match mozilla_repository {
                MozillaRepository::Beta => push_str(&mut out, "beta"),
                MozillaRepository::Release => push_str(&mut out, "release"),
                MozillaRepository::Esr(version) => {
                    push_str(&mut out, "esr");
                    push_str(&mut out, version.as_str());
                },
            },
        }
        from_chars(out.as_slice())
    }

    /// Comm: https://hg.mozilla.org/releases/comm-beta
    /// Mozilla: https://hg.mozilla.org/releases/mozilla-beta
    pub fn url(&self) -> (res: String)
        ensures
            res@ == kind_url(*self),
    {
        let mut out: Vec<char> = Vec::new();
        push_str(&mut out, "https://hg.mozilla.org/releases/");
        match self {
            RepositoryKind::Comm(_) => {},
            RepositoryKind::Mozilla(_) => push_str(&mut out, "mozilla-"),
        }
        let name = self.name();
        push_str(&mut out, name.as_str());
        proof {
            assert(out@ =~= kind_url(*self));
        }
        from_chars(out.as_slice())
    }
}

} // verus!
