//! Resolving repositories, rewriting uplift messages and comparing patches.
use vstd::prelude::*;

use crate::pattern::{compile, regex_compile_error, regex_replace_all, replace_all};
use crate::release::channel::Channel;
use crate::release::cli::CommonArgs;
use crate::release::error::CliError;
use crate::release::repo::{channel_repos, hg_url, kind_name, kind_url, parent_dir, path_parent, repos_for_channel, Repositories};
use crate::text::{contains, occurs_at, find_chars, lemma_index_of_at, from_chars, index_of, lines, push_all, push_str, replace, replace_chars, replace_first, replace_first_chars, split_lines, string_views, to_chars, views};

verus! {

/// The message of the error for an ESR run without a version.
pub open spec fn esr_version_message() -> Seq<char> {
    "--version is required when --channel esr"@
}

/// Whether `r` holds the repositories that `common` names.
pub open spec fn repos_of_args(r: Repositories, common: CommonArgs) -> bool {
    let version = match common.channel {
        Channel::Esr => common.version->Some_0@,
        _ => ""@,
    };
    channel_repos(
        (*r.spec_comm(), *r.spec_moz()),
        common.comm_dir@,
        path_parent(common.comm_dir@)->Some_0,
        common.channel,
        version,
    )
}

/// The version that names the repositories of `common`: the given version
/// on the ESR channel, nothing on the others.
pub open spec fn args_version(common: CommonArgs) -> Seq<char> {
    match common.channel {
        Channel::Esr => common.version->Some_0@,
        _ => ""@,
    }
}

/// Whether `common` names an ESR run without a version.
pub open spec fn missing_esr_version(common: CommonArgs) -> bool {
    common.channel == Channel::Esr && common.version is None
}

/// Whether the repositories of `common` can be resolved or refused without
/// a panic: the ESR version is missing, or the comm directory has a parent.
pub open spec fn resolvable(common: CommonArgs) -> bool {
    missing_esr_version(common) || path_parent(common.comm_dir@) is Some
}

/// The branch name of the comm repository of `channel`.
pub open spec fn comm_name_of(channel: Channel, version: Seq<char>) -> Seq<char> {
    match channel {
        Channel::Beta => "comm-beta"@,
        Channel::Release => "comm-release"@,
        Channel::Esr => "comm-esr"@ + version,
    }
}

/// The branch name of the mozilla repository of `channel`.
pub open spec fn moz_name_of(channel: Channel, version: Seq<char>) -> Seq<char> {
    match channel {
        Channel::Beta => "beta"@,
        Channel::Release => "release"@,
        Channel::Esr => "esr"@ + version,
    }
}

/// The address of the comm repository of `channel`.
pub open spec fn comm_url_of(channel: Channel, version: Seq<char>) -> Seq<char> {
    hg_url() + comm_name_of(channel, version)
}

/// The address of the mozilla repository of `channel`.
pub open spec fn moz_url_of(channel: Channel, version: Seq<char>) -> Seq<char> {
    hg_url() + "mozilla-"@ + moz_name_of(channel, version)
}

/// The names and addresses of resolved repositories are those of their
/// channel.
pub proof fn lemma_repos_names(r: Repositories, common: CommonArgs)
    requires
        !missing_esr_version(common),
        repos_of_args(r, common),
    ensures
        kind_name(r.spec_comm().kind) == comm_name_of(common.channel, args_version(common)),
        kind_name(r.spec_moz().kind) == moz_name_of(common.channel, args_version(common)),
        kind_url(r.spec_comm().kind) == comm_url_of(common.channel, args_version(common)),
        kind_url(r.spec_moz().kind) == moz_url_of(common.channel, args_version(common)),
        r.spec_comm().spec_is_esr() <==> common.channel == Channel::Esr,
        r.spec_comm().cwd@ == common.comm_dir@,
        r.spec_moz().cwd@ == path_parent(common.comm_dir@)->Some_0,
{
}

/// Build the repositories from [`CommonArgs`], resolving the comm and mozilla repositories.
///
/// For ESR channels, `--version` is required to construct the versioned
/// branch name (e.g. `comm-esr128` / `mozilla-esr128`).
pub fn build_repos_from_args(common: &CommonArgs) -> (res: Result<Repositories, CliError>)
    requires
        (common.channel == Channel::Esr && common.version is None) || path_parent(
            common.comm_dir@,
        ) is Some,
    ensures
        common.channel == Channel::Esr && common.version is None ==> (res matches Err(
            CliError::MissingArgument(m),
        ) && m@ == esr_version_message()),
        !(common.channel == Channel::Esr && common.version is None) ==> (res matches Ok(r)
            && repos_of_args(r, *common)),
{
    let version: &str = match common.channel {
        Channel::Esr => match &common.version {
            Some(v) => v.as_str(),
            None => {
                proof {
                    reveal_strlit("--version is required when --channel esr");
                }
                return Err(
                    CliError::MissingArgument(
                        from_chars(to_chars("--version is required when --channel esr").as_slice()),
                    ),
                );
            },
        },
        _ => "",
    };
    let (comm, moz) = repos_for_channel(common.comm_dir.as_str(), &common.channel, version);
    Ok(Repositories::new(comm, moz))
}

/// The repositories `common` names, or `None` when its comm directory has
/// no parent directory to hold the mozilla repository.
pub fn try_build_repos_from_args(common: &CommonArgs) -> (res: Option<
    Result<Repositories, CliError>,
>)
    ensures
        common.channel == Channel::Esr && common.version is None ==> (res matches Some(
            Err(CliError::MissingArgument(m)),
        ) && m@ == esr_version_message()),
        !(common.channel == Channel::Esr && common.version is None) && path_parent(
            common.comm_dir@,
        ) is None ==> res is None,
        !(common.channel == Channel::Esr && common.version is None) && path_parent(
            common.comm_dir@,
        ) is Some ==> (res matches Some(Ok(r)) && repos_of_args(r, *common)),
{
    let missing_version = match common.channel {
        Channel::Esr => common.version.is_none(),
        _ => false,
    };
    if !missing_version && parent_dir(common.comm_dir.as_str()).is_none() {
        return None;
    }
    Some(build_repos_from_args(common))
}

/// The regular expression for approval annotations.
pub open spec fn approval_pattern() -> Seq<char> {
    "a=[A-Za-z0-9]+"@
}

/// The first line of an uplift's description rewritten for `approver`.
pub open spec fn normalized_first_line(first: Seq<char>, approver: Seq<char>) -> Seq<char> {
    let collapsed = replace(first, "r+a="@, "r="@);
    stamped_line(regex_replace_all(approval_pattern(), collapsed, ""@), approver)
}

/// A first line whose approvals were removed, stamped for `approver`: an
/// `r=NAME` tag of the approver turns to `r+a=NAME`, else `a=NAME` is added
/// at the end; the `DONTBUILD` marker goes away.
pub open spec fn stamped_line(stripped: Seq<char>, approver: Seq<char>) -> Seq<char> {
    let reviewer = "r="@ + approver;
    let stamped = if contains(stripped, reviewer) {
        replace_first(stripped, reviewer, "r+a="@ + approver)
    } else {
        stripped + " a="@ + approver
    };
    replace(stamped, " DONTBUILD"@, ""@)
}

/// An uplift's description rewritten for `approver`: the first line
/// normalized, the rest unchanged.
pub open spec fn normalized_message(desc: Seq<char>, approver: Seq<char>) -> Seq<char> {
    let i = index_of(desc, '\n') as int;
    normalized_first_line(desc.take(i), approver) + desc.skip(i)
}

/// The description of an uplift with its first line stamped for `approver`:
/// earlier approvals are dropped, the approver is added as `a=NAME`, or as
/// `r+a=NAME` where the line already holds `r=NAME`, and the `DONTBUILD` marker
/// goes away.
///
/// `None` only when the regex engine refuses the approval pattern.
pub fn normalize_uplift_message(desc: &str, approver: &str) -> (res: Option<String>)
    ensures
        regex_compile_error(approval_pattern()) is Some ==> res is None,
        regex_compile_error(approval_pattern()) is None ==> (res matches Some(s) && s@
            == normalized_message(desc@, approver@)),
{
    let chars = to_chars(desc);
    let newline = ['\n'];
    let found = find_chars(chars.as_slice(), &newline);
    let (first, rest) = match found {
        Some(pos) => (copy(chars.as_slice(), 0, pos), copy(chars.as_slice(), pos, chars.len())),
        None => (copy(chars.as_slice(), 0, chars.len()), Vec::new()),
    };
    proof {
        let s = chars@;
        let i = index_of(s, '\n');
        assert(newline@ =~= seq!['\n']);
        match found {
            Some(p) => {
                let pos = p as int;
                assert(s.subrange(pos, pos + 1)[0] == s[pos]);
                assert forall|j: int| 0 <= j < pos implies s[j] != '\n' by {
                    if s[j] == '\n' {
                        assert(s.subrange(j, j + 1) =~= seq!['\n']);
                        assert(occurs_at(s, newline@, j));
                    }
                }
                lemma_index_of_at(s, '\n', pos);
            },
            None => {
                assert forall|j: int| 0 <= j < s.len() implies s[j] != '\n' by {
                    if s[j] == '\n' {
                        assert(s.subrange(j, j + 1) =~= seq!['\n']);
                        assert(occurs_at(s, newline@, j));
                    }
                }
                lemma_index_of_at(s, '\n', s.len() as int);
            },
        }
    }
    let r_plus_a = to_chars("r+a=");
    let r_eq = to_chars("r=");
    proof {
        reveal_strlit("r+a=");
        reveal_strlit("r=");
        reveal_strlit(" DONTBUILD");
    }
    let collapsed = from_chars(replace_chars(first.as_slice(), r_plus_a.as_slice(), r_eq.as_slice()).as_slice());
    let re = match compile("a=[A-Za-z0-9]+") {
        Ok(re) => re,
        Err(_) => return None,
    };
    let stripped = replace_all(&re, collapsed.as_str(), "");
    let mut normalized = to_chars(stamp_approver(stripped.as_str(), approver).as_str());
    push_all(&mut normalized, rest.as_slice());
    Some(from_chars(normalized.as_slice()))
}

/// Stamps a first line whose approvals were removed for `approver`.
pub fn stamp_approver(stripped: &str, approver: &str) -> (res: String)
    ensures
        res@ == stamped_line(stripped@, approver@),
{
    proof {
        reveal_strlit("r+a=");
        reveal_strlit("r=");
        reveal_strlit(" a=");
        reveal_strlit(" DONTBUILD");
        reveal_strlit("");
    }
    let stripped = to_chars(stripped);
    let mut reviewer = to_chars("r=");
    push_str(&mut reviewer, approver);
    let stamped = if find_chars(stripped.as_slice(), reviewer.as_slice()).is_some() {
        let mut upgraded = to_chars("r+a=");
        push_str(&mut upgraded, approver);
        replace_first_chars(stripped.as_slice(), reviewer.as_slice(), upgraded.as_slice())
    } else {
        let mut appended = stripped;
        push_str(&mut appended, " a=");
        push_str(&mut appended, approver);
        appended
    };
    let marker = to_chars(" DONTBUILD");
    let empty: Vec<char> = Vec::new();
    assert(empty@ =~= ""@);
    let line = replace_chars(stamped.as_slice(), marker.as_slice(), empty.as_slice());
    from_chars(line.as_slice())
}

fn copy(s: &[char], from: usize, to: usize) -> (res: Vec<char>)
    requires
        from <= to <= s@.len(),
    ensures
        res@ == s@.subrange(from as int, to as int),
{
    crate::text::copy_range(s, from, to)
}

/// The lines of a command's output, one log record each.
pub fn log_output(output: String) -> (res: Vec<String>)
    ensures
        string_views(res@) == lines(output@),
{
    let chars = to_chars(output.as_str());
    let ls = split_lines(chars.as_slice());
    let mut res: Vec<String> = Vec::new();
    let mut i: usize = 0;
    while i < ls.len()
        invariant
            i <= ls@.len(),
            string_views(res@) == views(ls@).take(i as int),
        decreases ls@.len() - i,
    {
        let ghost before = res@;
        res.push(from_chars(ls[i].as_slice()));
        assert(string_views(res@) =~= views(ls@).take(i + 1 as int)) by {
            assert(string_views(res@) =~= string_views(before).push(ls@[i as int]@));
        }
        i += 1;
    }
    assert(views(ls@).take(ls@.len() as int) =~= views(ls@));
    res
}

/// Only the first line of a description is rewritten: for the position `i`
/// of its first newline (its length when it has none), the message is the
/// normalization of exactly the text before `i`, followed by the text from
/// `i` on, unchanged.
pub proof fn lemma_only_first_line_changes(desc: Seq<char>, approver: Seq<char>, i: int)
    requires
        0 <= i <= desc.len(),
        forall|j: int| 0 <= j < i ==> desc[j] != '\n',
        i < desc.len() ==> desc[i] == '\n',
    ensures
        normalized_message(desc, approver) == normalized_first_line(desc.take(i), approver)
            + desc.skip(i),
        desc.skip(i).len() == desc.len() - i,
        forall|k: int|
            0 <= k < desc.len() - i ==> #[trigger] normalized_message(desc, approver)[normalized_first_line(
                desc.take(i),
                approver,
            ).len() + k] == desc[i + k],
{
    lemma_index_of_at(desc, '\n', i);
}

} // verus!
