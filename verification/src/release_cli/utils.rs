//! Resolving repositories and comparing patches.
use vstd::prelude::*;

use crate::release::cli::CommonArgs;
use crate::release::error::CliError;
use crate::release::channel::Channel;
use crate::release::repo::{parent_dir, path_parent, repos_for_channel, Repositories};
use crate::release::utils::{missing_esr_version, repos_of_args, resolvable};
use crate::text::{
    chars_eq, from_chars, has_prefix, lines, push_str, split_lines, starts_with, string_views,
    to_chars, views,
};

verus! {

/// Build the repositories from [`CommonArgs`]. The version names the
/// repositories on the ESR channel, where it must be given; the other
/// channels need none.
pub fn build_repos_from_args(common: &CommonArgs) -> (res: Result<Repositories, CliError>)
    requires
        resolvable(*common),
    ensures
        missing_esr_version(*common) ==> (res matches Err(CliError::MissingArgument(m)) && m@
            == "--version"@),
        !missing_esr_version(*common) ==> (res matches Ok(r) && repos_of_args(r, *common)),
{
    let version: &str = match common.channel {
        Channel::Esr => match &common.version {
            Some(v) => v.as_str(),
            None => {
                proof {
                    reveal_strlit("--version");
                }
                return Err(CliError::MissingArgument(from_chars(to_chars("--version").as_slice())));
            },
        },
        _ => "",
    };
    proof {
        reveal_strlit("");
    }
    let (comm, moz) = repos_for_channel(common.comm_dir.as_str(), &common.channel, version);
    Ok(Repositories::new(comm, moz))
}

/// The repositories `common` names, or `None` when its comm directory has
/// no parent directory to hold the mozilla repository.
pub fn try_build_repos_from_args(common: &CommonArgs) -> (res: Option<
    Result<Repositories, CliError>,
>)
    ensures
        missing_esr_version(*common) ==> (res matches Some(Err(CliError::MissingArgument(m)))
            && m@ == "--version"@),
        !missing_esr_version(*common) && path_parent(common.comm_dir@) is None ==> res is None,
        !missing_esr_version(*common) && path_parent(common.comm_dir@) is Some ==> (res matches Some(
            Ok(r),
        ) && repos_of_args(r, *common)),
{
    let missing_version = match common.channel {
        Channel::Esr => common.version.is_none(),
        _ => false,
    };
    if !missing_version && parent_dir(common.comm_dir.as_str()).is_none() {
        return None;
    }
    Some(build_repos_from_args(common))
}

/// Whether a patch line adds or removes a line, as opposed to naming a file.
pub open spec fn is_change_line(l: Seq<char>) -> bool {
    (has_prefix(l, "+"@) || has_prefix(l, "-"@)) && !has_prefix(l, "+++"@) && !has_prefix(
        l,
        "---"@,
    )
}

/// The lines from the first `diff ` line on.
pub open spec fn from_first_diff(ls: Seq<Seq<char>>) -> Seq<Seq<char>>
    decreases ls.len(),
{
    if ls.len() == 0 || has_prefix(ls[0], "diff "@) {
        ls
    } else {
        from_first_diff(ls.drop_first())
    }
}

/// The change lines among `ls`, in order.
pub open spec fn keep_changes(ls: Seq<Seq<char>>) -> Seq<Seq<char>>
    decreases ls.len(),
{
    if ls.len() == 0 {
        seq![]
    } else if is_change_line(ls[0]) {
        seq![ls[0]] + keep_changes(ls.drop_first())
    } else {
        keep_changes(ls.drop_first())
    }
}

/// The added and removed lines of a patch: after the header, without the
/// `+++` / `---` file markers.
pub open spec fn change_lines(patch: Seq<char>) -> Seq<Seq<char>> {
    keep_changes(from_first_diff(lines(patch)))
}

proof fn lemma_from_first_diff_at(ls: Seq<Seq<char>>, d: int)
    requires
        0 <= d <= ls.len(),
        d < ls.len() ==> has_prefix(ls[d], "diff "@),
        forall|j: int| 0 <= j < d ==> !has_prefix(ls[j], "diff "@),
    ensures
        from_first_diff(ls) == ls.skip(d),
    decreases ls.len(),
{
    if d == 0 {
        assert(ls.skip(0) =~= ls);
    } else {
        lemma_from_first_diff_at(ls.drop_first(), d - 1);
        assert(ls.drop_first().skip(d - 1) =~= ls.skip(d));
    }
}

/// Extracts only the added/removed lines from an `hg export` patch.
///
/// Skips the changeset header and commit message (everything before the first `diff` line),
/// then filters to lines starting with `+` or `-`, excluding `+++`/`---` file markers.
/// Works across multi-file patches — all hunks from all files are included.
pub fn extract_change_lines(patch: &str) -> (res: Vec<String>)
    ensures
        string_views(res@) == change_lines(patch@),
{
    let chars = to_chars(patch);
    let ls = split_lines(chars.as_slice());
    let diff = to_chars("diff ");
    let plus = to_chars("+");
    let minus = to_chars("-");
    let plus3 = to_chars("+++");
    let minus3 = to_chars("---");
    let mut d: usize = 0;
    while d < ls.len() && !starts_with(ls[d].as_slice(), diff.as_slice())
        invariant
            0 <= d <= ls@.len(),
            diff@ == "diff "@,
            forall|j: int| 0 <= j < d ==> !has_prefix(views(ls@)[j], "diff "@),
        decreases ls.len() - d,
    {
        d += 1;
    }
    proof {
        lemma_from_first_diff_at(views(ls@), d as int);
    }
    let mut out: Vec<String> = Vec::new();
    let mut i: usize = d;
    assert(string_views(out@) =~= seq![]);
    while i < ls.len()
        invariant
            d <= i <= ls@.len(),
            plus@ == "+"@,
            minus@ == "-"@,
            plus3@ == "+++"@,
            minus3@ == "---"@,
            keep_changes(views(ls@).skip(d as int)) == string_views(out@) + keep_changes(
                views(ls@).skip(i as int),
            ),
        decreases ls.len() - i,
    {
        let line = ls[i].as_slice();
        let ghost rest = views(ls@).skip(i as int);
        assert(rest[0] == line@);
        assert(rest.drop_first() =~= views(ls@).skip(i + 1));
        let keep = (starts_with(line, plus.as_slice()) || starts_with(line, minus.as_slice()))
            && !starts_with(line, plus3.as_slice()) && !starts_with(line, minus3.as_slice());
        if keep {
            let ghost before = out@;
            out.push(from_chars(line));
            assert(string_views(out@) =~= string_views(before).push(line@));
        }
        i += 1;
    }
    assert(views(ls@).skip(i as int) =~= seq![]);
    out
}

/// Whether two lists of strings are equal.
fn strings_eq(a: &Vec<String>, b: &Vec<String>) -> (res: bool)
    ensures
        res == (string_views(a@) == string_views(b@)),
{
    if a.len() != b.len() {
        assert(string_views(a@).len() != string_views(b@).len());
        return false;
    }
    let mut i: usize = 0;
    while i < a.len()
        invariant
            a@.len() == b@.len(),
            0 <= i <= a@.len(),
            forall|j: int| 0 <= j < i ==> a@[j]@ == b@[j]@,
        decreases a.len() - i,
    {
        let x = to_chars(a[i].as_str());
        let y = to_chars(b[i].as_str());
        if !chars_eq(x.as_slice(), y.as_slice()) {
            assert(string_views(a@)[i as int] != string_views(b@)[i as int]);
            return false;
        }
        i += 1;
    }
    assert(string_views(a@) =~= string_views(b@));
    true
}

/// The message of the error for a graft that changed the patch.
pub open spec fn diverged_message(rev: Seq<char>) -> Seq<char> {
    "patch "@ + rev + " diverged after graft"@
}

/// Compares the effective changes of an original commit against its grafted counterpart.
///
/// Strips `hg export` headers and file markers (`+++`/`---`), then compares only the
/// added/removed lines (`+`/`-`) from both patches. Returns an error if they diverge,
/// which indicates the graft introduced unintended changes (e.g. conflict resolution).
pub fn compare_patches(rev: &str, original: &str, grafted: &str) -> (res: Result<(), CliError>)
    ensures
        change_lines(original@) == change_lines(grafted@) ==> res is Ok,
        change_lines(original@) != change_lines(grafted@) ==> (res matches Err(
            CliError::CommandFailed(m),
        ) && m@ == diverged_message(rev@)),
{
    let orig_lines = extract_change_lines(original);
    let graft_lines = extract_change_lines(grafted);
    if strings_eq(&orig_lines, &graft_lines) {
        Ok(())
    } else {
        let mut m: Vec<char> = Vec::new();
        push_str(&mut m, "patch ");
        push_str(&mut m, rev);
        push_str(&mut m, " diverged after graft");
        Err(CliError::CommandFailed(from_chars(m.as_slice())))
    }
}

} // verus!
