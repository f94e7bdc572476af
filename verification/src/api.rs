//! The hg commands behind each high-level operation, and how their output
//! is read.
pub mod types;

use vstd::prelude::*;

use crate::args::{
    opt_flag, opt_str_flag, push_arg, push_number, push_opt, push_opt_str, push_string,
    push_strings, push_switch, switch,
};
use crate::connection::CommandOutput;
use crate::error::Error;
use crate::text::{
    decimal, decode_utf8_lossy, from_chars, string_views, to_chars, trim, trim_chars,
    utf8_lossy_text,
};

verus! {

/// Arguments for `hg log`.
#[derive(Debug)]
pub struct LogArgs {
    /// Revision or revset expression (`-r`).
    pub revs: Option<String>,
    /// Maximum number of entries (`-l`).
    pub limit: Option<usize>,
    /// Follow renames (`-f`).
    pub follow: bool,
    /// Restrict to these file paths.
    pub paths: Vec<String>,
}

/// `flag` followed by the number, when there is a number.
pub open spec fn opt_number(flag: Seq<char>, value: Option<usize>) -> Seq<Seq<char>> {
    match value {
        Some(n) => seq![flag, decimal(n as nat)],
        None => seq![],
    }
}

impl Default for LogArgs {
    fn default() -> (res: LogArgs)
        ensures
            res.revs is None && res.limit is None && !res.follow && res.paths@.len() == 0,
    {
        LogArgs { revs: None, limit: None, follow: false, paths: Vec::new() }
    }
}

impl LogArgs {
    /// The `hg log` arguments these settings stand for.
    pub open spec fn spec_command(&self) -> Seq<Seq<char>> {
        seq!["log"@, "-T"@, "json"@] + opt_flag("-r"@, self.revs) + opt_number("-l"@, self.limit)
            + switch("-f"@, self.follow) + string_views(self.paths@)
    }

    /// The `hg log` arguments these settings stand for.
    pub fn command(&self) -> (res: Vec<String>)
        ensures
            string_views(res@) == self.spec_command(),
    {
        let mut v: Vec<String> = Vec::new();
        push_arg(&mut v, "log");
        push_arg(&mut v, "-T");
        push_arg(&mut v, "json");
        push_opt(&mut v, "-r", &self.revs);
        let ghost before = v@;
        match self.limit {
            Some(n) => {
                push_arg(&mut v, "-l");
                push_number(&mut v, n);
            },
            None => {},
        }
        assert(string_views(v@) =~= string_views(before) + opt_number("-l"@, self.limit));
        push_switch(&mut v, "-f", self.follow);
        push_strings(&mut v, &self.paths);
        assert(string_views(v@) =~= self.spec_command());
        v
    }
}

/// Arguments for `hg status`.
#[derive(Debug)]
pub struct StatusArgs {
    /// Show changes relative to this revision (`--rev`).
    pub rev: Option<String>,
    /// Show changes in a specific changeset (`--change`).
    pub change: Option<String>,
}

impl Default for StatusArgs {
    fn default() -> (res: StatusArgs)
        ensures
            res.rev is None && res.change is None,
    {
        StatusArgs { rev: None, change: None }
    }
}

impl StatusArgs {
    /// The `hg status` arguments these settings stand for.
    pub open spec fn spec_command(&self) -> Seq<Seq<char>> {
        seq!["status"@, "-T"@, "json"@] + opt_flag("--rev"@, self.rev) + opt_flag(
            "--change"@,
            self.change,
        )
    }

    /// The `hg status` arguments these settings stand for.
    pub fn command(&self) -> (res: Vec<String>)
        ensures
            string_views(res@) == self.spec_command(),
    {
        let mut v: Vec<String> = Vec::new();
        push_arg(&mut v, "status");
        push_arg(&mut v, "-T");
        push_arg(&mut v, "json");
        push_opt(&mut v, "--rev", &self.rev);
        push_opt(&mut v, "--change", &self.change);
        assert(string_views(v@) =~= self.spec_command());
        v
    }
}

/// Arguments for `hg diff`.
#[derive(Debug)]
pub struct DiffArgs {
    /// Revision(s) to diff (`-r`).
    pub revs: Option<String>,
    /// Restrict to these file paths.
    pub paths: Vec<String>,
    /// Number of context lines (`-U`).
    pub unified: Option<usize>,
}

impl Default for DiffArgs {
    fn default() -> (res: DiffArgs)
        ensures
            res.revs is None && res.paths@.len() == 0 && res.unified is None,
    {
        DiffArgs { revs: None, paths: Vec::new(), unified: None }
    }
}

impl DiffArgs {
    /// The `hg diff` arguments these settings stand for.
    pub open spec fn spec_command(&self) -> Seq<Seq<char>> {
        seq!["diff"@] + opt_flag("-r"@, self.revs) + opt_number("-U"@, self.unified) + string_views(
            self.paths@,
        )
    }

    /// The `hg diff` arguments these settings stand for.
    pub fn command(&self) -> (res: Vec<String>)
        ensures
            string_views(res@) == self.spec_command(),
    {
        let mut v: Vec<String> = Vec::new();
        push_arg(&mut v, "diff");
        push_opt(&mut v, "-r", &self.revs);
        let ghost before = v@;
        match self.unified {
            Some(n) => {
                push_arg(&mut v, "-U");
                push_number(&mut v, n);
            },
            None => {},
        }
        assert(string_views(v@) =~= string_views(before) + opt_number("-U"@, self.unified));
        push_strings(&mut v, &self.paths);
        assert(string_views(v@) =~= self.spec_command());
        v
    }
}

/// Arguments for `hg annotate`.
#[derive(Debug)]
pub struct AnnotateArgs {
    /// Annotate at this revision (`-r`).
    pub rev: Option<String>,
    /// Include user information.
    pub user: bool,
    /// Include date information.
    pub date: bool,
}

impl Default for AnnotateArgs {
    fn default() -> (res: AnnotateArgs)
        ensures
            res.rev is None && !res.user && !res.date,
    {
        AnnotateArgs { rev: None, user: false, date: false }
    }
}

impl AnnotateArgs {
    /// The `hg annotate` arguments for `file` with these settings.
    pub open spec fn spec_command(&self, file: Seq<char>) -> Seq<Seq<char>> {
        seq!["annotate"@, "-T"@, "json"@, file] + opt_flag("-r"@, self.rev) + switch(
            "--user"@,
            self.user,
        ) + switch("--date"@, self.date)
    }

    /// The `hg annotate` arguments for `file` with these settings.
    pub fn command(&self, file: &str) -> (res: Vec<String>)
        ensures
            string_views(res@) == self.spec_command(file@),
    {
        let mut v: Vec<String> = Vec::new();
        push_arg(&mut v, "annotate");
        push_arg(&mut v, "-T");
        push_arg(&mut v, "json");
        push_arg(&mut v, file);
        push_opt(&mut v, "-r", &self.rev);
        push_switch(&mut v, "--user", self.user);
        push_switch(&mut v, "--date", self.date);
        assert(string_views(v@) =~= self.spec_command(file@));
        v
    }
}

/// Arguments for `hg commit`.
#[derive(Debug)]
pub struct CommitArgs {
    /// Commit message (`-m`).
    pub message: String,
    /// User/author override (`-u`).
    pub user: Option<String>,
    /// Only commit these files. If empty, commits all tracked changes.
    pub files: Vec<String>,
    /// Close the current branch head (`--close-branch`).
    pub close_branch: bool,
    /// Record a commit date (`-d`).
    pub date: Option<String>,
}

impl CommitArgs {
    /// The `hg commit` arguments these settings stand for.
    pub open spec fn spec_command(&self) -> Seq<Seq<char>> {
        seq!["commit"@, "-m"@, self.message@] + opt_flag("-u"@, self.user) + opt_flag(
            "-d"@,
            self.date,
        ) + switch("--close-branch"@, self.close_branch) + string_views(self.files@)
    }

    /// The `hg commit` arguments these settings stand for.
    pub fn command(&self) -> (res: Vec<String>)
        ensures
            string_views(res@) == self.spec_command(),
    {
        let mut v: Vec<String> = Vec::new();
        push_arg(&mut v, "commit");
        push_arg(&mut v, "-m");
        push_string(&mut v, &self.message);
        push_opt(&mut v, "-u", &self.user);
        push_opt(&mut v, "-d", &self.date);
        push_switch(&mut v, "--close-branch", self.close_branch);
        push_strings(&mut v, &self.files);
        assert(string_views(v@) =~= self.spec_command());
        v
    }
}

/// Arguments for `hg update`.
#[derive(Debug)]
pub struct UpdateArgs {
    /// Revision to update to.
    pub rev: Option<String>,
    /// Discard uncommitted changes (`-C`).
    pub clean: bool,
}

impl Default for UpdateArgs {
    fn default() -> (res: UpdateArgs)
        ensures
            res.rev is None && !res.clean,
    {
        UpdateArgs { rev: None, clean: false }
    }
}

impl UpdateArgs {
    /// The `hg update` arguments these settings stand for.
    pub open spec fn spec_command(&self) -> Seq<Seq<char>> {
        seq!["update"@] + opt_flag("-r"@, self.rev) + switch("-C"@, self.clean)
    }

    /// The `hg update` arguments these settings stand for.
    pub fn command(&self) -> (res: Vec<String>)
        ensures
            string_views(res@) == self.spec_command(),
    {
        let mut v: Vec<String> = Vec::new();
        push_arg(&mut v, "update");
        push_opt(&mut v, "-r", &self.rev);
        push_switch(&mut v, "-C", self.clean);
        assert(string_views(v@) =~= self.spec_command());
        v
    }
}

/// The `hg cat` arguments for `file`, at `rev` when given.
pub fn cat_command(file: &str, rev: Option<&str>) -> (res: Vec<String>)
    ensures
        string_views(res@) == seq!["cat"@, file@] + opt_str_flag("-r"@, rev),
{
    let mut v: Vec<String> = Vec::new();
    push_arg(&mut v, "cat");
    push_arg(&mut v, file);
    push_opt_str(&mut v, "-r", rev);
    assert(string_views(v@) =~= seq!["cat"@, file@] + opt_str_flag("-r"@, rev));
    v
}

/// The arguments that resolve `rev` to its full node hash.
pub fn resolve_rev_command(rev: &str) -> (res: Vec<String>)
    ensures
        string_views(res@) == seq!["log"@, "-r"@, rev@, "-T"@, "{node}"@],
{
    let mut v: Vec<String> = Vec::new();
    push_arg(&mut v, "log");
    push_arg(&mut v, "-r");
    push_arg(&mut v, rev);
    push_arg(&mut v, "-T");
    push_arg(&mut v, "{node}");
    assert(string_views(v@) =~= seq!["log"@, "-r"@, rev@, "-T"@, "{node}"@]);
    v
}

/// The arguments that export `rev` as a patch.
pub fn export_command(rev: &str) -> (res: Vec<String>)
    ensures
        string_views(res@) == seq!["export"@, "-r"@, rev@],
{
    let mut v: Vec<String> = Vec::new();
    push_arg(&mut v, "export");
    push_arg(&mut v, "-r");
    push_arg(&mut v, rev);
    assert(string_views(v@) =~= seq!["export"@, "-r"@, rev@]);
    v
}

/// The arguments that read one configuration value.
pub fn config_get_command(name: &str) -> (res: Vec<String>)
    ensures
        string_views(res@) == seq!["config"@, name@],
{
    let mut v: Vec<String> = Vec::new();
    push_arg(&mut v, "config");
    push_arg(&mut v, name);
    assert(string_views(v@) =~= seq!["config"@, name@]);
    v
}

/// `verb` followed by each of `files`.
pub fn files_command(verb: &str, files: &Vec<String>) -> (res: Vec<String>)
    ensures
        string_views(res@) == seq![verb@] + string_views(files@),
{
    let mut v: Vec<String> = Vec::new();
    push_arg(&mut v, verb);
    push_strings(&mut v, files);
    assert(string_views(v@) =~= seq![verb@] + string_views(files@));
    v
}

/// The `hg tag` or `hg bookmark` arguments naming `name`, at `rev` when given.
pub fn name_command(verb: &str, name: &str, rev: Option<&str>) -> (res: Vec<String>)
    ensures
        string_views(res@) == seq![verb@, name@] + opt_str_flag("-r"@, rev),
{
    let mut v: Vec<String> = Vec::new();
    push_arg(&mut v, verb);
    push_arg(&mut v, name);
    push_opt_str(&mut v, "-r", rev);
    assert(string_views(v@) =~= seq![verb@, name@] + opt_str_flag("-r"@, rev));
    v
}

/// Whether command output holds nothing but whitespace.
pub fn is_blank(output: &str) -> (res: bool)
    ensures
        res == (trim(output@).len() == 0),
{
    let chars = to_chars(output);
    let t = trim_chars(chars.as_slice());
    t.len() == 0
}

/// Command output without surrounding whitespace.
pub fn trimmed(output: &str) -> (res: String)
    ensures
        res@ == trim(output@),
{
    let chars = to_chars(output);
    let t = trim_chars(chars.as_slice());
    from_chars(t.as_slice())
}

/// The value printed by `hg config NAME`: none when the command failed,
/// else its output without surrounding whitespace.
pub fn config_value(output: CommandOutput) -> (res: Option<String>)
    ensures
        output.return_code != 0 ==> res is None,
        output.return_code == 0 ==> (res matches Some(v) && v@ == trim(
            utf8_lossy_text(output.stdout@),
        )),
{
    if output.return_code != 0 {
        return None;
    }
    let text = decode_utf8_lossy(output.stdout.as_slice());
    Some(trimmed(text.as_str()))
}

/// The message of the error for an annotation without results.
pub open spec fn no_annotation_message() -> Seq<char> {
    "annotate returned no results"@
}

/// The first of the results, as `hg annotate` of one file gives them.
pub fn first_result<T>(results: Vec<T>) -> (res: Result<T, Error>)
    ensures
        results@.len() > 0 ==> res == Ok::<T, Error>(results@[0]),
        results@.len() == 0 ==> (res matches Err(Error::ProtocolError(m)) && m@
            == no_annotation_message()),
{
    let mut results = results;
    if results.len() == 0 {
        proof {
            reveal_strlit("annotate returned no results");
        }
        return Err(Error::ProtocolError(from_chars(to_chars("annotate returned no results").as_slice())));
    }
    Ok(results.remove(0))
}

impl CommandOutput {
    /// The raw standard output, or the failure when the command exited with
    /// a nonzero code.
    pub fn into_stdout(self) -> (res: Result<Vec<u8>, Error>)
        ensures
            self.return_code != 0 ==> (res matches Err(Error::CommandFailed { code, stderr })
                && code == self.return_code && stderr@ == utf8_lossy_text(self.stderr@)),
            self.return_code == 0 ==> (res matches Ok(v) && v@ == self.stdout@),
    {
        if self.return_code != 0 {
            return Err(
                Error::CommandFailed {
                    code: self.return_code,
                    stderr: decode_utf8_lossy(self.stderr.as_slice()),
                },
            );
        }
        Ok(self.stdout)
    }
}

/// Following renames adds exactly the argument `-f`, after the revision and
/// limit arguments and before the paths, whether or not paths are given:
/// two settings that differ only in `follow` give the same arguments but
/// for that one.
pub proof fn lemma_follow_adds_flag(a: LogArgs, b: LogArgs)
    requires
        a.follow,
        !b.follow,
        a.revs == b.revs,
        a.limit == b.limit,
        a.paths@ == b.paths@,
    ensures
        a.spec_command() == b.spec_command().insert(
            b.spec_command().len() - a.paths@.len(),
            "-f"@,
        ),
        a.spec_command().len() == b.spec_command().len() + 1,
        a.spec_command()[b.spec_command().len() - a.paths@.len()] == "-f"@,
{
    let base = seq!["log"@, "-T"@, "json"@] + opt_flag("-r"@, a.revs) + opt_number("-l"@, a.limit);
    let paths = string_views(a.paths@);
    assert(b.spec_command() =~= base + paths);
    assert(a.spec_command() =~= base + seq!["-f"@] + paths);
    assert(a.spec_command() =~= b.spec_command().insert(base.len() as int, "-f"@));
}

} // verus!
