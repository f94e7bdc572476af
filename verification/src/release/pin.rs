//! Pinning `.gecko_rev.yml` to a Mozilla tag.
use vstd::prelude::*;
use vstd::string::StringSliceAdditionalSpecFns;
use vstd::utf8::{decode_utf8, encode_utf8, is_char_boundary};

use crate::pattern::{compile, is_match, regex_compile_error, regex_is_match, CompiledRegex};
use crate::release::error::CliError;
use crate::text::{decimal, from_chars, has_prefix, index_of, join_lines, join_with_newlines, lines, push_decimal, push_str, split_lines, starts_with, string_views, to_chars, trim, trim_chars, views};

verus! {

/// A tag and the changeset it names.
#[derive(Debug)]
pub struct TagData {
    pub tag: String,
    pub node: String,
}

/// The address of the JSON tag list of a release repository.
pub open spec fn tags_url_of(repo: Seq<char>) -> Seq<char> {
    "https://hg.mozilla.org/releases/"@ + repo + "/json-tags"@
}

/// The address of the JSON tag list of a release repository.
pub fn tags_url(moz_repo_name: &str) -> (res: String)
    ensures
        res@ == tags_url_of(moz_repo_name@),
{
    let mut out: Vec<char> = Vec::new();
    push_str(&mut out, "https://hg.mozilla.org/releases/");
    push_str(&mut out, moz_repo_name);
    push_str(&mut out, "/json-tags");
    from_chars(out.as_slice())
}

/// How many of the newest tags are considered.
pub open spec fn tag_scan_limit() -> nat {
    10
}

/// The pattern of the branch-point tag of a major version.
pub open spec fn base_pattern(version: Seq<char>) -> Seq<char> {
    "^FIREFOX_RELEASE_"@ + version + "_BASE$"@
}

/// The pattern of the release and build tags of a major version.
pub open spec fn release_pattern(version: Seq<char>) -> Seq<char> {
    "^FIREFOX_"@ + version + "_[\\dbesr_]+(RELEASE|BUILD\\d)$"@
}

/// Whether a tag name is one of the tags of the major version.
pub open spec fn is_version_tag(name: Seq<char>, version: Seq<char>) -> bool {
    regex_is_match(base_pattern(version), name) || regex_is_match(release_pattern(version), name)
}

/// Index of the first tag among `tags` that belongs to the major version,
/// or `tags.len()` when there is none.
pub open spec fn first_version_tag(tags: Seq<TagData>, version: Seq<char>) -> nat
    decreases tags.len(),
{
    if tags.len() == 0 {
        0
    } else if is_version_tag(tags[0].tag@, version) {
        0
    } else {
        1 + first_version_tag(tags.drop_first(), version)
    }
}

/// The message of the error when no recent tag belongs to the version.
pub open spec fn no_tag_message(version: Seq<char>) -> Seq<char> {
    "no matching tag found in first "@ + decimal(tag_scan_limit()) + " tags for version "@
        + version
}

/// The two tag patterns of a major version, compiled.
pub struct TagMatcher {
    version: String,
    base: CompiledRegex,
    release: CompiledRegex,
}

impl TagMatcher {
    /// The major version whose tags this matcher finds.
    pub closed spec fn version(&self) -> Seq<char> {
        self.version@
    }

    #[verifier::type_invariant]
    spec fn well_formed(self) -> bool {
        &&& self.base.source() == base_pattern(self.version@)
        &&& self.release.source() == release_pattern(self.version@)
    }

    /// Compiles the tag patterns of `major_version`; a pattern the regex
    /// engine refuses is an error with its description.
    pub fn new(major_version: &str) -> (res: Result<TagMatcher, CliError>)
        ensures
            regex_compile_error(base_pattern(major_version@)) matches Some(m) ==> (
            res matches Err(CliError::AnyError(e)) && e@ == m),
            regex_compile_error(base_pattern(major_version@)) is None ==> (regex_compile_error(
                release_pattern(major_version@),
            ) matches Some(m) ==> (res matches Err(CliError::AnyError(e)) && e@ == m)),
            regex_compile_error(base_pattern(major_version@)) is None && regex_compile_error(
                release_pattern(major_version@),
            ) is None ==> (res matches Ok(t) && t.version() == major_version@),
    {
        let mut base_src: Vec<char> = Vec::new();
        push_str(&mut base_src, "^FIREFOX_RELEASE_");
        push_str(&mut base_src, major_version);
        push_str(&mut base_src, "_BASE$");
        let mut release_src: Vec<char> = Vec::new();
        push_str(&mut release_src, "^FIREFOX_");
        push_str(&mut release_src, major_version);
        push_str(&mut release_src, "_[\\dbesr_]+(RELEASE|BUILD\\d)$");
        let base = match compile(from_chars(base_src.as_slice()).as_str()) {
            Ok(r) => r,
            Err(e) => return Err(CliError::AnyError(e)),
        };
        let release = match compile(from_chars(release_src.as_slice()).as_str()) {
            Ok(r) => r,
            Err(e) => return Err(CliError::AnyError(e)),
        };
        Ok(TagMatcher { version: major_version.to_owned(), base, release })
    }

    /// Whether a tag name is one of the version's tags.
    pub fn matches(&self, name: &str) -> (res: bool)
        ensures
            res == is_version_tag(name@, self.version()),
    {
        proof {
            use_type_invariant(self);
        }
        is_match(&self.base, name) || is_match(&self.release, name)
    }

    /// The first of the newest tags that belongs to the version.
    ///
    /// Tags are in reverse-chronological order; the first ten are checked and
    /// the first that matches either the BASE or RELEASE/BUILD pattern is returned.
    pub fn select(&self, tags: &Vec<TagData>) -> (res: Result<TagData, CliError>)
        ensures
            ({
                let scanned = tags@.take(
                    if tags@.len() < tag_scan_limit() {
                        tags@.len() as int
                    } else {
                        tag_scan_limit() as int
                    },
                );
                let k = first_version_tag(scanned, self.version());
                if k < scanned.len() {
                    res == Ok::<TagData, CliError>(scanned[k as int])
                } else {
                    res matches Err(CliError::AnyError(m)) && m@ == no_tag_message(self.version())
                }
            }),
    {
        let ghost n = if tags@.len() < 10 { tags@.len() as int } else { 10 };
        let ghost scanned = tags@.take(n);
        let mut matched: Vec<bool> = Vec::new();
        let mut i: usize = 0;
        while i < tags.len() && i < 10
            invariant
                0 <= i <= n,
                n <= tags@.len(),
                n == if tags@.len() < 10 { tags@.len() as int } else { 10 },
                matched@.len() == i,
                forall|j: int| 0 <= j < i ==> matched@[j] == is_version_tag(
                    tags@[j].tag@,
                    self.version(),
                ),
            decreases tags.len() - i,
        {
            matched.push(self.matches(tags[i].tag.as_str()));
            i += 1;
        }
        proof {
            lemma_first_true_is_first_tag(matched@, scanned, self.version());
        }
        pick_tag(tags, &matched, self.version.as_str())
    }
}

/// Index of the first `true` in `s`, or `s.len()` when there is none.
pub open spec fn first_true(s: Seq<bool>) -> nat
    decreases s.len(),
{
    if s.len() == 0 {
        0
    } else if s[0] {
        0
    } else {
        1 + first_true(s.drop_first())
    }
}

proof fn lemma_first_true_is_first_tag(m: Seq<bool>, tags: Seq<TagData>, version: Seq<char>)
    requires
        m.len() == tags.len(),
        forall|j: int| 0 <= j < m.len() ==> m[j] == is_version_tag(tags[j].tag@, version),
    ensures
        first_true(m) == first_version_tag(tags, version),
    decreases m.len(),
{
    if m.len() > 0 {
        assert forall|j: int| 0 <= j < m.len() - 1 implies m.drop_first()[j] == is_version_tag(
            tags.drop_first()[j].tag@,
            version,
        ) by {
            assert(m.drop_first()[j] == m[j + 1]);
            assert(tags.drop_first()[j] == tags[j + 1]);
        }
        lemma_first_true_is_first_tag(m.drop_first(), tags.drop_first(), version);
    }
}

proof fn lemma_first_true_at(m: Seq<bool>, k: int)
    requires
        0 <= k <= m.len(),
        k < m.len() ==> m[k],
        forall|j: int| 0 <= j < k ==> !m[j],
    ensures
        first_true(m) == k,
    decreases m.len(),
{
    if k > 0 {
        lemma_first_true_at(m.drop_first(), k - 1);
    }
}

/// The first of `tags` whose entry in `matched` is `true`, among the first
/// `matched.len()` tags, or the error that no tag of `version` was found.
pub fn pick_tag(tags: &Vec<TagData>, matched: &Vec<bool>, version: &str) -> (res: Result<
    TagData,
    CliError,
>)
    requires
        matched@.len() <= tags@.len(),
    ensures
        first_true(matched@) < matched@.len() ==> res == Ok::<TagData, CliError>(
            tags@[first_true(matched@) as int],
        ),
        first_true(matched@) >= matched@.len() ==> (res matches Err(CliError::AnyError(m)) && m@
            == no_tag_message(version@)),
{
    let mut i: usize = 0;
    while i < matched.len()
        invariant
            0 <= i <= matched@.len(),
            matched@.len() <= tags@.len(),
            forall|j: int| 0 <= j < i ==> !matched@[j],
        decreases matched.len() - i,
    {
        if matched[i] {
            proof {
                lemma_first_true_at(matched@, i as int);
            }
            return Ok(tags[i].duplicate());
        }
        i += 1;
    }
    proof {
        lemma_first_true_at(matched@, i as int);
    }
    let mut m: Vec<char> = Vec::new();
    push_str(&mut m, "no matching tag found in first ");
    push_decimal(&mut m, 10);
    push_str(&mut m, " tags for version ");
    push_str(&mut m, version);
    Err(CliError::AnyError(from_chars(m.as_slice())))
}

impl TagData {
    /// A copy of this tag.
    pub fn duplicate(&self) -> (res: TagData)
        ensures
            res == *self,
    {
        TagData { tag: self.tag.clone(), node: self.node.clone() }
    }
}

/// Index of the first line that is not a comment and starts with `key`, or
/// `ls.len()` when there is none.
pub open spec fn key_line(ls: Seq<Seq<char>>, key: Seq<char>) -> nat
    decreases ls.len(),
{
    if ls.len() == 0 {
        0
    } else if !has_prefix(ls[0], "#"@) && has_prefix(ls[0], key) {
        0
    } else {
        1 + key_line(ls.drop_first(), key)
    }
}

/// Index of the first line that starts with `key`, comment or not, or
/// `ls.len()` when there is none.
pub open spec fn prefix_line(ls: Seq<Seq<char>>, key: Seq<char>) -> nat
    decreases ls.len(),
{
    if ls.len() == 0 {
        0
    } else if has_prefix(ls[0], key) {
        0
    } else {
        1 + prefix_line(ls.drop_first(), key)
    }
}

/// A `key: value` line.
pub open spec fn key_value(key: Seq<char>, value: Seq<char>) -> Seq<char> {
    key + ": "@ + value
}

/// The lines with the first active `key` line replaced by `key: value`, and
/// whether there was one.
pub open spec fn set_key_lines(ls: Seq<Seq<char>>, key: Seq<char>, value: Seq<char>) -> (
    Seq<Seq<char>>,
    bool,
) {
    let j = key_line(ls, key);
    if j < ls.len() {
        (ls.update(j as int, key_value(key, value)), true)
    } else {
        (ls, false)
    }
}

proof fn lemma_key_line_at(ls: Seq<Seq<char>>, key: Seq<char>, k: int)
    requires
        0 <= k <= ls.len(),
        k < ls.len() ==> !has_prefix(ls[k], "#"@) && has_prefix(ls[k], key),
        forall|j: int| 0 <= j < k ==> !(!has_prefix(ls[j], "#"@) && has_prefix(ls[j], key)),
    ensures
        key_line(ls, key) == k,
    decreases ls.len(),
{
    if k > 0 {
        lemma_key_line_at(ls.drop_first(), key, k - 1);
    }
}

proof fn lemma_prefix_line_at(ls: Seq<Seq<char>>, key: Seq<char>, k: int)
    requires
        0 <= k <= ls.len(),
        k < ls.len() ==> has_prefix(ls[k], key),
        forall|j: int| 0 <= j < k ==> !has_prefix(ls[j], key),
    ensures
        prefix_line(ls, key) == k,
    decreases ls.len(),
{
    if k > 0 {
        lemma_prefix_line_at(ls.drop_first(), key, k - 1);
    }
}

/// Index of the first line that is not a comment and starts with `key`.
fn find_key_line(lines: &Vec<String>, key: &str) -> (res: usize)
    ensures
        res == key_line(string_views(lines@), key@),
        res <= lines@.len(),
{
    let hash = to_chars("#");
    let key_chars = to_chars(key);
    proof {
        reveal_strlit("#");
    }
    let mut i: usize = 0;
    while i < lines.len()
        invariant
            0 <= i <= lines@.len(),
            hash@ == "#"@,
            key_chars@ == key@,
            forall|j: int| 0 <= j < i ==> !(!has_prefix(string_views(lines@)[j], "#"@)
                && has_prefix(string_views(lines@)[j], key@)),
        decreases lines.len() - i,
    {
        let line = to_chars(lines[i].as_str());
        if !starts_with(line.as_slice(), hash.as_slice()) && starts_with(
            line.as_slice(),
            key_chars.as_slice(),
        ) {
            proof {
                lemma_key_line_at(string_views(lines@), key@, i as int);
            }
            return i;
        }
        i += 1;
    }
    proof {
        lemma_key_line_at(string_views(lines@), key@, i as int);
    }
    i
}

/// Index of the first line that starts with `key`.
fn find_prefix_line(lines: &Vec<String>, key: &str) -> (res: usize)
    ensures
        res == prefix_line(string_views(lines@), key@),
        res <= lines@.len(),
{
    let key_chars = to_chars(key);
    let mut i: usize = 0;
    while i < lines.len()
        invariant
            0 <= i <= lines@.len(),
            key_chars@ == key@,
            forall|j: int| 0 <= j < i ==> !has_prefix(string_views(lines@)[j], key@),
        decreases lines.len() - i,
    {
        let line = to_chars(lines[i].as_str());
        if starts_with(line.as_slice(), key_chars.as_slice()) {
            proof {
                lemma_prefix_line_at(string_views(lines@), key@, i as int);
            }
            return i;
        }
        i += 1;
    }
    proof {
        lemma_prefix_line_at(string_views(lines@), key@, i as int);
    }
    i
}

/// `key: value` as a string.
fn key_value_string(key: &str, value: &str) -> (res: String)
    ensures
        res@ == key_value(key@, value@),
{
    let mut out: Vec<char> = Vec::new();
    push_str(&mut out, key);
    push_str(&mut out, ": ");
    push_str(&mut out, value);
    from_chars(out.as_slice())
}

/// Replace the value of `key: ...` on the first non-commented matching line.
/// Returns true if the key was found and updated, false if it wasn't present.
pub fn set_key(lines: &mut Vec<String>, key: &str, value: &str) -> (res: bool)
    ensures
        (string_views(final(lines)@), res) == set_key_lines(string_views(old(lines)@), key@, value@),
{
    let j = find_key_line(lines, key);
    if j < lines.len() {
        let ghost before = lines@;
        lines.set(j, key_value_string(key, value));
        assert(string_views(lines@) =~= string_views(before).update(j as int, key_value(key@, value@)));
        true
    } else {
        false
    }
}

/// The key of the repository line.
pub open spec fn repository_key() -> Seq<char> {
    "GECKO_HEAD_REPOSITORY"@
}

/// The key of the tag line.
pub open spec fn ref_key() -> Seq<char> {
    "GECKO_HEAD_REF"@
}

/// The key of the changeset line.
pub open spec fn rev_key() -> Seq<char> {
    "GECKO_HEAD_REV"@
}

/// The message of the error when there is no repository line.
pub open spec fn no_repository_message() -> Seq<char> {
    "GECKO_HEAD_REPOSITORY not found in .gecko_rev.yml"@
}

/// The message of the error when the tag line cannot be found again.
pub open spec fn no_ref_message() -> Seq<char> {
    "GECKO_HEAD_REF not found after insert"@
}

/// The lines of `.gecko_rev.yml` pinned to a repository, tag and changeset,
/// or the message of what is missing.
pub open spec fn pinned_lines(
    ls: Seq<Seq<char>>,
    url: Seq<char>,
    tag: Seq<char>,
    node: Seq<char>,
) -> Result<Seq<Seq<char>>, Seq<char>> {
    let (ls1, _) = set_key_lines(ls, repository_key(), url);
    let (ls2, has_ref) = set_key_lines(ls1, ref_key(), tag);
    if !has_ref && prefix_line(ls2, repository_key()) >= ls2.len() {
        Err(no_repository_message())
    } else {
        let ls3 = if has_ref {
            ls2
        } else {
            ls2.insert(prefix_line(ls2, repository_key()) + 1 as int, key_value(ref_key(), tag))
        };
        let (ls4, has_rev) = set_key_lines(ls3, rev_key(), node);
        if !has_rev && key_line(ls4, ref_key()) >= ls4.len() {
            Err(no_ref_message())
        } else if has_rev {
            Ok(ls4)
        } else {
            Ok(ls4.insert(key_line(ls4, ref_key()) + 1 as int, key_value(rev_key(), node)))
        }
    }
}

/// The new contents of `.gecko_rev.yml`, or the message of what is missing.
pub open spec fn pinned_content(content: Seq<char>, url: Seq<char>, tag: Seq<char>, node: Seq<char>) -> Result<
    Seq<char>,
    Seq<char>,
> {
    match pinned_lines(lines(content), url, tag, node) {
        Ok(ls) => Ok(join_lines(ls) + "\n"@),
        Err(m) => Err(m),
    }
}

fn lines_of(content: &str) -> (res: Vec<String>)
    ensures
        string_views(res@) == lines(content@),
{
    let chars = to_chars(content);
    let ls = split_lines(chars.as_slice());
    let mut out: Vec<String> = Vec::new();
    let mut i: usize = 0;
    while i < ls.len()
        invariant
            0 <= i <= ls@.len(),
            string_views(out@) == views(ls@).take(i as int),
        decreases ls.len() - i,
    {
        let ghost before = out@;
        out.push(from_chars(ls[i].as_slice()));
        assert(string_views(out@) =~= string_views(before).push(ls@[i as int]@));
        assert(views(ls@).take(i + 1) =~= views(ls@).take(i as int).push(ls@[i as int]@));
        i += 1;
    }
    assert(views(ls@).take(ls@.len() as int) =~= views(ls@));
    out
}

fn joined(lines: &Vec<String>) -> (res: String)
    ensures
        res@ == join_lines(string_views(lines@)) + "\n"@,
{
    let mut chars: Vec<Vec<char>> = Vec::new();
    let mut i: usize = 0;
    while i < lines.len()
        invariant
            0 <= i <= lines@.len(),
            views(chars@) == string_views(lines@).take(i as int),
        decreases lines.len() - i,
    {
        let ghost before = chars@;
        chars.push(to_chars(lines[i].as_str()));
        assert(views(chars@) =~= views(before).push(lines@[i as int]@));
        assert(string_views(lines@).take(i + 1) =~= string_views(lines@).take(i as int).push(
            lines@[i as int]@,
        ));
        i += 1;
    }
    assert(string_views(lines@).take(lines@.len() as int) =~= string_views(lines@));
    let mut out = join_with_newlines(&chars);
    push_str(&mut out, "\n");
    from_chars(out.as_slice())
}

/// Pins the contents of `.gecko_rev.yml`, preserving comments and unrelated lines.
///
/// Replaces active (non-commented) key lines and inserts missing ones after
/// GECKO_HEAD_REPOSITORY. This avoids a full YAML round-trip which would strip
/// the comment block at the bottom of the file.
pub fn update_gecko_rev_content(content: &str, moz_repo_url: &str, tag: &TagData) -> (res: Result<
    String,
    CliError,
>)
    ensures
        pinned_content(content@, moz_repo_url@, tag.tag@, tag.node@) matches Ok(c) ==> (
        res matches Ok(s) && s@ == c),
        pinned_content(content@, moz_repo_url@, tag.tag@, tag.node@) matches Err(m) ==> (
        res matches Err(CliError::AnyError(e)) && e@ == m),
{
    let mut lines = lines_of(content);
    let ghost ls0 = string_views(lines@);
    set_key(&mut lines, "GECKO_HEAD_REPOSITORY", moz_repo_url);
    let ghost ls1 = string_views(lines@);
    if !set_key(&mut lines, "GECKO_HEAD_REF", tag.tag.as_str()) {
        let idx = find_prefix_line(&lines, "GECKO_HEAD_REPOSITORY");
        if idx >= lines.len() {
            proof {
                reveal_strlit("GECKO_HEAD_REPOSITORY not found in .gecko_rev.yml");
            }
            return Err(CliError::AnyError(from_chars(to_chars("GECKO_HEAD_REPOSITORY not found in .gecko_rev.yml").as_slice())));
        }
        let ghost before = lines@;
        lines.insert(idx + 1, key_value_string("GECKO_HEAD_REF", tag.tag.as_str()));
        assert(string_views(lines@) =~= string_views(before).insert(idx + 1, key_value(ref_key(), tag.tag@)));
    }
    let ghost ls3 = string_views(lines@);
    if !set_key(&mut lines, "GECKO_HEAD_REV", tag.node.as_str()) {
        let idx = find_key_line(&lines, "GECKO_HEAD_REF");
        if idx >= lines.len() {
            proof {
                reveal_strlit("GECKO_HEAD_REF not found after insert");
            }
            return Err(CliError::AnyError(from_chars(to_chars("GECKO_HEAD_REF not found after insert").as_slice())));
        }
        let ghost before = lines@;
        lines.insert(idx + 1, key_value_string("GECKO_HEAD_REV", tag.node.as_str()));
        assert(string_views(lines@) =~= string_views(before).insert(idx + 1, key_value(rev_key(), tag.node@)));
    }
    Ok(joined(&lines))
}

/// The major version in the contents of `mail/config/version.txt`: the
/// trimmed text up to its first dot.
pub open spec fn major_version_of(content: Seq<char>) -> Seq<char> {
    let t = trim(content);
    t.take(index_of(t, '.') as int)
}

/// The major version in the contents of `mail/config/version.txt`.
pub fn major_version(content: &str) -> (res: String)
    ensures
        res@ == major_version_of(content@),
{
    let chars = to_chars(content);
    let t = trim_chars(chars.as_slice());
    let mut i: usize = 0;
    while i < t.len() && t[i] != '.'
        invariant
            0 <= i <= t@.len(),
            forall|j: int| 0 <= j < i ==> t@[j] != '.',
        decreases t.len() - i,
    {
        i += 1;
    }
    proof {
        crate::text::lemma_index_of_at(t@, '.', i as int);
    }
    let head = crate::text::copy_range(t.as_slice(), 0, i);
    assert(head@ =~= t@.take(i as int));
    from_chars(head.as_slice())
}

/// The first twelve bytes of a node, as text.
pub open spec fn short_node(node: Seq<char>) -> Seq<char> {
    decode_utf8(encode_utf8(node).take(12))
}

/// Whether a node can be cut after its twelfth byte.
pub open spec fn has_short_node(node: Seq<char>) -> bool {
    is_char_boundary(encode_utf8(node), 12)
}

/// The commit message of a pin.
pub open spec fn pin_message(moz_repo_name: Seq<char>, tag: Seq<char>, node: Seq<char>, approver: Seq<char>) -> Seq<char> {
    "No bug - Pin "@ + moz_repo_name + " ("@ + tag + "/"@ + short_node(node) + "). r=release a="@
        + approver
}

/// The first twelve bytes of a node.
pub fn node_prefix(node: &str) -> (res: &str)
    requires
        has_short_node(node@),
    ensures
        res@ == short_node(node@),
{
    proof {
        broadcast use vstd::utf8::encode_utf8_decode_utf8;
    }
    let (head, _) = node.split_at(12);
    proof {
        broadcast use vstd::utf8::encode_utf8_decode_utf8;
        assert(head.spec_bytes() == encode_utf8(head@));
        assert(decode_utf8(head.spec_bytes()) == head@);
    }
    head
}

/// Build the commit message for a pin operation, approved by `approver`.
pub fn pin_commit_message(moz_repo_name: &str, tag: &TagData, approver: &str) -> (res: String)
    requires
        has_short_node(tag.node@),
    ensures
        res@ == pin_message(moz_repo_name@, tag.tag@, tag.node@, approver@),
{
    let mut out: Vec<char> = Vec::new();
    push_str(&mut out, "No bug - Pin ");
    push_str(&mut out, moz_repo_name);
    push_str(&mut out, " (");
    push_str(&mut out, tag.tag.as_str());
    push_str(&mut out, "/");
    push_str(&mut out, node_prefix(tag.node.as_str()));
    push_str(&mut out, "). r=release a=");
    push_str(&mut out, approver);
    from_chars(out.as_slice())
}

/// The release pattern of major version `v` starts with `^FIREFOX_`, the
/// version and `_`, and its character class lists digits and the letters
/// `b`, `e`, `s`, `r` and `_`, so that beta (`0b5`) and ESR (`0esr`) release
/// and build tags of the version are accepted; the tag ends in `RELEASE` or
/// `BUILD` and a digit.
pub proof fn lemma_release_pattern_shape(v: Seq<char>)
    ensures
        ({
            let p = release_pattern(v);
            let o: int = 10 + v.len() as int;
            &&& p.take(9) == "^FIREFOX_"@
            &&& p.subrange(9, 9 + v.len() as int) == v
            &&& p[9 + v.len() as int] == '_'
            &&& p[o] == '['
            &&& p.subrange(o + 1, o + 3) == "\\d"@
            &&& p[o + 3] == 'b'
            &&& p[o + 4] == 'e'
            &&& p[o + 5] == 's'
            &&& p[o + 6] == 'r'
            &&& p[o + 7] == '_'
            &&& p[o + 8] == ']'
            &&& p.skip(o + 9) == "+(RELEASE|BUILD\\d)$"@
        }),
{
    reveal_strlit("^FIREFOX_");
    reveal_strlit("_[\\dbesr_]+(RELEASE|BUILD\\d)$");
    reveal_strlit("\\d");
    reveal_strlit("+(RELEASE|BUILD\\d)$");
    let p = release_pattern(v);
    let o: int = 10 + v.len() as int;
    assert(p.take(9) =~= "^FIREFOX_"@);
    assert(p.subrange(9, 9 + v.len() as int) =~= v);
    assert(p.subrange(o + 1, o + 3) =~= "\\d"@);
    assert(p.skip(o + 9) =~= "+(RELEASE|BUILD\\d)$"@);
}

/// The base pattern of major version `v` accepts exactly the text
/// `FIREFOX_RELEASE_`, the version, and `_BASE`, anchored at both ends.
pub proof fn lemma_base_pattern_shape(v: Seq<char>)
    ensures
        ({
            let p = base_pattern(v);
            &&& p.len() == 23 + v.len()
            &&& p.take(17) == "^FIREFOX_RELEASE_"@
            &&& p.subrange(17, 17 + v.len() as int) == v
            &&& p.skip(17 + v.len() as int) == "_BASE$"@
        }),
{
    reveal_strlit("^FIREFOX_RELEASE_");
    reveal_strlit("_BASE$");
    let p = base_pattern(v);
    assert(p.take(17) =~= "^FIREFOX_RELEASE_"@);
    assert(p.subrange(17, 17 + v.len() as int) =~= v);
    assert(p.skip(17 + v.len() as int) =~= "_BASE$"@);
}

} // verus!
