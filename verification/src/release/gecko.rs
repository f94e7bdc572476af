//! What pinning `.gecko_rev.yml` guarantees: the pinned keys read back the
//! values they were set to, and every other line stays as it was.
use vstd::prelude::*;

use crate::release::pin::{
    key_line, key_value, pinned_lines, prefix_line, ref_key, repository_key, rev_key,
    set_key_lines,
};
use crate::text::has_prefix;

verus! {

/// Whether `l` is an active `key` line: not a comment, and starting with
/// `key`.
pub open spec fn is_key_line(l: Seq<char>, key: Seq<char>) -> bool {
    !has_prefix(l, "#"@) && has_prefix(l, key)
}

/// Whether `l` is an active line of one of the keys a pin sets.
pub open spec fn is_pin_line(l: Seq<char>) -> bool {
    is_key_line(l, repository_key()) || is_key_line(l, ref_key()) || is_key_line(l, rev_key())
}

/// The lines a pin leaves alone, in order: comments, and lines of other
/// keys.
pub open spec fn unpinned(ls: Seq<Seq<char>>) -> Seq<Seq<char>>
    decreases ls.len(),
{
    if ls.len() == 0 {
        seq![]
    } else if is_pin_line(ls[0]) {
        unpinned(ls.drop_first())
    } else {
        seq![ls[0]] + unpinned(ls.drop_first())
    }
}

/// The value the first active `key` line of `ls` holds, if there is one.
pub open spec fn key_entry(ls: Seq<Seq<char>>, key: Seq<char>) -> Option<Seq<char>> {
    let j = key_line(ls, key);
    if j < ls.len() {
        Some(ls[j as int])
    } else {
        None
    }
}

proof fn lemma_key_line_facts(ls: Seq<Seq<char>>, key: Seq<char>)
    ensures
        key_line(ls, key) <= ls.len(),
        key_line(ls, key) < ls.len() ==> is_key_line(ls[key_line(ls, key) as int], key),
        forall|j: int| 0 <= j < key_line(ls, key) ==> !is_key_line(#[trigger] ls[j], key),
    decreases ls.len(),
{
    if ls.len() > 0 && !is_key_line(ls[0], key) {
        lemma_key_line_facts(ls.drop_first(), key);
        assert forall|j: int| 0 <= j < key_line(ls, key) implies !is_key_line(#[trigger] ls[j], key) by {
            if j > 0 {
                assert(ls[j] == ls.drop_first()[j - 1]);
            }
        }
    }
}

proof fn lemma_key_line_is(ls: Seq<Seq<char>>, key: Seq<char>, k: int)
    requires
        0 <= k <= ls.len(),
        k < ls.len() ==> is_key_line(ls[k], key),
        forall|j: int| 0 <= j < k ==> !is_key_line(#[trigger] ls[j], key),
    ensures
        key_line(ls, key) == k,
    decreases ls.len(),
{
    if k > 0 {
        assert forall|j: int| 0 <= j < k - 1 implies !is_key_line(#[trigger] ls.drop_first()[j], key) by {
            assert(ls.drop_first()[j] == ls[j + 1]);
        }
        lemma_key_line_is(ls.drop_first(), key, k - 1);
        assert(!is_key_line(ls[0], key));
    }
}

/// A key that does not start a comment finds its first active line where
/// it first starts a line.
proof fn lemma_prefix_is_key_line(ls: Seq<Seq<char>>, key: Seq<char>)
    requires
        key.len() > 0,
        key[0] != '#',
    ensures
        prefix_line(ls, key) == key_line(ls, key),
    decreases ls.len(),
{
    if ls.len() > 0 {
        lemma_prefix_is_key_line(ls.drop_first(), key);
        if has_prefix(ls[0], key) {
            assert(ls[0][0] == key[0]) by {
                assert(ls[0].take(key.len() as int)[0] == ls[0][0]);
            }
            if has_prefix(ls[0], "#"@) {
                reveal_strlit("#");
                assert(ls[0].take(1)[0] == ls[0][0]);
            }
        }
    }
}

/// Changing a line that is no active `key` line into another such line
/// keeps the first active `key` line where it is.
proof fn lemma_key_line_update(ls: Seq<Seq<char>>, key: Seq<char>, j: int, x: Seq<char>)
    requires
        0 <= j < ls.len(),
        !is_key_line(ls[j], key),
        !is_key_line(x, key),
    ensures
        key_line(ls.update(j, x), key) == key_line(ls, key),
{
    lemma_key_line_facts(ls, key);
    let k = key_line(ls, key) as int;
    let out = ls.update(j, x);
    assert forall|i: int| 0 <= i < k implies !is_key_line(#[trigger] out[i], key) by {
        if i != j {
            assert(out[i] == ls[i]);
        }
    }
    lemma_key_line_is(out, key, k);
}

/// Inserting a line moves the first active `key` line along, or makes the
/// new line the first one when it is an active `key` line that comes first.
proof fn lemma_key_line_insert(ls: Seq<Seq<char>>, key: Seq<char>, p: int, x: Seq<char>)
    requires
        0 <= p <= ls.len(),
    ensures
        !is_key_line(x, key) ==> key_line(ls.insert(p, x), key) == if key_line(ls, key) < p {
            key_line(ls, key)
        } else {
            key_line(ls, key) + 1
        },
        is_key_line(x, key) && key_line(ls, key) >= p ==> key_line(ls.insert(p, x), key) == p,
{
    lemma_key_line_facts(ls, key);
    let k = key_line(ls, key) as int;
    let out = ls.insert(p, x);
    if is_key_line(x, key) && k >= p {
        assert forall|i: int| 0 <= i < p implies !is_key_line(#[trigger] out[i], key) by {
            assert(out[i] == ls[i]);
        }
        lemma_key_line_is(out, key, p);
    } else if !is_key_line(x, key) {
        if k < p {
            assert forall|i: int| 0 <= i < k implies !is_key_line(#[trigger] out[i], key) by {
                assert(out[i] == ls[i]);
            }
            lemma_key_line_is(out, key, k);
        } else {
            assert forall|i: int| 0 <= i < k + 1 implies !is_key_line(#[trigger] out[i], key) by {
                if i < p {
                    assert(out[i] == ls[i]);
                } else if i > p {
                    assert(out[i] == ls[i - 1]);
                }
            }
            if k < ls.len() {
                assert(out[k + 1] == ls[k]);
            }
            lemma_key_line_is(out, key, k + 1);
        }
    }
}

/// The three keys a pin sets differ in their fourteenth character, so no
/// line starts with two of them; none starts a comment.
proof fn lemma_keys_distinct(l: Seq<char>)
    ensures
        !(has_prefix(l, ref_key()) && has_prefix(l, rev_key())),
        !(has_prefix(l, ref_key()) && has_prefix(l, repository_key())),
        !(has_prefix(l, rev_key()) && has_prefix(l, repository_key())),
        repository_key().len() > 0 && repository_key()[0] != '#',
        ref_key().len() > 0 && ref_key()[0] != '#',
        rev_key().len() > 0 && rev_key()[0] != '#',
        !has_prefix(repository_key(), "#"@),
        !has_prefix(ref_key(), "#"@),
        !has_prefix(rev_key(), "#"@),
{
    reveal_strlit("#");
    reveal_strlit("GECKO_HEAD_REPOSITORY");
    reveal_strlit("GECKO_HEAD_REF");
    reveal_strlit("GECKO_HEAD_REV");
    if has_prefix(l, ref_key()) {
        assert(l.take(14)[13] == 'F');
    }
    if has_prefix(l, rev_key()) {
        assert(l.take(14)[13] == 'V');
    }
    if has_prefix(l, repository_key()) {
        assert(l.take(21)[13] == 'P');
        assert(l.take(14)[13] == l[13]);
    }
    assert(repository_key().take(1)[0] == 'G');
    assert(ref_key().take(1)[0] == 'G');
    assert(rev_key().take(1)[0] == 'G');
}

/// A `key: value` line is an active `key` line.
proof fn lemma_key_value_line(key: Seq<char>, value: Seq<char>)
    requires
        !has_prefix(key, "#"@),
    ensures
        is_key_line(key_value(key, value), key),
{
    reveal_strlit("#");
    reveal_strlit(": ");
    let kv = key_value(key, value);
    assert(kv.take(key.len() as int) =~= key);
    if key.len() > 0 {
        assert(kv.take(1) =~= key.take(1));
    } else {
        assert(kv.take(1) =~= seq![':']);
        assert(kv.take(1)[0] != "#"@[0]);
    }
}

/// The `key: value` line of a pinned key is a line of that key only.
proof fn lemma_pin_value_line(key: Seq<char>, value: Seq<char>)
    requires
        key == repository_key() || key == ref_key() || key == rev_key(),
    ensures
        is_key_line(key_value(key, value), key),
        is_pin_line(key_value(key, value)),
        key != ref_key() ==> !is_key_line(key_value(key, value), ref_key()),
        key != rev_key() ==> !is_key_line(key_value(key, value), rev_key()),
        key != repository_key() ==> !is_key_line(key_value(key, value), repository_key()),
{
    lemma_keys_distinct(key_value(key, value));
    reveal_strlit("#");
    assert(!has_prefix(key, "#"@)) by {
        if has_prefix(key, "#"@) {
            assert(key.take(1)[0] == key[0]);
        }
    }
    lemma_key_value_line(key, value);
}

/// Setting `key` to `value` makes the first active `key` line read
/// `key: value` when there is one, and leaves every other line as it was;
/// it reports whether there was such a line.
pub proof fn lemma_set_key_reads_back(ls: Seq<Seq<char>>, key: Seq<char>, value: Seq<char>)
    requires
        !has_prefix(key, "#"@),
    ensures
        set_key_lines(ls, key, value).1 <==> key_entry(ls, key) is Some,
        set_key_lines(ls, key, value).1 ==> key_entry(set_key_lines(ls, key, value).0, key) == Some(
            key_value(key, value),
        ),
        !set_key_lines(ls, key, value).1 ==> set_key_lines(ls, key, value).0 == ls,
        set_key_lines(ls, key, value).0.len() == ls.len(),
        forall|i: int|
            0 <= i < ls.len() && i != key_line(ls, key) ==> #[trigger] set_key_lines(
                ls,
                key,
                value,
            ).0[i] == ls[i],
{
    lemma_key_line_facts(ls, key);
    let j = key_line(ls, key) as int;
    if j < ls.len() {
        let out = ls.update(j, key_value(key, value));
        lemma_key_value_line(key, value);
        assert forall|i: int| 0 <= i < j implies !is_key_line(#[trigger] out[i], key) by {
            assert(out[i] == ls[i]);
        }
        lemma_key_line_is(out, key, j);
    }
}

proof fn lemma_unpinned_concat(a: Seq<Seq<char>>, b: Seq<Seq<char>>)
    ensures
        unpinned(a + b) == unpinned(a) + unpinned(b),
    decreases a.len(),
{
    if a.len() == 0 {
        assert(a + b =~= b);
        assert(unpinned(a) + unpinned(b) =~= unpinned(b));
    } else {
        lemma_unpinned_concat(a.drop_first(), b);
        assert((a + b).drop_first() =~= a.drop_first() + b);
        assert((a + b)[0] == a[0]);
        if !is_pin_line(a[0]) {
            assert(seq![a[0]] + (unpinned(a.drop_first()) + unpinned(b)) =~= (seq![a[0]]
                + unpinned(a.drop_first())) + unpinned(b));
        }
    }
}

proof fn lemma_unpinned_single(l: Seq<char>)
    requires
        is_pin_line(l),
    ensures
        unpinned(seq![l]) == Seq::<Seq<char>>::empty(),
{
    assert(unpinned(Seq::<Seq<char>>::empty()) =~= Seq::<Seq<char>>::empty());
    assert(seq![l].drop_first() =~= Seq::<Seq<char>>::empty());
    assert(seq![l][0] == l);
}

/// Replacing a pin line by another keeps the unpinned lines.
proof fn lemma_unpinned_update(ls: Seq<Seq<char>>, j: int, x: Seq<char>)
    requires
        0 <= j < ls.len(),
        is_pin_line(ls[j]),
        is_pin_line(x),
    ensures
        unpinned(ls.update(j, x)) == unpinned(ls),
{
    let a = ls.take(j);
    let c = ls.skip(j + 1);
    assert(ls =~= a + seq![ls[j]] + c);
    assert(ls.update(j, x) =~= a + seq![x] + c);
    lemma_unpinned_concat(a + seq![ls[j]], c);
    lemma_unpinned_concat(a, seq![ls[j]]);
    lemma_unpinned_concat(a + seq![x], c);
    lemma_unpinned_concat(a, seq![x]);
    lemma_unpinned_single(ls[j]);
    lemma_unpinned_single(x);
    assert(unpinned(a) + Seq::<Seq<char>>::empty() =~= unpinned(a));
}

/// Inserting a pin line keeps the unpinned lines.
proof fn lemma_unpinned_insert(ls: Seq<Seq<char>>, p: int, x: Seq<char>)
    requires
        0 <= p <= ls.len(),
        is_pin_line(x),
    ensures
        unpinned(ls.insert(p, x)) == unpinned(ls),
{
    let a = ls.take(p);
    let c = ls.skip(p);
    assert(ls =~= a + c);
    assert(ls.insert(p, x) =~= a + seq![x] + c);
    lemma_unpinned_concat(a + seq![x], c);
    lemma_unpinned_concat(a, seq![x]);
    lemma_unpinned_concat(a, c);
    lemma_unpinned_single(x);
    assert(unpinned(a) + Seq::<Seq<char>>::empty() =~= unpinned(a));
}

/// Setting a pinned key keeps the unpinned lines.
proof fn lemma_set_key_unpinned(ls: Seq<Seq<char>>, key: Seq<char>, value: Seq<char>)
    requires
        key == repository_key() || key == ref_key() || key == rev_key(),
    ensures
        unpinned(set_key_lines(ls, key, value).0) == unpinned(ls),
{
    lemma_key_line_facts(ls, key);
    let j = key_line(ls, key) as int;
    if j < ls.len() {
        lemma_pin_value_line(key, value);
        lemma_unpinned_update(ls, j, key_value(key, value));
    }
}

/// Pinning keeps every comment and every line that is not an active line of
/// one of the pinned keys, in their order.
pub proof fn lemma_pin_keeps_other_lines(
    ls: Seq<Seq<char>>,
    url: Seq<char>,
    tag: Seq<char>,
    node: Seq<char>,
)
    requires
        pinned_lines(ls, url, tag, node) is Ok,
    ensures
        unpinned(pinned_lines(ls, url, tag, node)->Ok_0) == unpinned(ls),
{
    let (ls1, _) = set_key_lines(ls, repository_key(), url);
    let (ls2, has_ref) = set_key_lines(ls1, ref_key(), tag);
    lemma_set_key_unpinned(ls, repository_key(), url);
    lemma_set_key_unpinned(ls1, ref_key(), tag);
    let ls3 = if has_ref {
        ls2
    } else {
        let p = prefix_line(ls2, repository_key()) + 1;
        lemma_pin_value_line(ref_key(), tag);
        lemma_unpinned_insert(ls2, p as int, key_value(ref_key(), tag));
        ls2.insert(p as int, key_value(ref_key(), tag))
    };
    let (ls4, has_rev) = set_key_lines(ls3, rev_key(), node);
    lemma_set_key_unpinned(ls3, rev_key(), node);
    if !has_rev {
        let q = key_line(ls4, ref_key()) + 1;
        lemma_pin_value_line(rev_key(), node);
        lemma_unpinned_insert(ls4, q as int, key_value(rev_key(), node));
    }
}

/// After a pin, the active tag and changeset lines read the pinned tag and
/// changeset, and the repository line, when the file has one, reads the
/// pinned address.
pub proof fn lemma_pin_reads_back(ls: Seq<Seq<char>>, url: Seq<char>, tag: Seq<char>, node: Seq<char>)
    requires
        pinned_lines(ls, url, tag, node) is Ok,
    ensures
        key_entry(pinned_lines(ls, url, tag, node)->Ok_0, ref_key()) == Some(key_value(ref_key(), tag)),
        key_entry(pinned_lines(ls, url, tag, node)->Ok_0, rev_key()) == Some(key_value(rev_key(), node)),
        key_entry(ls, repository_key()) is Some ==> key_entry(
            pinned_lines(ls, url, tag, node)->Ok_0,
            repository_key(),
        ) == Some(key_value(repository_key(), url)),
{
    let out = pinned_lines(ls, url, tag, node)->Ok_0;
    let repo = repository_key();
    let rf = ref_key();
    let rv = rev_key();
    let repo_line = key_value(repo, url);
    let ref_line = key_value(rf, tag);
    let rev_line = key_value(rv, node);
    lemma_pin_value_line(repo, url);
    lemma_pin_value_line(rf, tag);
    lemma_pin_value_line(rv, node);
    lemma_keys_distinct(repo);
    let had_repo = key_entry(ls, repo) is Some;
    // Step 1: the repository line.
    let (ls1, _) = set_key_lines(ls, repo, url);
    lemma_set_key_reads_back(ls, repo, url);
    lemma_key_line_facts(ls1, repo);
    // Step 2: the tag line, set or inserted after the repository line.
    let (ls2, has_ref) = set_key_lines(ls1, rf, tag);
    lemma_set_key_reads_back(ls1, rf, tag);
    lemma_key_line_facts(ls1, rf);
    if has_ref {
        let j = key_line(ls1, rf) as int;
        lemma_keys_distinct(ls1[j]);
        lemma_key_line_update(ls1, repo, j, ref_line);
    }
    let ls3 = if has_ref {
        ls2
    } else {
        ls2.insert(prefix_line(ls2, repo) + 1 as int, ref_line)
    };
    lemma_prefix_is_key_line(ls2, repo);
    if !has_ref {
        let p = prefix_line(ls2, repo) + 1;
        lemma_key_line_facts(ls2, rf);
        lemma_key_line_insert(ls2, rf, p as int, ref_line);
        lemma_key_line_insert(ls2, repo, p as int, ref_line);
        lemma_key_line_insert(ls2, rv, p as int, ref_line);
    }
    assert(key_entry(ls3, rf) == Some(ref_line));
    assert(had_repo ==> key_entry(ls3, repo) == Some(repo_line));
    // Step 3: the changeset line, set or inserted after the tag line.
    let (ls4, has_rev) = set_key_lines(ls3, rv, node);
    lemma_set_key_reads_back(ls3, rv, node);
    lemma_key_line_facts(ls3, rv);
    if has_rev {
        let j = key_line(ls3, rv) as int;
        lemma_keys_distinct(ls3[j]);
        lemma_key_line_update(ls3, rf, j, rev_line);
        lemma_key_line_update(ls3, repo, j, rev_line);
        assert(out == ls4);
    } else {
        let q = key_line(ls4, rf) + 1;
        lemma_key_line_facts(ls4, rf);
        lemma_key_line_insert(ls4, rf, q as int, rev_line);
        lemma_key_line_insert(ls4, repo, q as int, rev_line);
        lemma_key_line_insert(ls4, rv, q as int, rev_line);
        let k = key_line(ls4, repo) as int;
        if had_repo && k >= q {
            assert(out[k + 1] == ls4[k]);
        }
    }
}

} // verus!
