//! Building command-line argument lists.
use vstd::prelude::*;

use crate::text::{decimal, from_chars, push_decimal, string_views};

verus! {

/// Appends `s` to the argument list.
pub fn push_arg(v: &mut Vec<String>, s: &str)
    ensures
        string_views(final(v)@) == string_views(old(v)@).push(s@),
{
    let ghost before = v@;
    v.push(s.to_owned());
    assert(string_views(v@) =~= string_views(before).push(s@));
}

/// Appends a copy of `s` to the argument list.
pub fn push_string(v: &mut Vec<String>, s: &String)
    ensures
        string_views(final(v)@) == string_views(old(v)@).push(s@),
{
    let ghost before = v@;
    v.push(s.clone());
    assert(string_views(v@) =~= string_views(before).push(s@));
}

/// Appends copies of all of `items` to the argument list.
pub fn push_strings(v: &mut Vec<String>, items: &Vec<String>)
    ensures
        string_views(final(v)@) == string_views(old(v)@) + string_views(items@),
{
    let mut i: usize = 0;
    while i < items.len()
        invariant
            0 <= i <= items@.len(),
            string_views(v@) == string_views(old(v)@) + string_views(items@).take(i as int),
        decreases items.len() - i,
    {
        push_string(v, &items[i]);
        i += 1;
        assert(string_views(items@).take(i as int) =~= string_views(items@).take(i - 1).push(
            items@[i - 1]@,
        ));
    }
    assert(string_views(items@).take(items@.len() as int) =~= string_views(items@));
}

/// Appends the decimal rendering of `n` to the argument list.
pub fn push_number(v: &mut Vec<String>, n: usize)
    ensures
        string_views(final(v)@) == string_views(old(v)@).push(decimal(n as nat)),
{
    let mut digits: Vec<char> = Vec::new();
    push_decimal(&mut digits, n as u64);
    assert(digits@ =~= decimal(n as nat));
    let ghost before = v@;
    let s = from_chars(digits.as_slice());
    v.push(s);
    assert(string_views(v@) =~= string_views(before).push(decimal(n as nat)));
}

/// `flag` followed by the value, when there is a value.
pub open spec fn opt_flag(flag: Seq<char>, value: Option<String>) -> Seq<Seq<char>> {
    match value {
        Some(x) => seq![flag, x@],
        None => seq![],
    }
}

/// `flag` followed by the value, when there is a value.
pub open spec fn opt_str_flag(flag: Seq<char>, value: Option<&str>) -> Seq<Seq<char>> {
    match value {
        Some(x) => seq![flag, x@],
        None => seq![],
    }
}

/// `flag` when `on`.
pub open spec fn switch(flag: Seq<char>, on: bool) -> Seq<Seq<char>> {
    if on {
        seq![flag]
    } else {
        seq![]
    }
}

/// Appends `flag` and the value, when there is a value.
pub fn push_opt(v: &mut Vec<String>, flag: &str, value: &Option<String>)
    ensures
        string_views(final(v)@) == string_views(old(v)@) + opt_flag(flag@, *value),
{
    match value {
        Some(x) => {
            push_arg(v, flag);
            push_string(v, x);
        },
        None => {},
    }
    assert(string_views(v@) =~= string_views(old(v)@) + opt_flag(flag@, *value));
}

/// Appends `flag` and the value, when there is a value.
pub fn push_opt_str(v: &mut Vec<String>, flag: &str, value: Option<&str>)
    ensures
        string_views(final(v)@) == string_views(old(v)@) + opt_str_flag(flag@, value),
{
    match value {
        Some(x) => {
            push_arg(v, flag);
            push_arg(v, x);
        },
        None => {},
    }
    assert(string_views(v@) =~= string_views(old(v)@) + opt_str_flag(flag@, value));
}

/// Appends `flag` when `on`.
pub fn push_switch(v: &mut Vec<String>, flag: &str, on: bool)
    ensures
        string_views(final(v)@) == string_views(old(v)@) + switch(flag@, on),
{
    if on {
        push_arg(v, flag);
    }
    assert(string_views(v@) =~= string_views(old(v)@) + switch(flag@, on));
}

} // verus!
