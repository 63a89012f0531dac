//! Views of string lists and small verified string helpers.

use vstd::prelude::*;
use vstd::string::*;

verus! {

/// The characters of each string of a list, in order.
pub open spec fn texts(list: Seq<String>) -> Seq<Seq<char>> {
    Seq::new(list.len(), |i: int| list[i]@)
}

/// The characters of each string slice of a list, in order.
pub open spec fn strs(list: Seq<&str>) -> Seq<Seq<char>> {
    Seq::new(list.len(), |i: int| list[i]@)
}

/// The characters of an optional string.
pub open spec fn opt_text(value: Option<String>) -> Option<Seq<char>> {
    match value {
        Some(s) => Some(s@),
        None => None,
    }
}

/// Appends an owned copy of every token of `tokens` to `list`, keeping their order.
pub(crate) fn push_all(list: &mut Vec<String>, tokens: &[&str])
    ensures
        texts(final(list)@) == texts(old(list)@) + strs(tokens@),
{
    let mut i: usize = 0;
    while i < tokens.len()
        invariant
            i <= tokens.len(),
            texts(list@) == texts(old(list)@) + strs(tokens@.take(i as int)),
        decreases tokens.len() - i,
    {
        let ghost before = list@;
        let owned = String::from_str(tokens[i]);
        list.push(owned);
        proof {
            assert(texts(list@) =~= texts(before).push(tokens@[i as int]@));
            assert(strs(tokens@.take(i + 1)) =~= strs(tokens@.take(i as int)).push(
                tokens@[i as int]@,
            ));
        }
        i += 1;
    }
    assert(tokens@.take(i as int) == tokens@);
}

/// Appends an owned copy of `token` to `list`.
pub(crate) fn push_text(list: &mut Vec<String>, token: &str)
    ensures
        texts(final(list)@) == texts(old(list)@).push(token@),
{
    let owned = String::from_str(token);
    list.push(owned);
    assert(texts(list@) =~= texts(old(list)@).push(token@));
}

/// A fresh list holding the same strings in the same order.
pub(crate) fn copy_texts(list: &Vec<String>) -> (copy: Vec<String>)
    ensures
        texts(copy@) == texts(list@),
{
    let mut copy: Vec<String> = Vec::new();
    let mut i: usize = 0;
    while i < list.len()
        invariant
            i <= list.len(),
            texts(copy@) == texts(list@.take(i as int)),
        decreases list.len() - i,
    {
        let ghost before = copy@;
        copy.push(list[i].clone());
        proof {
            assert(texts(copy@) =~= texts(before).push(list@[i as int]@));
            assert(texts(list@.take(i + 1)) =~= texts(list@.take(i as int)).push(
                list@[i as int]@,
            ));
        }
        i += 1;
    }
    assert(list@.take(i as int) == list@);
    copy
}

/// A fresh copy of an optional string.
pub(crate) fn copy_opt(value: &Option<String>) -> (copy: Option<String>)
    ensures
        opt_text(copy) == opt_text(*value),
{
    match value {
        Some(s) => Some(s.clone()),
        None => None,
    }
}

/// Whether two string slices hold the same characters.
pub(crate) fn same_text(a: &str, b: &str) -> (same: bool)
    ensures
        same == (a@ == b@),
{
    let n = a.unicode_len();
    if n != b.unicode_len() {
        return false;
    }
    let mut i: usize = 0;
    while i < n
        invariant
            i <= n,
            n == a@.len(),
            n == b@.len(),
            forall|k: int| 0 <= k < i ==> a@[k] == b@[k],
        decreases n - i,
    {
        if a.get_char(i) != b.get_char(i) {
            return false;
        }
        i += 1;
    }
    assert(a@ =~= b@);
    true
}

} // verus!
