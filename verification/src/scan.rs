//! Scanning a recipe block for parenthesized variable references.
//!
//! A reference is the text between a `(` and the first `)` after it; the
//! scan walks the block left to right, taking the leftmost such pair each
//! time and resuming after its closing parenthesis.

use vstd::prelude::*;
use vstd::string::StrSliceExecFns;
use crate::value::{Value, has_key, lookup, table_get};

verus! {

/// The first index at or after `i` holding `c`, or the length if there is
/// none.
pub open spec fn find_from(s: Seq<char>, c: char, i: int) -> int
    decreases s.len() - i,
{
    if i < 0 || i >= s.len() {
        s.len() as int
    } else if s[i] == c {
        i
    } else {
        find_from(s, c, i + 1)
    }
}

pub proof fn lemma_find_from(s: Seq<char>, c: char, i: int)
    requires
        0 <= i <= s.len(),
    ensures
        i <= find_from(s, c, i) <= s.len(),
        forall|j: int| i <= j < find_from(s, c, i) ==> s[j] != c,
        find_from(s, c, i) < s.len() ==> s[find_from(s, c, i)] == c,
    decreases s.len() - i,
{
    if i < s.len() && s[i] != c {
        lemma_find_from(s, c, i + 1);
    }
}

/// `find_from` is the one index that no earlier position matches.
pub proof fn lemma_find_from_is(s: Seq<char>, c: char, i: int, k: int)
    requires
        0 <= i <= k <= s.len(),
        forall|j: int| i <= j < k ==> s[j] != c,
        k == s.len() || s[k] == c,
    ensures
        find_from(s, c, i) == k,
    decreases k - i,
{
    if i < k {
        lemma_find_from_is(s, c, i + 1, k);
    }
}

/// The inner texts of every parenthesized reference at or after `i`, in
/// order of appearance.
pub open spec fn refs_from(s: Seq<char>, i: int) -> Seq<Seq<char>>
    decreases s.len() - i,
        via refs_from_dec
{
    if i < 0 || i > s.len() {
        Seq::empty()
    } else {
        let open = find_from(s, '(', i);
        if open >= s.len() {
            Seq::empty()
        } else {
            let close = find_from(s, ')', open + 1);
            if close >= s.len() {
                Seq::empty()
            } else {
                seq![s.subrange(open + 1, close)] + refs_from(s, close + 1)
            }
        }
    }
}

#[via_fn]
proof fn refs_from_dec(s: Seq<char>, i: int) {
    if 0 <= i <= s.len() {
        lemma_find_from(s, '(', i);
        let open = find_from(s, '(', i);
        if open < s.len() {
            lemma_find_from(s, ')', open + 1);
        }
    }
}

/// The first reference in `refs` that `declared` does not bind, if any.
pub open spec fn first_undeclared(refs: Seq<Seq<char>>, declared: Seq<(String, Value)>) -> Option<
    Seq<char>,
>
    decreases refs.len(),
{
    if refs.len() == 0 {
        None
    } else if !has_key(declared, refs[0]) {
        Some(refs[0])
    } else {
        first_undeclared(refs.skip(1), declared)
    }
}

/// The first index at or after `i` holding `c`, or the length if there is
/// none; `n` is the block's length in characters.
fn find_from_exec(s: &str, c: char, i: usize, n: usize) -> (r: usize)
    requires
        n == s@.len(),
        i <= n,
    ensures
        r as int == find_from(s@, c, i as int),
        i <= r && r <= n,
{
    let mut j: usize = i;
    while j < n
        invariant
            n == s@.len(),
            i <= j && j <= n,
            forall|t: int| i <= t < j ==> s@[t] != c,
        decreases n - j,
    {
        if s.get_char(j) == c {
            proof {
                lemma_find_from_is(s@, c, i as int, j as int);
            }
            return j;
        }
        j += 1;
    }
    proof {
        lemma_find_from_is(s@, c, i as int, n as int);
    }
    n
}

/// Checks every reference at or after `i` against the declared variables,
/// returning the first one they do not bind.
fn check_refs_from(block: &str, n: usize, i: usize, declared: &Vec<(String, Value)>) -> (r: Option<
    String,
>)
    requires
        n == block@.len(),
        i <= n,
    ensures
        match r {
            None => first_undeclared(refs_from(block@, i as int), declared@) is None,
            Some(name) => first_undeclared(refs_from(block@, i as int), declared@) == Some(name@),
        },
    decreases n - i,
{
    let open = find_from_exec(block, '(', i, n);
    if open >= n {
        return None;
    }
    let close = find_from_exec(block, ')', open + 1, n);
    if close >= n {
        return None;
    }
    let name: &str = block.substring_char(open + 1, close);
    let ghost refs = refs_from(block@, i as int);
    assert(refs == seq![name@] + refs_from(block@, close + 1));
    assert(refs[0] == name@);
    assert(refs.skip(1) =~= refs_from(block@, close + 1));
    match table_get(declared, name) {
        Some(_) => check_refs_from(block, n, close + 1, declared),
        None => Some(name.to_owned()),
    }
}

/// Whether the block holds any parenthesized reference at all.
pub fn has_ref(block: &str) -> (r: bool)
    ensures
        r == (refs_from(block@, 0).len() != 0),
{
    let n = block.unicode_len();
    let open = find_from_exec(block, '(', 0, n);
    if open >= n {
        return false;
    }
    let close = find_from_exec(block, ')', open + 1, n);
    if close >= n {
        false
    } else {
        assert(refs_from(block@, 0) == seq![block@.subrange(open as int + 1, close as int)]
            + refs_from(block@, close as int + 1));
        true
    }
}

/// The first reference in the block that the declared variables do not
/// bind, if any.
pub fn check_refs(block: &str, declared: &Vec<(String, Value)>) -> (r: Option<String>)
    ensures
        match r {
            None => first_undeclared(refs_from(block@, 0), declared@) is None,
            Some(name) => first_undeclared(refs_from(block@, 0), declared@) == Some(name@),
        },
{
    let n = block.unicode_len();
    check_refs_from(block, n, 0, declared)
}

} // verus!
