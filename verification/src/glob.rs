//! Glob patterns over names: `*` matches any run of characters, `?` any one
//! character, `[...]` one character of a class (ranges such as `0-9`, and `!` first
//! to negate); every other character matches itself. Matching is case-sensitive.
use vstd::prelude::*;
use crate::text::to_chars;

verus! {

/// The first `]` at position `k` or later.
pub open spec fn close_from(p: Seq<char>, k: int) -> Option<int>
    decreases p.len() - k,
{
    if k < 0 || k >= p.len() {
        None
    } else if p[k] == ']' {
        Some(k)
    } else {
        close_from(p, k + 1)
    }
}

/// A found `]` lies at or after `k`, inside the pattern.
pub proof fn lemma_close_from_bounds(p: Seq<char>, k: int)
    ensures
        close_from(p, k) matches Some(e) ==> k <= e < p.len() && p[e] == ']',
    decreases p.len() - k,
{
    if 0 <= k < p.len() && p[k] != ']' {
        lemma_close_from_bounds(p, k + 1);
    }
}

/// Whether `c` is one of the characters or ranges written in `p[k..hi]`.
pub open spec fn in_class(p: Seq<char>, k: int, hi: int, c: char) -> bool
    decreases hi - k,
{
    if k >= hi {
        false
    } else if k + 2 < hi && p[k + 1] == '-' {
        ((p[k] as u32) <= (c as u32) && (c as u32) <= (p[k + 2] as u32)) || in_class(p, k + 3, hi, c)
    } else {
        p[k] == c || in_class(p, k + 1, hi, c)
    }
}

/// Whether the class written in `p[lo..hi]` accepts `c`; a leading `!` negates it.
pub open spec fn class_accepts(p: Seq<char>, lo: int, hi: int, c: char) -> bool {
    if lo < hi && p[lo] == '!' {
        !in_class(p, lo + 1, hi, c)
    } else {
        in_class(p, lo, hi, c)
    }
}

/// Whether the pattern from position `i` matches the name from position `j`. A `[`
/// opens a class closed by the first `]` after the character that follows it; a `[`
/// that is never closed stands for itself.
pub open spec fn glob_from(p: Seq<char>, i: int, n: Seq<char>, j: int) -> bool
    decreases p.len() - i, n.len() - j,
{
    if i < 0 || j < 0 || i >= p.len() {
        i >= p.len() && j >= n.len()
    } else if p[i] == '*' {
        glob_from(p, i + 1, n, j) || (j < n.len() && glob_from(p, i, n, j + 1))
    } else if j >= n.len() {
        false
    } else if p[i] == '?' {
        glob_from(p, i + 1, n, j + 1)
    } else if p[i] == '[' && close_from(p, i + 2) is Some {
        let e = close_from(p, i + 2)->0;
        proof {
            lemma_close_from_bounds(p, i + 2);
        }
        class_accepts(p, i + 1, e, n[j]) && glob_from(p, e + 1, n, j + 1)
    } else {
        p[i] == n[j] && glob_from(p, i + 1, n, j + 1)
    }
}

/// Whether the whole name matches the whole pattern.
pub open spec fn glob_match(pattern: Seq<char>, name: Seq<char>) -> bool {
    glob_from(pattern, 0, name, 0)
}

fn close_at(p: &Vec<char>, k: usize) -> (r: Option<usize>)
    ensures
        match r {
            Some(e) => close_from(p@, k as int) == Some(e as int),
            None => close_from(p@, k as int) is None,
        },
    decreases p.len() - k,
{
    if k >= p.len() {
        None
    } else if p[k] == ']' {
        Some(k)
    } else {
        close_at(p, k + 1)
    }
}

fn in_class_at(p: &Vec<char>, k: usize, hi: usize, c: char) -> (b: bool)
    requires
        hi <= p@.len(),
    ensures
        b == in_class(p@, k as int, hi as int, c),
    decreases hi - k,
{
    if k >= hi {
        false
    } else if hi - k > 2 && p[k + 1] == '-' {
        ((p[k] as u32) <= (c as u32) && (c as u32) <= (p[k + 2] as u32)) || in_class_at(p, k + 3, hi, c)
    } else {
        p[k] == c || in_class_at(p, k + 1, hi, c)
    }
}

fn glob_at(p: &Vec<char>, i: usize, n: &Vec<char>, j: usize) -> (b: bool)
    requires
        i <= p@.len(),
        j <= n@.len(),
    ensures
        b == glob_from(p@, i as int, n@, j as int),
    decreases p@.len() - i, n@.len() - j,
{
    if i >= p.len() {
        return j >= n.len();
    }
    if p[i] == '*' {
        if glob_at(p, i + 1, n, j) {
            return true;
        }
        return j < n.len() && glob_at(p, i, n, j + 1);
    }
    if j >= n.len() {
        return false;
    }
    if p[i] == '?' {
        return glob_at(p, i + 1, n, j + 1);
    }
    if p[i] == '[' && i + 1 < p.len() {
        proof {
            lemma_close_from_bounds(p@, i + 2);
        }
        match close_at(p, i + 2) {
            Some(e) => {
                let accepts = if i + 1 < e && p[i + 1] == '!' {
                    !in_class_at(p, i + 2, e, n[j])
                } else {
                    in_class_at(p, i + 1, e, n[j])
                };
                return accepts && glob_at(p, e + 1, n, j + 1);
            },
            None => {},
        }
    }
    p[i] == n[j] && glob_at(p, i + 1, n, j + 1)
}

/// Whether `name` matches the glob `pattern`.
pub fn glob_matches(pattern: &str, name: &str) -> (b: bool)
    ensures
        b == glob_match(pattern@, name@),
{
    let p = to_chars(pattern);
    let n = to_chars(name);
    glob_at(&p, 0, &n, 0)
}

} // verus!
