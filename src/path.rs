//! Paths are '/'-separated character sequences inside one file system.
//! This module states what parent lookup, file names, extensions, joining
//! and relative paths mean on them, and implements each operation.
use vstd::prelude::*;
use vstd::string::{StrSliceExecFns, StringExecFns};

verus! {

/// Index of the last `c` among the first `n` characters of `s`, or -1.
pub open spec fn rfind_in(s: Seq<char>, c: char, n: int) -> int
    decreases n,
{
    if n <= 0 {
        -1
    } else if s[n - 1] == c {
        n - 1
    } else {
        rfind_in(s, c, n - 1)
    }
}

/// Index of the last `c` in `s`, or -1.
pub open spec fn rfind(s: Seq<char>, c: char) -> int {
    rfind_in(s, c, s.len() as int)
}

pub proof fn lemma_rfind_in_bounds(s: Seq<char>, c: char, n: int)
    requires
        0 <= n <= s.len(),
    ensures
        -1 <= rfind_in(s, c, n) < n,
        rfind_in(s, c, n) >= 0 ==> s[rfind_in(s, c, n)] == c,
    decreases n,
{
    if n > 0 && s[n - 1] != c {
        lemma_rfind_in_bounds(s, c, n - 1);
    }
}

/// `s` holds `p` starting at index `at`.
pub open spec fn occurs_at(s: Seq<char>, p: Seq<char>, at: int) -> bool {
    0 <= at && at + p.len() <= s.len() && s.subrange(at, at + p.len()) == p
}

pub open spec fn has_prefix(s: Seq<char>, p: Seq<char>) -> bool {
    occurs_at(s, p, 0)
}

pub open spec fn contains_seq(s: Seq<char>, p: Seq<char>) -> bool {
    exists|i: int| occurs_at(s, p, i)
}

/// The directory holding `p`: everything before its last '/'.
/// The root (the empty path) is its own parent.
pub open spec fn parent_of(p: Seq<char>) -> Seq<char> {
    if p.len() == 0 {
        p
    } else if rfind(p, '/') < 0 {
        Seq::empty()
    } else {
        p.subrange(0, rfind(p, '/'))
    }
}

/// The last segment of `p`.
pub open spec fn file_name_of(p: Seq<char>) -> Seq<char> {
    p.subrange(rfind(p, '/') + 1, p.len() as int)
}

/// What follows the last '.' of `p`, when that '.' lies in the last segment
/// and does not begin it.
pub open spec fn extension_of(p: Seq<char>) -> Option<Seq<char>> {
    let i = rfind(p, '.');
    if i < 0 {
        None
    } else {
        let ext = p.subrange(i + 1, p.len() as int);
        if ext.contains('/') || i == 0 || p[i - 1] == '/' {
            None
        } else {
            Some(ext)
        }
    }
}

/// `name` placed under the directory `root`.
pub open spec fn join_of(root: Seq<char>, name: Seq<char>) -> Seq<char> {
    if root.len() == 0 {
        name
    } else {
        root + seq!['/'] + name
    }
}

/// The path of `inner` relative to the directory `base`, when `inner` lies
/// below `base`.
pub open spec fn path_to(base: Seq<char>, inner: Seq<char>) -> Option<Seq<char>> {
    if base.len() == 0 {
        Some(inner)
    } else if has_prefix(inner, base + seq!['/']) {
        Some(inner.subrange(base.len() + 1int, inner.len() as int))
    } else {
        None
    }
}

/// Index of the last `c` in `s`, if any.
pub fn rfind_char(s: &str, c: char) -> (r: Option<usize>)
    ensures
        match r {
            Some(i) => i as int == rfind(s@, c) && 0 <= i < s@.len(),
            None => rfind(s@, c) == -1,
        },
{
    let n = s.unicode_len();
    let mut i: usize = n;
    while i > 0
        invariant
            n == s@.len(),
            i <= n,
            rfind(s@, c) == rfind_in(s@, c, i as int),
        decreases i,
    {
        if s.get_char(i - 1) == c {
            return Some(i - 1);
        }
        i = i - 1;
    }
    None
}

/// Whether `s` holds `p` starting at index `at`.
pub fn occurs_at_exec(s: &str, p: &str, at: usize) -> (r: bool)
    ensures
        r == occurs_at(s@, p@, at as int),
{
    let n = s.unicode_len();
    let m = p.unicode_len();
    if at > n || m > n - at {
        return false;
    }
    let mut j: usize = 0;
    while j < m
        invariant
            n == s@.len(),
            m == p@.len(),
            at + m <= n,
            j <= m,
            forall|k: int| 0 <= k < j ==> s@[at + k] == p@[k],
        decreases m - j,
    {
        if s.get_char(at + j) != p.get_char(j) {
            assert(s@.subrange(at as int, at + m)[j as int] != p@[j as int]);
            return false;
        }
        j = j + 1;
    }
    assert(s@.subrange(at as int, at + m) =~= p@);
    true
}

/// Whether `s` begins with `p`.
pub fn starts_with(s: &str, p: &str) -> (r: bool)
    ensures
        r == has_prefix(s@, p@),
{
    occurs_at_exec(s, p, 0)
}

/// Whether `p` occurs anywhere in `s`.
pub fn contains_str(s: &str, p: &str) -> (r: bool)
    ensures
        r == contains_seq(s@, p@),
{
    let n = s.unicode_len();
    let mut i: usize = 0;
    loop
        invariant
            n == s@.len(),
            i <= n,
            forall|k: int| 0 <= k < i ==> !occurs_at(s@, p@, k),
        decreases n - i,
    {
        if occurs_at_exec(s, p, i) {
            return true;
        }
        if i == n {
            assert forall|k: int| !occurs_at(s@, p@, k) by {
                if 0 <= k < i {
                }
            }
            return false;
        }
        i = i + 1;
    }
}

/// The characters of `s` from `from` up to `to`, as an owned string.
pub fn substring(s: &str, from: usize, to: usize) -> (r: String)
    requires
        from <= to <= s@.len(),
    ensures
        r@ == s@.subrange(from as int, to as int),
{
    String::from_str(s.substring_char(from, to))
}

/// Parent directory of `p`.
pub fn parent(p: &str) -> (r: String)
    ensures
        r@ == parent_of(p@),
{
    let n = p.unicode_len();
    if n == 0 {
        return String::from_str(p);
    }
    match rfind_char(p, '/') {
        Some(i) => substring(p, 0, i),
        None => String::new(),
    }
}

/// Last segment of `p`.
pub fn file_name(p: &str) -> (r: String)
    ensures
        r@ == file_name_of(p@),
{
    let n = p.unicode_len();
    match rfind_char(p, '/') {
        Some(i) => substring(p, i + 1, n),
        None => substring(p, 0, n),
    }
}

/// Extension of `p`, without its dot.
pub fn extension(p: &str) -> (r: Option<String>)
    ensures
        match r {
            Some(e) => extension_of(p@) == Some(e@),
            None => extension_of(p@).is_none(),
        },
{
    let n = p.unicode_len();
    match rfind_char(p, '.') {
        None => None,
        Some(i) => {
            let ext = substring(p, i + 1, n);
            match rfind_char(ext.as_str(), '/') {
                Some(k) => {
                    proof {
                        lemma_rfind_in_bounds(ext@, '/', ext@.len() as int);
                    }
                    assert(ext@[k as int] == '/');
                    None
                },
                None => {
                    assert(!ext@.contains('/')) by {
                        if ext@.contains('/') {
                            let k = choose|k: int| 0 <= k < ext@.len() && ext@[k] == '/';
                            lemma_rfind_not_found(ext@, '/', ext@.len() as int, k);
                        }
                    }
                    if i == 0 || p.get_char(i - 1) == '/' {
                        None
                    } else {
                        Some(ext)
                    }
                },
            }
        },
    }
}

proof fn lemma_rfind_not_found(s: Seq<char>, c: char, n: int, k: int)
    requires
        n <= s.len(),
        0 <= k < n,
        s[k] == c,
    ensures
        rfind_in(s, c, n) >= 0,
    decreases n,
{
    if s[n - 1] != c {
        lemma_rfind_not_found(s, c, n - 1, k);
    }
}

/// `name` placed under the directory `root`.
pub fn join(root: &str, name: &str) -> (r: String)
    ensures
        r@ == join_of(root@, name@),
{
    if root.unicode_len() == 0 {
        return String::from_str(name);
    }
    let mut r = String::from_str(root);
    r.append("/");
    r.append(name);
    proof {
        reveal_strlit("/");
    }
    r
}

/// The path of `inner` relative to the directory `base`.
pub fn get_path_to(base: &str, inner: &str) -> (r: Option<String>)
    ensures
        match r {
            Some(rel) => path_to(base@, inner@) == Some(rel@),
            None => path_to(base@, inner@).is_none(),
        },
{
    let n = base.unicode_len();
    if n == 0 {
        return Some(String::from_str(inner));
    }
    let mut prefix = String::from_str(base);
    prefix.append("/");
    proof {
        reveal_strlit("/");
    }
    assert(prefix@ =~= base@ + seq!['/']);
    if starts_with(inner, prefix.as_str()) {
        let m = inner.unicode_len();
        Some(substring(inner, n + 1, m))
    } else {
        None
    }
}

} // verus!
