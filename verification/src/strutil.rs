//! String helpers with exact sequence-level contracts.
//!
//! Everything the engine assembles — bind flags, environment assignments,
//! shell scripts, error messages — is a string, so these helpers carry
//! contracts that pin the resulting character sequences exactly.

use vstd::prelude::*;
use vstd::string::StrSliceExecFns;
use vstd::string::StringExecFns;

verus! {

/// Relies on str's `PartialEq` implementation: two string slices compare
/// equal exactly when their character sequences are equal.
#[verifier::external_body]
pub fn str_eq(a: &str, b: &str) -> (r: bool)
    ensures
        r == (a@ == b@),
{
    a == b
}

/// Relies on `String::push`: appends one character at the end.
#[verifier::external_body]
pub fn push_char(s: &mut String, c: char)
    ensures
        final(s)@ == old(s)@.push(c),
{
    s.push(c);
}

pub fn str_concat(a: &str, b: &str) -> (r: String)
    ensures
        r@ == a@ + b@,
{
    let mut s = String::from_str(a);
    s.append(b);
    s
}

pub fn str_concat3(a: &str, b: &str, c: &str) -> (r: String)
    ensures
        r@ == a@ + b@ + c@,
{
    let mut s = String::from_str(a);
    s.append(b);
    s.append(c);
    s
}

/// `n` copies of `c`.
pub open spec fn spec_char_repeat(c: char, n: nat) -> Seq<char> {
    Seq::new(n, |i: int| c)
}

pub fn repeat_char(c: char, n: usize) -> (r: String)
    ensures
        r@ == spec_char_repeat(c, n as nat),
{
    let mut s = String::new();
    let mut i: usize = 0;
    while i < n
        invariant
            i <= n,
            s@ == Seq::new(i as nat, |j: int| c),
        decreases n - i,
    {
        push_char(&mut s, c);
        i = i + 1;
        proof {
            assert(s@ =~= Seq::new(i as nat, |j: int| c));
        }
    }
    s
}

/// `p` is a prefix of `s`.
pub open spec fn spec_is_prefix(p: Seq<char>, s: Seq<char>) -> bool {
    p.len() <= s.len() && s.subrange(0, p.len() as int) == p
}

pub fn str_starts_with(s: &str, p: &str) -> (r: bool)
    ensures
        r == spec_is_prefix(p@, s@),
{
    let sl = s.unicode_len();
    let pl = p.unicode_len();
    if pl > sl {
        return false;
    }
    let head = s.substring_char(0, pl);
    str_eq(head, p)
}

pub fn find_char(s: &str, c: char) -> (r: Option<usize>)
    ensures
        match r {
            Some(i) => i < s@.len() && s@[i as int] == c && (forall|j: int|
                0 <= j < i ==> s@[j] != c),
            None => forall|j: int| 0 <= j < s@.len() ==> s@[j] != c,
        },
{
    let n = s.unicode_len();
    let mut i: usize = 0;
    while i < n
        invariant
            i <= n,
            n == s@.len(),
            forall|j: int| 0 <= j < i ==> s@[j] != c,
        decreases n - i,
    {
        if s.get_char(i) == c {
            return Some(i);
        }
        i = i + 1;
    }
    None
}

/// `sub` occurs somewhere in `s`.
pub open spec fn spec_contains_sub(s: Seq<char>, sub: Seq<char>) -> bool {
    exists|k: int| 0 <= k <= s.len() - sub.len() && #[trigger] s.subrange(k, k + sub.len()) == sub
}

pub fn str_contains(s: &str, sub: &str) -> (r: bool)
    ensures
        r == spec_contains_sub(s@, sub@),
{
    let n = s.unicode_len();
    let m = sub.unicode_len();
    if m > n {
        return false;
    }
    if m == 0 {
        proof {
            assert(spec_contains_sub(s@, sub@)) by {
                assert(s@.subrange(0, 0 + sub@.len() as int) =~= sub@);
            }
        }
        return true;
    }
    let mut k: usize = 0;
    while k <= n - m
        invariant
            1 <= m <= n,
            n == s@.len(),
            m == sub@.len(),
            k <= n - m + 1,
            forall|k2: int| 0 <= k2 < k ==> #[trigger] s@.subrange(k2, k2 + sub@.len()) != sub@,
        decreases n - m - k + 1,
    {
        let w = s.substring_char(k, k + m);
        if str_eq(w, sub) {
            return true;
        }
        k = k + 1;
    }
    false
}

/// The index of the last occurrence of `c` in `s`, or -1.
pub open spec fn spec_last_index_of(s: Seq<char>, c: char) -> int
    decreases s.len(),
{
    if s.len() == 0 {
        -1
    } else if s.last() == c {
        s.len() - 1
    } else {
        spec_last_index_of(s.drop_last(), c)
    }
}

pub proof fn lemma_last_index_of_at(s: Seq<char>, c: char, i: int)
    requires
        0 <= i < s.len(),
        s[i] == c,
        forall|j: int| i < j < s.len() ==> s[j] != c,
    ensures
        spec_last_index_of(s, c) == i,
    decreases s.len(),
{
    if i < s.len() - 1 {
        lemma_last_index_of_at(s.drop_last(), c, i);
    }
}

pub proof fn lemma_last_index_of_none(s: Seq<char>, c: char)
    requires
        forall|j: int| 0 <= j < s.len() ==> s[j] != c,
    ensures
        spec_last_index_of(s, c) == -1,
    decreases s.len(),
{
    if s.len() > 0 {
        lemma_last_index_of_none(s.drop_last(), c);
    }
}

/// The index of the last occurrence of `c`, searching from the end.
pub fn rfind_char(s: &str, c: char) -> (r: Option<usize>)
    ensures
        match r {
            Some(i) => i < s@.len() && s@[i as int] == c && (forall|j: int|
                i < j < s@.len() ==> s@[j] != c),
            None => forall|j: int| 0 <= j < s@.len() ==> s@[j] != c,
        },
{
    let n = s.unicode_len();
    let mut k: usize = n;
    while k > 0
        invariant
            k <= n,
            n == s@.len(),
            forall|j: int| k <= j < s@.len() ==> s@[j] != c,
        decreases k,
    {
        k = k - 1;
        if s.get_char(k) == c {
            return Some(k);
        }
    }
    None
}

/// Appends a token to an argument vector.
pub fn push_tok(v: &mut Vec<String>, s: &str)
    ensures
        final(v).deep_view() == old(v).deep_view().push(s@),
{
    let ghost pre = v.deep_view();
    v.push(String::from_str(s));
    proof {
        assert(v.deep_view() =~= pre.push(s@));
    }
}

/// Appends an owned token to an argument vector.
pub fn push_tok_owned(v: &mut Vec<String>, s: String)
    ensures
        final(v).deep_view() == old(v).deep_view().push(s@),
{
    let ghost pre = v.deep_view();
    let ghost sv = s@;
    v.push(s);
    proof {
        assert(v.deep_view() =~= pre.push(sv));
    }
}

/// `s` without its trailing `/` characters.
pub open spec fn trim_end_slashes(s: Seq<char>) -> Seq<char>
    decreases s.len(),
{
    if s.len() > 0 && s.last() == '/' {
        trim_end_slashes(s.drop_last())
    } else {
        s
    }
}

/// `s` without its leading `/` characters.
pub open spec fn trim_start_slashes(s: Seq<char>) -> Seq<char>
    decreases s.len(),
{
    if s.len() > 0 && s[0] == '/' {
        trim_start_slashes(s.skip(1))
    } else {
        s
    }
}

pub open spec fn trim_slashes(s: Seq<char>) -> Seq<char> {
    trim_start_slashes(trim_end_slashes(s))
}

/// A path join that collapses the slashes at the seam: the base keeps no
/// trailing slash, the segment no surrounding ones, and a single `/` sits
/// between them.
pub open spec fn spec_concat_path(base: Seq<char>, seg: Seq<char>) -> Seq<char> {
    trim_end_slashes(base) + seq!['/'] + trim_slashes(seg)
}

pub open spec fn is_ws_char(c: char) -> bool {
    c == ' ' || c == '\t' || c == '\n' || c == '\r'
}

/// `s` without its trailing whitespace.
pub open spec fn trim_end_ws(s: Seq<char>) -> Seq<char>
    decreases s.len(),
{
    if s.len() > 0 && is_ws_char(s.last()) {
        trim_end_ws(s.drop_last())
    } else {
        s
    }
}

/// `s` without its leading whitespace.
pub open spec fn trim_start_ws(s: Seq<char>) -> Seq<char>
    decreases s.len(),
{
    if s.len() > 0 && is_ws_char(s[0]) {
        trim_start_ws(s.skip(1))
    } else {
        s
    }
}

/// `s` without its surrounding whitespace.
pub open spec fn spec_trim_ws(s: Seq<char>) -> Seq<char> {
    trim_start_ws(trim_end_ws(s))
}

proof fn lemma_trim_end_ws_is_take(s: Seq<char>, j: int)
    requires
        0 <= j <= s.len(),
        forall|i: int| j <= i < s.len() ==> is_ws_char(s[i]),
        j > 0 ==> !is_ws_char(s[j - 1]),
    ensures
        trim_end_ws(s) == s.take(j),
    decreases s.len(),
{
    if s.len() > j {
        assert(is_ws_char(s.last()));
        lemma_trim_end_ws_is_take(s.drop_last(), j);
        assert(s.drop_last().take(j) =~= s.take(j));
    } else {
        assert(s.take(j) =~= s);
    }
}

proof fn lemma_trim_start_ws_is_skip(s: Seq<char>, j: int)
    requires
        0 <= j <= s.len(),
        forall|i: int| 0 <= i < j ==> is_ws_char(s[i]),
        j < s.len() ==> !is_ws_char(s[j]),
    ensures
        trim_start_ws(s) == s.skip(j),
    decreases j,
{
    if j > 0 {
        assert(is_ws_char(s[0]));
        lemma_trim_start_ws_is_skip(s.skip(1), j - 1);
        assert(s.skip(1).skip(j - 1) =~= s.skip(j));
    } else {
        assert(s.skip(0) =~= s);
    }
}

fn is_ws(c: char) -> (b: bool)
    ensures
        b == is_ws_char(c),
{
    c == ' ' || c == '\t' || c == '\n' || c == '\r'
}

/// Removes the surrounding whitespace of `s`.
pub fn trim_ws(s: &str) -> (r: String)
    ensures
        r@ == spec_trim_ws(s@),
{
    let n = s.unicode_len();
    let mut j: usize = n;
    while j > 0 && is_ws(s.get_char(j - 1))
        invariant
            j <= n,
            n == s@.len(),
            forall|i: int| j <= i < s@.len() ==> is_ws_char(s@[i]),
        decreases j,
    {
        j = j - 1;
    }
    proof {
        lemma_trim_end_ws_is_take(s@, j as int);
    }
    let t = s.substring_char(0, j);
    let tn = t.unicode_len();
    let mut k: usize = 0;
    while k < tn && is_ws(t.get_char(k))
        invariant
            k <= tn,
            tn == t@.len(),
            forall|i: int| 0 <= i < k ==> is_ws_char(t@[i]),
        decreases tn - k,
    {
        k = k + 1;
    }
    proof {
        lemma_trim_start_ws_is_skip(t@, k as int);
    }
    let r = t.substring_char(k, tn);
    proof {
        assert(t@.subrange(k as int, tn as int) =~= t@.skip(k as int));
    }
    String::from_str(r)
}

/// `s` with every leading copy of `p` removed.
pub open spec fn spec_strip_prefix_rep(s: Seq<char>, p: Seq<char>) -> Seq<char>
    decreases s.len(),
{
    if p.len() > 0 && spec_is_prefix(p, s) {
        spec_strip_prefix_rep(s.skip(p.len() as int), p)
    } else {
        s
    }
}

/// Removes every leading copy of `p` from `s`.
pub fn strip_prefix_rep(s: &str, p: &str) -> (r: String)
    ensures
        r@ == spec_strip_prefix_rep(s@, p@),
{
    let n = s.unicode_len();
    let pl = p.unicode_len();
    if pl == 0 {
        return String::from_str(s);
    }
    let mut off: usize = 0;
    proof {
        assert(s@.skip(0) =~= s@);
    }
    loop
        invariant
            off <= n,
            n == s@.len(),
            pl == p@.len(),
            pl > 0,
            spec_strip_prefix_rep(s@.skip(off as int), p@) == spec_strip_prefix_rep(s@, p@),
        decreases n - off,
    {
        let more = if pl <= n && off <= n - pl {
            let w = s.substring_char(off, off + pl);
            proof {
                assert(s@.subrange(off as int, off + pl) =~= s@.skip(off as int).subrange(
                    0,
                    pl as int,
                ));
            }
            str_eq(w, p)
        } else {
            proof {
                assert(!spec_is_prefix(p@, s@.skip(off as int)));
            }
            false
        };
        if !more {
            proof {
                assert(spec_strip_prefix_rep(s@.skip(off as int), p@) == s@.skip(off as int));
                assert(s@.subrange(off as int, n as int) =~= s@.skip(off as int));
            }
            let r = s.substring_char(off, n);
            return String::from_str(r);
        }
        proof {
            assert(spec_is_prefix(p@, s@.skip(off as int)));
            assert(s@.skip(off as int).skip(pl as int) =~= s@.skip(off + pl));
        }
        off = off + pl;
    }
}

proof fn lemma_trim_end_is_take(s: Seq<char>, j: int)
    requires
        0 <= j <= s.len(),
        forall|i: int| j <= i < s.len() ==> s[i] == '/',
        j > 0 ==> s[j - 1] != '/',
    ensures
        trim_end_slashes(s) == s.take(j),
    decreases s.len(),
{
    if s.len() > j {
        assert(s.last() == '/');
        lemma_trim_end_is_take(s.drop_last(), j);
        assert(s.drop_last().take(j) =~= s.take(j));
    } else {
        assert(s.take(j) =~= s);
    }
}

proof fn lemma_trim_start_is_skip(s: Seq<char>, j: int)
    requires
        0 <= j <= s.len(),
        forall|i: int| 0 <= i < j ==> s[i] == '/',
        j < s.len() ==> s[j] != '/',
    ensures
        trim_start_slashes(s) == s.skip(j),
    decreases j,
{
    if j > 0 {
        assert(s[0] == '/');
        lemma_trim_start_is_skip(s.skip(1), j - 1);
        assert(s.skip(1).skip(j - 1) =~= s.skip(j));
    } else {
        assert(s.skip(0) =~= s);
    }
}

/// Removes the trailing `/` characters of `s`.
pub fn trim_end_slash(s: &str) -> (r: String)
    ensures
        r@ == trim_end_slashes(s@),
{
    let n = s.unicode_len();
    let mut j: usize = n;
    while j > 0 && s.get_char(j - 1) == '/'
        invariant
            j <= n,
            n == s@.len(),
            forall|i: int| j <= i < s@.len() ==> s@[i] == '/',
        decreases j,
    {
        j = j - 1;
    }
    proof {
        lemma_trim_end_is_take(s@, j as int);
    }
    let r = s.substring_char(0, j);
    String::from_str(r)
}

/// Removes the leading and trailing `/` characters of `s`.
pub fn trim_slash(s: &str) -> (r: String)
    ensures
        r@ == trim_slashes(s@),
{
    let t = trim_end_slash(s);
    let ts = t.as_str();
    let n = ts.unicode_len();
    let mut j: usize = 0;
    while j < n && ts.get_char(j) == '/'
        invariant
            j <= n,
            n == ts@.len(),
            forall|i: int| 0 <= i < j ==> ts@[i] == '/',
        decreases n - j,
    {
        j = j + 1;
    }
    proof {
        lemma_trim_start_is_skip(ts@, j as int);
    }
    let r = ts.substring_char(j, n);
    proof {
        assert(ts@.subrange(j as int, n as int) =~= ts@.skip(j as int));
    }
    String::from_str(r)
}

/// Joins a base path and one segment with a single `/` between them.
pub fn concat_path(base: &str, seg: &str) -> (r: String)
    ensures
        r@ == spec_concat_path(base@, seg@),
{
    let b = trim_end_slash(base);
    let t = trim_slash(seg);
    let r = str_concat3(b.as_str(), "/", t.as_str());
    proof {
        reveal_strlit("/");
        assert("/"@ =~= seq!['/']);
    }
    r
}

/// Appends every token of `w` to `v`, in order.
pub fn append_tokens(v: &mut Vec<String>, w: &Vec<String>)
    ensures
        final(v).deep_view() == old(v).deep_view() + w.deep_view(),
{
    let ghost pre = v.deep_view();
    let mut i: usize = 0;
    while i < w.len()
        invariant
            i <= w.len(),
            v.deep_view() == pre + w.deep_view().take(i as int),
        decreases w.len() - i,
    {
        let ghost mid = v.deep_view();
        v.push(w[i].clone());
        i = i + 1;
        proof {
            assert(v.deep_view() =~= mid.push(w.deep_view()[i - 1]));
            assert(v.deep_view() =~= pre + w.deep_view().take(i as int));
        }
    }
    proof {
        assert(w.deep_view().take(w.deep_view().len() as int) =~= w.deep_view());
    }
}

} // verus!
