//! Splitting strings into tokens, fields and lines.
//!
//! The raw extra-bind specification is whitespace-split into argument
//! tokens, passwd records are colon-split into fields, and file contents
//! are newline-split into lines.  Each splitter's contract is a recursive
//! sequence function, so callers reason about the exact token lists.

use vstd::prelude::*;
use vstd::string::StrSliceExecFns;

use crate::strutil::push_char;

verus! {

pub open spec fn is_ws_char(c: char) -> bool {
    c == ' ' || c == '\t' || c == '\n' || c == '\r'
}

/// Tokens of `s` after splitting on runs of whitespace, with `cur` the
/// partial token read so far.
pub open spec fn split_ws_rec(s: Seq<char>, cur: Seq<char>) -> Seq<Seq<char>>
    decreases s.len(),
{
    if s.len() == 0 {
        if cur.len() == 0 {
            Seq::empty()
        } else {
            seq![cur]
        }
    } else if is_ws_char(s[0]) {
        (if cur.len() == 0 {
            Seq::empty()
        } else {
            seq![cur]
        }) + split_ws_rec(s.skip(1), Seq::empty())
    } else {
        split_ws_rec(s.skip(1), cur.push(s[0]))
    }
}

/// The whitespace-separated tokens of `s`: maximal nonempty runs of
/// non-whitespace characters, in order.
pub open spec fn spec_split_ws(s: Seq<char>) -> Seq<Seq<char>> {
    split_ws_rec(s, Seq::empty())
}

/// Fields of `s` after splitting on `sep`, with `cur` the partial field
/// read so far.  Empty fields are kept.
pub open spec fn split_char_rec(s: Seq<char>, sep: char, cur: Seq<char>) -> Seq<Seq<char>>
    decreases s.len(),
{
    if s.len() == 0 {
        seq![cur]
    } else if s[0] == sep {
        seq![cur] + split_char_rec(s.skip(1), sep, Seq::empty())
    } else {
        split_char_rec(s.skip(1), sep, cur.push(s[0]))
    }
}

/// The `sep`-separated fields of `s`, empty fields kept; always nonempty.
pub open spec fn spec_split_char(s: Seq<char>, sep: char) -> Seq<Seq<char>> {
    split_char_rec(s, sep, Seq::empty())
}

proof fn lemma_skip_step(s: Seq<char>, i: int)
    requires
        0 <= i < s.len(),
    ensures
        s.skip(i)[0] == s[i],
        s.skip(i).skip(1) =~= s.skip(i + 1),
        s.skip(i).len() == s.len() - i,
{
}

fn is_ws(c: char) -> (b: bool)
    ensures
        b == is_ws_char(c),
{
    c == ' ' || c == '\t' || c == '\n' || c == '\r'
}

/// Splits `s` on runs of whitespace into its nonempty tokens.
pub fn split_whitespace(s: &str) -> (r: Vec<String>)
    ensures
        r.deep_view() == spec_split_ws(s@),
{
    let n = s.unicode_len();
    let mut out: Vec<String> = Vec::new();
    let mut cur = String::new();
    let mut i: usize = 0;
    proof {
        assert(s@.skip(0) =~= s@);
        assert(out.deep_view() + split_ws_rec(s@, cur@) =~= split_ws_rec(s@, cur@));
    }
    while i < n
        invariant
            i <= n,
            n == s@.len(),
            spec_split_ws(s@) == out.deep_view() + split_ws_rec(s@.skip(i as int), cur@),
        decreases n - i,
    {
        let c = s.get_char(i);
        let ghost rest = s@.skip(i as int);
        proof {
            lemma_skip_step(s@, i as int);
        }
        if is_ws(c) {
            if cur.as_str().unicode_len() != 0 {
                let ghost pre = out.deep_view();
                let ghost cv = cur@;
                out.push(cur);
                cur = String::new();
                proof {
                    assert(out.deep_view() =~= pre.push(cv));
                    assert(split_ws_rec(rest, cv) == seq![cv] + split_ws_rec(
                        s@.skip(i + 1),
                        Seq::empty(),
                    ));
                    assert(pre.push(cv) + split_ws_rec(s@.skip(i + 1), Seq::empty()) =~= pre + (
                    seq![cv] + split_ws_rec(s@.skip(i + 1), Seq::empty())));
                }
            } else {
                proof {
                    assert(cur@ =~= Seq::<char>::empty());
                    assert(split_ws_rec(rest, cur@) == Seq::<Seq<char>>::empty() + split_ws_rec(
                        s@.skip(i + 1),
                        Seq::empty(),
                    ));
                    assert(Seq::<Seq<char>>::empty() + split_ws_rec(s@.skip(i + 1), Seq::empty())
                        =~= split_ws_rec(s@.skip(i + 1), Seq::empty()));
                }
            }
        } else {
            let ghost cv = cur@;
            push_char(&mut cur, c);
            proof {
                assert(split_ws_rec(rest, cv) == split_ws_rec(s@.skip(i + 1), cur@));
            }
        }
        i = i + 1;
    }
    proof {
        assert(s@.skip(n as int).len() == 0);
    }
    if cur.as_str().unicode_len() != 0 {
        let ghost pre = out.deep_view();
        let ghost cv = cur@;
        out.push(cur);
        proof {
            assert(out.deep_view() =~= pre.push(cv));
        }
    }
    out
}

/// Splits `s` on `sep`, keeping empty fields.
pub fn split_on_char(s: &str, sep: char) -> (r: Vec<String>)
    ensures
        r.deep_view() == spec_split_char(s@, sep),
        r.len() >= 1,
{
    let n = s.unicode_len();
    let mut out: Vec<String> = Vec::new();
    let mut cur = String::new();
    let mut i: usize = 0;
    proof {
        assert(s@.skip(0) =~= s@);
        assert(out.deep_view() + split_char_rec(s@, sep, cur@) =~= split_char_rec(s@, sep, cur@));
    }
    while i < n
        invariant
            i <= n,
            n == s@.len(),
            spec_split_char(s@, sep) == out.deep_view() + split_char_rec(
                s@.skip(i as int),
                sep,
                cur@,
            ),
        decreases n - i,
    {
        let c = s.get_char(i);
        proof {
            lemma_skip_step(s@, i as int);
        }
        if c == sep {
            let ghost pre = out.deep_view();
            let ghost cv = cur@;
            out.push(cur);
            cur = String::new();
            proof {
                assert(out.deep_view() =~= pre.push(cv));
            }
        } else {
            push_char(&mut cur, c);
        }
        i = i + 1;
    }
    proof {
        assert(s@.skip(n as int).len() == 0);
    }
    let ghost pre = out.deep_view();
    let ghost cv = cur@;
    out.push(cur);
    proof {
        assert(out.deep_view() =~= pre.push(cv));
    }
    out
}

/// The lines of `s`: newline-split fields.
pub fn split_lines(s: &str) -> (r: Vec<String>)
    ensures
        r.deep_view() == spec_split_char(s@, '\n'),
        r.len() >= 1,
{
    split_on_char(s, '\n')
}

} // verus!
