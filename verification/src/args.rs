//! Command-line value extraction shared by the subcommand parsers.
//!
//! Handles both `--key=value` and `--key value` forms, with the exact
//! usage message of a missing value, plus the common invalid-argument and
//! missing-parameter messages and space-joining of collected words.

use vstd::prelude::*;
use vstd::string::StrSliceExecFns;
use vstd::string::StringExecFns;

use crate::strutil::find_char;
use crate::strutil::push_tok_owned;

verus! {

/// The index of the first occurrence of `c` in `s`, or -1.
pub open spec fn spec_index_of(s: Seq<char>, c: char) -> int
    decreases s.len(),
{
    if s.len() == 0 {
        -1
    } else if s[0] == c {
        0
    } else {
        let r = spec_index_of(s.skip(1), c);
        if r == -1 {
            -1
        } else {
            r + 1
        }
    }
}

pub proof fn lemma_index_of_first(s: Seq<char>, c: char, i: int)
    requires
        0 <= i < s.len(),
        s[i] == c,
        forall|j: int| 0 <= j < i ==> s[j] != c,
    ensures
        spec_index_of(s, c) == i,
    decreases i,
{
    if i > 0 {
        lemma_index_of_first(s.skip(1), c, i - 1);
        assert(s.skip(1)[i - 1] == s[i]);
    }
}

pub proof fn lemma_index_of_none(s: Seq<char>, c: char)
    requires
        forall|j: int| 0 <= j < s.len() ==> s[j] != c,
    ensures
        spec_index_of(s, c) == -1,
    decreases s.len(),
{
    if s.len() > 0 {
        lemma_index_of_none(s.skip(1), c);
    }
}

/// The usage message shown when a key has no value: names the key, the
/// expected value kind, and the exact form the caller used.
pub open spec fn spec_kv_error(
    app: Seq<char>,
    sub: Seq<char>,
    key: Seq<char>,
    val_name: Seq<char>,
    inline: bool,
) -> Seq<char> {
    app + ": "@ + sub + ": "@ + key + " requires a <"@ + val_name + ">.\nUsage: "@ + app + " "@
        + sub + " "@ + key + (if inline {
        "="@
    } else {
        " "@
    }) + "<"@ + val_name + ">"@
}

/// The value of a `--key=value` or `--key value` argument: the inline
/// remainder after the first `=` when one is present, else the next
/// argument when it is neither empty nor itself a flag; anything else is
/// the usage error.
pub open spec fn spec_parse_key_value(
    app: Seq<char>,
    sub: Seq<char>,
    val_name: Seq<char>,
    arg: Seq<char>,
    nxt: Option<Seq<char>>,
) -> Result<Seq<char>, Seq<char>> {
    let i = spec_index_of(arg, '=');
    if i >= 0 {
        let v = arg.skip(i + 1);
        if v.len() > 0 {
            Ok(v)
        } else {
            Err(spec_kv_error(app, sub, arg.take(i), val_name, true))
        }
    } else {
        match nxt {
            Some(n) => if n.len() == 0 || n[0] == '-' {
                Err(spec_kv_error(app, sub, arg, val_name, false))
            } else {
                Ok(n)
            },
            None => Err(spec_kv_error(app, sub, arg, val_name, false)),
        }
    }
}

fn build_kv_error(app: &str, sub: &str, key: &str, val_name: &str, inline: bool) -> (r: String)
    ensures
        r@ == spec_kv_error(app@, sub@, key@, val_name@, inline),
{
    let mut m = String::from_str(app);
    m.append(": ");
    m.append(sub);
    m.append(": ");
    m.append(key);
    m.append(" requires a <");
    m.append(val_name);
    m.append(">.\nUsage: ");
    m.append(app);
    m.append(" ");
    m.append(sub);
    m.append(" ");
    m.append(key);
    if inline {
        m.append("=");
    } else {
        m.append(" ");
    }
    m.append("<");
    m.append(val_name);
    m.append(">");
    m
}

/// Extracts the value of a key argument in either of its two forms.
pub fn parse_key_value(app: &str, sub: &str, val_name: &str, arg: &str, nxt: Option<&str>) -> (r:
    Result<String, String>)
    ensures
        ({
            let s = spec_parse_key_value(app@, sub@, val_name@, arg@, nxt.deep_view());
            match r {
                Ok(v) => s is Ok && v@ == s->Ok_0,
                Err(e) => s is Err && e@ == s->Err_0,
            }
        }),
{
    let n = arg.unicode_len();
    match find_char(arg, '=') {
        Some(i) => {
            proof {
                lemma_index_of_first(arg@, '=', i as int);
            }
            if i + 1 < n {
                let v = arg.substring_char(i + 1, n);
                proof {
                    assert(arg@.subrange(i + 1, n as int) =~= arg@.skip(i + 1));
                }
                Ok(String::from_str(v))
            } else {
                proof {
                    assert(arg@.skip(i + 1).len() == 0);
                }
                let key = arg.substring_char(0, i);
                proof {
                    assert(arg@.subrange(0, i as int) =~= arg@.take(i as int));
                }
                Err(build_kv_error(app, sub, key, val_name, true))
            }
        },
        None => {
            proof {
                lemma_index_of_none(arg@, '=');
            }
            match nxt {
                Some(nx) => {
                    let nl = nx.unicode_len();
                    if nl == 0 || nx.get_char(0) == '-' {
                        Err(build_kv_error(app, sub, arg, val_name, false))
                    } else {
                        Ok(String::from_str(nx))
                    }
                },
                None => Err(build_kv_error(app, sub, arg, val_name, false)),
            }
        },
    }
}

/// The invalid-argument message of a subcommand.
pub open spec fn spec_invalid_arg(app: Seq<char>, sub: Seq<char>, arg: Seq<char>) -> Seq<char> {
    app + ": "@ + sub + ": invalid argument '"@ + arg
        + "'\nUse '"@ + app + " --help' to see available options."@
}

pub fn invalid_arg_message(app: &str, sub: &str, arg: &str) -> (r: String)
    ensures
        r@ == spec_invalid_arg(app@, sub@, arg@),
{
    let mut m = String::from_str(app);
    m.append(": ");
    m.append(sub);
    m.append(": invalid argument '");
    m.append(arg);
    m.append("'\nUse '");
    m.append(app);
    m.append(" --help' to see available options.");
    m
}

/// The missing-parameter message of a subcommand; `essential` names the
/// stricter wording used when a required core parameter is absent.
pub open spec fn spec_missing_arg(app: Seq<char>, sub: Seq<char>, essential: bool) -> Seq<char> {
    app + ": "@ + sub + (if essential {
        ": no essential parameter specified\nUse '"@
    } else {
        ": no parameter specified\nUse '"@
    }) + app + " --help' to see available options."@
}

pub fn missing_arg_message(app: &str, sub: &str, essential: bool) -> (r: String)
    ensures
        r@ == spec_missing_arg(app@, sub@, essential),
{
    let mut m = String::from_str(app);
    m.append(": ");
    m.append(sub);
    if essential {
        m.append(": no essential parameter specified\nUse '");
    } else {
        m.append(": no parameter specified\nUse '");
    }
    m.append(app);
    m.append(" --help' to see available options.");
    m
}

/// What follows the first word when words are joined with `sep`.
pub open spec fn spec_join_sep(parts: Seq<Seq<char>>, sep: char) -> Seq<char>
    decreases parts.len(),
{
    if parts.len() == 0 {
        Seq::<char>::empty()
    } else {
        seq![sep] + parts[0] + spec_join_sep(parts.skip(1), sep)
    }
}

/// Words joined with single copies of `sep`.
pub open spec fn spec_join_with(parts: Seq<Seq<char>>, sep: char) -> Seq<char> {
    if parts.len() == 0 {
        Seq::<char>::empty()
    } else {
        parts[0] + spec_join_sep(parts.skip(1), sep)
    }
}

/// Words joined with single spaces.
pub open spec fn spec_join_space(parts: Seq<Seq<char>>) -> Seq<char> {
    spec_join_with(parts, ' ')
}

/// Joins words with single copies of `sep`.
pub fn join_with(parts: &Vec<String>, sep: char) -> (r: String)
    ensures
        r@ == spec_join_with(parts.deep_view(), sep),
{
    let ghost dv = parts.deep_view();
    if parts.len() == 0 {
        let r = String::new();
        proof {
            assert(r@ =~= spec_join_with(dv, sep));
        }
        return r;
    }
    let mut s = parts[0].clone();
    let mut j: usize = 1;
    proof {
        assert(dv.skip(0) =~= dv);
    }
    while j < parts.len()
        invariant
            1 <= j <= parts.len(),
            dv == parts.deep_view(),
            dv.len() > 0,
            s@ + spec_join_sep(dv.skip(j as int), sep) == spec_join_with(dv, sep),
        decreases parts.len() - j,
    {
        proof {
            assert(dv.skip(j as int)[0] == dv[j as int]);
            assert(dv.skip(j as int).skip(1) =~= dv.skip(j + 1));
        }
        let ghost sv = s@;
        crate::strutil::push_char(&mut s, sep);
        s.append(parts[j].as_str());
        proof {
            assert(s@ =~= sv + (seq![sep] + dv[j as int]));
            assert((sv + (seq![sep] + dv[j as int])) + spec_join_sep(dv.skip(j + 1), sep) =~= sv + (
            seq![sep] + dv[j as int] + spec_join_sep(dv.skip(j + 1), sep)));
        }
        j = j + 1;
    }
    proof {
        assert(dv.skip(parts.len() as int).len() == 0);
        assert(s@ + spec_join_sep(dv.skip(parts.len() as int), sep) =~= s@);
    }
    s
}

/// Joins words with single spaces.
pub fn join_space(parts: &Vec<String>) -> (r: String)
    ensures
        r@ == spec_join_space(parts.deep_view()),
{
    join_with(parts, ' ')
}

} // verus!
