use vstd::prelude::*;
use vstd::string::{StrSliceExecFns, StringExecFns};
use crate::runner::views;
use crate::update::{trim_text, trimmed};

verus! {

/// The lines of a text, without their terminators.
pub uninterp spec fn lines_in(s: Seq<char>) -> Seq<Seq<char>>;

/// Relies on `str::lines`: the lines of `s`, which depend on its characters
/// alone.
#[verifier::external_body]
fn text_lines(s: &str) -> (r: Vec<String>)
    ensures
        views(r@) == lines_in(s@),
{
    s.lines().map(|l| l.to_string()).collect()
}

pub open spec fn starts_with(s: Seq<char>, p: Seq<char>) -> bool {
    p.len() <= s.len() && s.take(p.len() as int) == p
}

/// The key of the os-release entry that names the distribution.
pub open spec fn pretty_key() -> Seq<char> {
    "PRETTY_NAME="@
}

/// The index of the first `c` in `s`, or its length when there is none.
pub open spec fn first_index_of(s: Seq<char>, c: char) -> nat
    decreases s.len(),
{
    if s.len() == 0 {
        0
    } else if s[0] == c {
        0
    } else {
        1 + first_index_of(s.drop_first(), c)
    }
}

/// `s` without the double quotes at its start and its end.
pub open spec fn strip_quotes(s: Seq<char>) -> Seq<char>
    decreases s.len(),
{
    if s.len() > 0 && s[0] == '"' {
        strip_quotes(s.drop_first())
    } else if s.len() > 0 && s.last() == '"' {
        strip_quotes(s.drop_last())
    } else {
        s
    }
}

/// The value of a `PRETTY_NAME=` line: the text after the key up to the next
/// `=`, without surrounding quotes.
pub open spec fn entry_value(line: Seq<char>) -> Seq<char> {
    let rest = line.skip(pretty_key().len() as int);
    strip_quotes(rest.take(first_index_of(rest, '=') as int))
}

/// The distribution named by the first `PRETTY_NAME=` line, if any.
pub open spec fn pretty_name_in(lines: Seq<Seq<char>>) -> Option<Seq<char>>
    decreases lines.len(),
{
    if lines.len() == 0 {
        None
    } else if starts_with(lines[0], pretty_key()) {
        Some(entry_value(lines[0]))
    } else {
        pretty_name_in(lines.drop_first())
    }
}

proof fn lemma_first_index(s: Seq<char>, c: char, i: int)
    requires
        0 <= i <= s.len(),
        forall|k: int| 0 <= k < i ==> s[k] != c,
        i == s.len() || s[i] == c,
    ensures
        first_index_of(s, c) == i,
    decreases i,
{
    if i > 0 {
        lemma_first_index(s.drop_first(), c, i - 1);
    }
}

/// Whether `s` starts with `p`.
fn has_prefix(s: &str, p: &str) -> (r: bool)
    ensures
        r == starts_with(s@, p@),
{
    let n = s.unicode_len();
    let m = p.unicode_len();
    if m > n {
        return false;
    }
    let mut i: usize = 0;
    while i < m
        invariant
            m == p@.len(),
            n == s@.len(),
            m <= n,
            i <= m,
            forall|k: int| 0 <= k < i ==> s@[k] == p@[k],
        decreases m - i,
    {
        if s.get_char(i) != p.get_char(i) {
            assert(s@.take(m as int)[i as int] != p@[i as int]);
            return false;
        }
        i = i + 1;
    }
    assert(s@.take(m as int) =~= p@);
    true
}

/// The value of a line that starts with `PRETTY_NAME=`.
fn value_of_entry(line: &str) -> (r: String)
    requires
        starts_with(line@, pretty_key()),
    ensures
        r@ == entry_value(line@),
{
    proof {
        reveal_strlit("PRETTY_NAME=");
    }
    let n = line.unicode_len();
    let key: usize = 12;
    let ghost rest = line@.skip(key as int);
    // The value ends at the first '=' after the key.
    let mut end: usize = key;
    while end < n && line.get_char(end) != '='
        invariant
            n == line@.len(),
            key <= end <= n,
            forall|k: int| key <= k < end ==> line@[k] != '=',
        decreases n - end,
    {
        end = end + 1;
    }
    proof {
        assert forall|k: int| 0 <= k < end - key implies rest[k] != '=' by {
            assert(rest[k] == line@[k + key]);
        }
        if end < n {
            assert(rest[end - key] == line@[end as int]);
        }
        lemma_first_index(rest, '=', end - key);
        assert(line@.subrange(key as int, end as int) =~= rest.take(end - key));
    }
    // Then drop the quotes around it.
    let mut start: usize = key;
    while start < end && line.get_char(start) == '"'
        invariant
            n == line@.len(),
            key <= start <= end <= n,
            strip_quotes(line@.subrange(start as int, end as int)) == entry_value(line@),
        decreases end - start,
    {
        proof {
            assert(line@.subrange(start as int, end as int).drop_first() =~= line@.subrange(
                start + 1,
                end as int,
            ));
        }
        start = start + 1;
    }
    while end > start && line.get_char(end - 1) == '"'
        invariant
            n == line@.len(),
            key <= start <= end <= n,
            strip_quotes(line@.subrange(start as int, end as int)) == entry_value(line@),
            start == end || line@[start as int] != '"',
        decreases end - start,
    {
        proof {
            assert(line@.subrange(start as int, end as int).drop_last() =~= line@.subrange(
                start as int,
                end - 1,
            ));
        }
        end = end - 1;
    }
    String::from_str(line.substring_char(start, end))
}

/// The distribution's name as the os-release text gives it in its first
/// `PRETTY_NAME=` line, unquoted; `None` when no line gives it.
pub fn distribution_name(os_release: &str) -> (r: Option<String>)
    ensures
        match pretty_name_in(lines_in(os_release@)) {
            Some(v) => r is Some && r->Some_0@ == v,
            None => r is None,
        },
{
    let lines = text_lines(os_release);
    let ghost all = views(lines@);
    let mut i: usize = 0;
    proof {
        assert(all.skip(0) =~= all);
    }
    while i < lines.len()
        invariant
            i <= lines@.len(),
            all == views(lines@),
            all == lines_in(os_release@),
            pretty_name_in(all) == pretty_name_in(all.skip(i as int)),
        decreases lines@.len() - i,
    {
        if has_prefix(lines[i].as_str(), "PRETTY_NAME=") {
            return Some(value_of_entry(lines[i].as_str()));
        }
        proof {
            assert(all.skip(i as int).drop_first() =~= all.skip(i + 1));
        }
        i = i + 1;
    }
    None
}

/// A tool's version report as shown to the user: its text without
/// surrounding whitespace.
pub fn version_text(report: &str) -> (r: String)
    ensures
        r@ == trimmed(report@),
{
    trim_text(report)
}

} // verus!
