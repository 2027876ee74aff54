//! The index file kept beside a synced directory, and the summary of a run.
use vstd::prelude::*;
use crate::text::{decimal_of, push_decimal, views};

verus! {

/// `s` without the `'/'` characters at its end.
pub open spec fn trim_trailing_slashes(s: Seq<char>) -> Seq<char>
    decreases s.len(),
{
    if s.len() > 0 && s.last() == '/' {
        trim_trailing_slashes(s.drop_last())
    } else {
        s
    }
}

/// Where the last component of `s` begins: just after its last `'/'`, or at
/// the start.
pub open spec fn last_component_start(s: Seq<char>) -> int
    decreases s.len(),
{
    if s.len() == 0 {
        0
    } else if s.last() == '/' {
        s.len() as int
    } else {
        last_component_start(s.drop_last())
    }
}

/// Whether a path component names no directory of its own: it is empty, `.`
/// or `..`.
pub open spec fn is_unnamed_component(c: Seq<char>) -> bool {
    ||| c.len() == 0
    ||| (c.len() == 1 && c[0] == '.')
    ||| (c.len() == 2 && c[0] == '.' && c[1] == '.')
}

/// The index file of a directory: `<parent>/<name>.m3u`, that is the
/// directory's path without trailing separators, followed by `.m3u`. A path
/// whose last component is empty, `.` or `..` has none.
pub open spec fn index_path_of(location: Seq<char>) -> Option<Seq<char>> {
    let t = trim_trailing_slashes(location);
    if is_unnamed_component(t.skip(last_component_start(t))) {
        None
    } else {
        Some(t + ".m3u"@)
    }
}

/// Computes the path of the index file for the directory `location`.
pub fn index_path(location: &str) -> (r: Option<String>)
    ensures
        match index_path_of(location@) {
            Some(p) => r is Some && r->Some_0@ == p,
            None => r is None,
        },
{
    let s = location;
    let n = s.unicode_len();
    let mut end = n;
    assert(s@.take(n as int) =~= s@);
    while end > 0 && s.get_char(end - 1) == '/'
        invariant
            end <= n,
            n == s@.len(),
            trim_trailing_slashes(s@) == trim_trailing_slashes(s@.take(end as int)),
        decreases end,
    {
        assert(s@.take(end as int).drop_last() =~= s@.take(end - 1));
        end = end - 1;
    }
    let ghost t = s@.take(end as int);
    assert(trim_trailing_slashes(t) == t);
    let mut b = end;
    assert(t.take(end as int) =~= t);
    while b > 0 && s.get_char(b - 1) != '/'
        invariant
            b <= end <= n,
            n == s@.len(),
            t == s@.take(end as int),
            last_component_start(t) == last_component_start(t.take(b as int)),
        decreases b,
    {
        assert(t.take(b as int).drop_last() =~= t.take(b - 1));
        b = b - 1;
    }
    assert(last_component_start(t.take(b as int)) == b as int);
    let base = s.substring_char(b, end);
    assert(base@ =~= t.skip(b as int));
    let blen = end - b;
    let unnamed = blen == 0 || (blen == 1 && base.get_char(0) == '.') || (blen == 2
        && base.get_char(0) == '.' && base.get_char(1) == '.');
    if unnamed {
        None
    } else {
        let mut r = String::from_str(s.substring_char(0, end));
        r.append(".m3u");
        Some(r)
    }
}

/// The text of an index file: each line followed by a newline, no header.
pub open spec fn index_text_of(lines: Seq<Seq<char>>) -> Seq<char>
    decreases lines.len(),
{
    if lines.len() == 0 {
        Seq::empty()
    } else {
        index_text_of(lines.drop_last()) + lines.last().push('\n')
    }
}

/// Builds the text of an index file from its lines.
pub fn index_text(lines: &Vec<String>) -> (r: String)
    ensures
        r@ == index_text_of(views(lines@)),
{
    let mut r = String::new();
    let mut i: usize = 0;
    assert(views(lines@).take(0) =~= Seq::<Seq<char>>::empty());
    while i < lines.len()
        invariant
            i <= lines@.len(),
            r@ == index_text_of(views(lines@).take(i as int)),
        decreases lines@.len() - i,
    {
        assert(views(lines@).take(i + 1).drop_last() =~= views(lines@).take(i as int));
        r.append(lines[i].as_str());
        r.push('\n');
        i = i + 1;
        assert(r@ =~= index_text_of(views(lines@).take(i as int)));
    }
    assert(views(lines@).take(i as int) =~= views(lines@));
    r
}

/// What a run reports when a target is done: the count of newly synced
/// items, in the singular for exactly one and the plural otherwise.
pub open spec fn completion_message_of(count: nat, location: Seq<char>) -> Seq<char> {
    decimal_of(count) + if count == 1 {
        " new song successfully synced to "@
    } else {
        " new songs successfully synced to "@
    } + location
}

/// Builds the report of a finished target.
pub fn completion_message(count: usize, location: &str) -> (r: String)
    ensures
        r@ == completion_message_of(count as nat, location@),
{
    let mut r = String::new();
    push_decimal(&mut r, count);
    if count == 1 {
        r.append(" new song successfully synced to ");
    } else {
        r.append(" new songs successfully synced to ");
    }
    r.append(location);
    r
}

} // verus!
