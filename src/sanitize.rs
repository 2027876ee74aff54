//! Turning free-form titles into names that are safe on common file systems.
use vstd::prelude::*;
use vstd::std_specs::iter::IteratorSpec;

verus! {

/// Characters that are illegal or troublesome in a file name on common file
/// systems: path separators, wildcards, quotes (including their full-width and
/// typographic forms) and the drive separator.
pub open spec fn is_unsafe_char(c: char) -> bool {
    c == '<' || c == '>' || c == ':' || c == '"' || c == '/' || c == '\\' || c == '|' || c == '?'
        || c == '*' || c == '\u{FF1F}' || c == '\u{FF02}' || c == '\u{201C}' || c == '\u{201D}'
}

/// The character that stands in for every unsafe one.
pub open spec fn sanitize_char(c: char) -> char {
    if is_unsafe_char(c) {
        '_'
    } else {
        c
    }
}

/// A title with every unsafe character replaced, each character on its own.
pub open spec fn sanitized(s: Seq<char>) -> Seq<char> {
    s.map_values(|c: char| sanitize_char(c))
}

fn is_unsafe(c: char) -> (r: bool)
    ensures
        r == is_unsafe_char(c),
{
    c == '<' || c == '>' || c == ':' || c == '"' || c == '/' || c == '\\' || c == '|' || c == '?'
        || c == '*' || c == '\u{FF1F}' || c == '\u{FF02}' || c == '\u{201C}' || c == '\u{201D}'
}

/// Replaces each unsafe character of `filename` with `_`, keeping all others.
pub fn sanitize_filename(filename: &str) -> (r: String)
    ensures
        r@ == sanitized(filename@),
{
    broadcast use vstd::string::group_string_axioms;
    let mut out = String::new();
    let mut it = filename.chars();
    let ghost mut k: int = 0;
    loop
        invariant
            0 <= k <= filename@.len(),
            it.remaining() == filename@.skip(k),
            out@ == sanitized(filename@.take(k)),
        ensures
            out@ == sanitized(filename@),
        decreases filename@.len() - k,
    {
        let next = it.next();
        match next {
            Some(c) => {
                let d = if is_unsafe(c) { '_' } else { c };
                out.push(d);
                proof {
                    assert(filename@.take(k + 1) == filename@.take(k).push(c));
                    k = k + 1;
                }
                assert(out@ =~= sanitized(filename@.take(k)));
            },
            None => {
                assert(filename@.skip(k).len() == 0);
                assert(filename@.take(k) =~= filename@);
                break;
            },
        }
    }
    out
}

/// Sanitising is a fixed point after one application: no character that
/// sanitising produces is replaced again.
pub proof fn sanitize_idempotent(s: Seq<char>)
    ensures
        sanitized(sanitized(s)) == sanitized(s),
{
    assert(sanitized(sanitized(s)) =~= sanitized(s));
}

/// Sanitising works character by character, so it distributes over
/// concatenation.
pub proof fn sanitize_concat(a: Seq<char>, b: Seq<char>)
    ensures
        sanitized(a + b) == sanitized(a) + sanitized(b),
{
    assert(sanitized(a + b) =~= sanitized(a) + sanitized(b));
}

} // verus!
