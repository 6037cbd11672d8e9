//! Entry names as the archive stores them.

use vstd::prelude::*;

verus! {

/// `text` with every `separator` replaced by a forward slash.
pub open spec fn with_slashes(text: Seq<char>, separator: char) -> Seq<char> {
    Seq::new(
        text.len(),
        |i: int|
            if text[i] == separator {
                '/'
            } else {
                text[i]
            },
    )
}

/// A stored name stands for a directory when it ends with a forward slash.
pub open spec fn names_directory(name: Seq<char>) -> bool {
    name.len() > 0 && name.last() == '/'
}

/// Rewrites a relative path of the host into the form the archive stores:
/// every separator of the host becomes a forward slash.
pub fn normalize(name: &str, separator: char) -> (r: String)
    ensures
        r@ == with_slashes(name@, separator),
{
    let mut out = String::new();
    for c in it: name.chars()
        invariant
            it.seq() == name@,
            out@ == with_slashes(name@.take(it.index() as int), separator),
    {
        if c == separator {
            out.push('/');
        } else {
            out.push(c);
        }
        assert(out@ =~= with_slashes(name@.take(it.index() + 1), separator));
    }
    assert(name@.take(name@.len() as int) =~= name@);
    out
}

/// Tests whether a stored name stands for a directory.
pub fn is_directory_name(name: &str) -> (r: bool)
    ensures
        r == names_directory(name@),
{
    let mut last: Option<char> = None;
    for c in it: name.chars()
        invariant
            it.seq() == name@,
            it.index() == 0 ==> last is None,
            it.index() > 0 ==> last == Some(name@[it.index() - 1]),
    {
        last = Some(c);
    }
    match last {
        Some(c) => c == '/',
        None => false,
    }
}

/// Normalizing keeps the length, leaves no separator behind unless the
/// separator is the forward slash itself, and changes nothing when done twice.
pub proof fn normalize_is_canonical(name: Seq<char>, separator: char)
    ensures
        with_slashes(name, separator).len() == name.len(),
        separator != '/' ==> !with_slashes(name, separator).contains(separator),
        with_slashes(with_slashes(name, separator), separator) == with_slashes(name, separator),
        separator == '/' ==> with_slashes(name, separator) == name,
{
    let once = with_slashes(name, separator);
    assert(with_slashes(once, separator) =~= once);
    if separator == '/' {
        assert(once =~= name);
    }
}

} // verus!
