//! Filesystem paths as text, joined the way `PathBuf::join` joins a
//! relative component on Unix: a `/` goes between the two unless the base
//! is empty or already ends with one.

use vstd::prelude::*;
use crate::text::{owned, concat, push_char};

verus! {

/// `base` joined with the relative component `c`.
pub open spec fn join(base: Seq<char>, c: Seq<char>) -> Seq<char> {
    if base.len() == 0 {
        c
    } else if base.last() == '/' {
        base + c
    } else {
        base.push('/') + c
    }
}

/// Joins a relative component onto a path.
pub fn path_join(base: &str, c: &str) -> (r: String)
    ensures
        r@ == join(base@, c@),
{
    let n = base.unicode_len();
    if n == 0 {
        owned(c)
    } else if base.get_char(n - 1) == '/' {
        concat(owned(base), c)
    } else {
        let mut s = owned(base);
        push_char(&mut s, '/');
        concat(s, c)
    }
}

/// The joined path ends with the component.
pub proof fn lemma_join_ends_with(base: Seq<char>, c: Seq<char>)
    ensures
        join(base, c).len() >= c.len(),
        join(base, c).subrange(join(base, c).len() - c.len(), join(base, c).len() as int) == c,
{
    let j = join(base, c);
    assert(j.subrange(j.len() - c.len(), j.len() as int) =~= c);
}

} // verus!
