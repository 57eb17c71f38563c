//! Path arithmetic on `/`-separated path strings.
//!
//! Paths are handled as plain strings: ascending a level drops the final
//! separator-delimited component, and joining appends one separator and a
//! relative component.

use vstd::prelude::*;

verus! {

/// The index of the last `/` in the string, or -1 when it has none.
pub open spec fn last_sep(s: Seq<char>) -> int
    decreases s.len(),
{
    if s.len() == 0 {
        -1
    } else if s.last() == '/' {
        s.len() - 1
    } else {
        last_sep(s.drop_last())
    }
}

/// The directory one level above the path: everything before the last `/`,
/// or `/` itself when that separator is the leading one.  A path without a
/// separator, and the root `/` alone, have no parent.
pub open spec fn parent_dir_spec(s: Seq<char>) -> Option<Seq<char>> {
    let j = last_sep(s);
    if j < 0 {
        None
    } else if j == 0 {
        if s.len() == 1 {
            None
        } else {
            Some(seq!['/'])
        }
    } else {
        Some(s.take(j))
    }
}

/// The base path extended by one separator and a relative component.
pub open spec fn join_spec(base: Seq<char>, leaf: Seq<char>) -> Seq<char> {
    base + seq!['/'] + leaf
}

/// Ascends one directory level: drops the final separator-delimited
/// component of the path, keeping the leading `/` when it is all that is
/// left.  A path without a separator, and the root `/` alone, have no
/// parent, and nothing is returned for them.
pub fn parent_dir(s: &String) -> (r: Option<String>)
    ensures
        crate::envmap::opt_str_view(r) == parent_dir_spec(s@),
{
    let n = s.as_str().unicode_len();
    let mut i: usize = n;
    proof {
        assert(s@.take(s@.len() as int) =~= s@);
    }
    while i > 0
        invariant
            i <= n,
            n == s@.len(),
            last_sep(s@) == last_sep(s@.take(i as int)),
        decreases i,
    {
        i = i - 1;
        if s.as_str().get_char(i) == '/' {
            proof {
                assert(s@.take(i + 1).last() == s@[i as int]);
                assert(last_sep(s@) == i);
            }
            if i == 0 {
                if n == 1 {
                    return None;
                } else {
                    let r = String::from_str("/");
                    proof {
                        reveal_strlit("/");
                        assert(r@ =~= seq!['/']);
                    }
                    return Some(r);
                }
            } else {
                return Some(String::from_str(s.as_str().substring_char(0, i)));
            }
        }
        proof {
            assert(s@.take(i + 1).drop_last() =~= s@.take(i as int));
        }
    }
    None
}

/// Joins a relative component onto a base path with a single separator.
pub fn join_path(base: &String, leaf: &String) -> (r: String)
    ensures
        r@ == join_spec(base@, leaf@),
{
    let r = base.clone().concat("/").concat(leaf.as_str());
    proof {
        reveal_strlit("/");
        assert(r@ =~= join_spec(base@, leaf@));
    }
    r
}

} // verus!
