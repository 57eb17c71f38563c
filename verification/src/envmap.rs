//! An environment snapshot as a sequence of (name, value) pairs.
//!
//! The snapshot keeps insertion order; when a name occurs more than once,
//! the pair appended last wins, which is also how a child process built
//! from the snapshot would see the variable.

use vstd::prelude::*;

verus! {

/// The view of an optional owned string.
pub open spec fn opt_str_view(o: Option<String>) -> Option<Seq<char>> {
    match o {
        Some(s) => Some(s@),
        None => None,
    }
}

/// The value bound to `key` in the snapshot, the last binding winning.
pub open spec fn env_lookup(env: Seq<(String, String)>, key: Seq<char>) -> Option<Seq<char>>
    decreases env.len(),
{
    if env.len() == 0 {
        None
    } else if env.last().0@ == key {
        Some(env.last().1@)
    } else {
        env_lookup(env.drop_last(), key)
    }
}

/// Looks a variable up in a snapshot: the value of the last pair carrying
/// the name, or nothing when no pair does.
pub fn lookup(env: &Vec<(String, String)>, key: &String) -> (r: Option<String>)
    ensures
        opt_str_view(r) == env_lookup(env@, key@),
{
    let mut i: usize = env.len();
    proof {
        assert(env@.take(env@.len() as int) =~= env@);
    }
    while i > 0
        invariant
            i <= env.len(),
            env_lookup(env@, key@) == env_lookup(env@.take(i as int), key@),
        decreases i,
    {
        i = i - 1;
        if env[i].0 == *key {
            let v = env[i].1.clone();
            proof {
                assert(env@.take(i + 1).last() == env@[i as int]);
            }
            return Some(v);
        }
        proof {
            assert(env@.take(i + 1).drop_last() =~= env@.take(i as int));
        }
    }
    None
}

/// Appending a pair overrides exactly its own name: looking that name up
/// afterwards yields the appended value, and every other name resolves as
/// it did before.
pub proof fn lemma_override_wins(env: Seq<(String, String)>, pair: (String, String), key: Seq<char>)
    ensures
        pair.0@ == key ==> env_lookup(env.push(pair), key) == Some(pair.1@),
        pair.0@ != key ==> env_lookup(env.push(pair), key) == env_lookup(env, key),
{
    assert(env.push(pair).last() == pair);
    assert(env.push(pair).drop_last() =~= env);
}

/// Copies a snapshot pair by pair.
pub fn clone_env(env: &Vec<(String, String)>) -> (r: Vec<(String, String)>)
    ensures
        r@ == env@,
{
    let mut out: Vec<(String, String)> = Vec::new();
    let mut i: usize = 0;
    while i < env.len()
        invariant
            i <= env.len(),
            out@ == env@.take(i as int),
        decreases env.len() - i,
    {
        out.push((env[i].0.clone(), env[i].1.clone()));
        proof {
            assert(out@ =~= env@.take(i + 1));
        }
        i = i + 1;
    }
    proof {
        assert(env@.take(env@.len() as int) =~= env@);
    }
    out
}

} // verus!
