//! Scoped name environments.
//!
//! Both passes use an association list as their environment: entering a
//! `let` pushes a binding, leaving it pops the binding again, and a lookup
//! takes the most recently pushed entry for a name.  A later binding for a
//! name therefore shadows an earlier one while the `let` body is checked or
//! evaluated, and the earlier binding is restored afterwards.

use vstd::prelude::*;

verus! {

/// The finite map that an association list denotes: a later entry for a
/// name shadows an earlier one.
pub open spec fn env_map<V>(s: Seq<(String, V)>) -> Map<Seq<char>, V>
    decreases s.len(),
{
    if s.len() == 0 {
        Map::empty()
    } else {
        env_map(s.drop_last()).insert(s.last().0@, s.last().1)
    }
}

/// Pushing a binding inserts it into the denoted map.
pub proof fn lemma_env_map_push<V>(s: Seq<(String, V)>, name: String, v: V)
    ensures
        env_map(s.push((name, v))) == env_map(s).insert(name@, v),
{
    assert(s.push((name, v)).drop_last() =~= s);
    assert(s.push((name, v)).last() == (name, v));
}

/// Extending a prefix by one entry inserts that entry into the prefix's map.
pub proof fn lemma_env_map_take<V>(s: Seq<(String, V)>, i: int)
    requires
        0 <= i < s.len(),
    ensures
        env_map(s.take(i + 1)) == env_map(s.take(i)).insert(s[i].0@, s[i].1),
{
    assert(s.take(i + 1).drop_last() =~= s.take(i));
    assert(s.take(i + 1).last() == s[i]);
}

/// Find the most recent binding for `name`: the index of the last entry
/// whose name matches, which holds the value the denoted map gives `name`.
pub fn lookup<V>(env: &Vec<(String, V)>, name: &String) -> (r: Option<usize>)
    ensures
        match r {
            Option::Some(i) => i < env@.len() && env@[i as int].0@ == name@
                && env_map(env@).dom().contains(name@)
                && env_map(env@)[name@] == env@[i as int].1,
            Option::None => !env_map(env@).dom().contains(name@),
        },
{
    let mut i: usize = env.len();
    proof {
        assert(env@.take(env@.len() as int) =~= env@);
    }
    while i > 0
        invariant
            i <= env@.len(),
            env_map(env@).dom().contains(name@) == env_map(env@.take(i as int)).dom().contains(
                name@,
            ),
            env_map(env@).dom().contains(name@) ==> env_map(env@)[name@] == env_map(
                env@.take(i as int),
            )[name@],
        decreases i,
    {
        let j: usize = i - 1;
        proof {
            lemma_env_map_take(env@, j as int);
        }
        if env[j].0 == *name {
            return Option::Some(j);
        }
        i = j;
    }
    proof {
        assert(env@.take(0) =~= Seq::<(String, V)>::empty());
    }
    Option::None
}

} // verus!
