//! The environment handed to a guest: a list of pairs, read as a map in
//! which the later of two entries with one key wins.

use vstd::prelude::*;
use crate::text::{entry_key, entry_value, split_entry};

verus! {

/// The pairs of `env` as plain text.
pub open spec fn pairs_view(env: Seq<(String, String)>) -> Seq<(Seq<char>, Seq<char>)> {
    env.map_values(|pair: (String, String)| (pair.0@, pair.1@))
}

/// The map that a list of pairs stands for: each key with the value of its
/// last entry.
pub open spec fn env_map(pairs: Seq<(Seq<char>, Seq<char>)>) -> Map<Seq<char>, Seq<char>>
    decreases pairs.len(),
{
    if pairs.len() == 0 {
        Map::empty()
    } else {
        env_map(pairs.drop_last()).insert(pairs.last().0, pairs.last().1)
    }
}

/// What `env` holds for `key`, if anything.
pub open spec fn env_lookup(pairs: Seq<(Seq<char>, Seq<char>)>, key: Seq<char>) -> Option<
    Seq<char>,
> {
    if env_map(pairs).dom().contains(key) {
        Some(env_map(pairs)[key])
    } else {
        None
    }
}

/// No key stands twice in `pairs`.
pub open spec fn distinct_keys(pairs: Seq<(Seq<char>, Seq<char>)>) -> bool {
    forall|i: int, j: int| 0 <= i < j < pairs.len() ==> pairs[i].0 != pairs[j].0
}

/// The entries of `entries`, each split at its first `=`.
pub open spec fn split_entries(entries: Seq<String>) -> Seq<(Seq<char>, Seq<char>)> {
    entries.map_values(|entry: String| (entry_key(entry@), entry_value(entry@)))
}

/// Another entry at the end sets its key, whatever stood there.
pub proof fn lemma_env_map_push(pairs: Seq<(Seq<char>, Seq<char>)>, pair: (Seq<char>, Seq<char>))
    ensures
        env_map(pairs.push(pair)) == env_map(pairs).insert(pair.0, pair.1),
{
    assert(pairs.push(pair).drop_last() == pairs);
}

/// Some entry of `pairs` carries `key`.
pub open spec fn has_key(pairs: Seq<(Seq<char>, Seq<char>)>, key: Seq<char>) -> bool {
    exists|i: int| 0 <= i < pairs.len() && (#[trigger] pairs[i]).0 == key
}

/// `pairs` with the value of the last entry of `key` replaced by `value`;
/// `pairs` itself where no entry carries the key.
pub open spec fn rewritten(pairs: Seq<(Seq<char>, Seq<char>)>, key: Seq<char>, value: Seq<char>) -> Seq<
    (Seq<char>, Seq<char>),
>
    decreases pairs.len(),
{
    if pairs.len() == 0 {
        pairs
    } else if pairs.last().0 == key {
        pairs.drop_last().push((key, value))
    } else {
        rewritten(pairs.drop_last(), key, value).push(pairs.last())
    }
}

/// `pairs` with `key` set to `value`: the last entry of the key is rewritten
/// where it stands, and without one a new entry is put at the end.
pub open spec fn with_var(pairs: Seq<(Seq<char>, Seq<char>)>, key: Seq<char>, value: Seq<char>) -> Seq<
    (Seq<char>, Seq<char>),
> {
    if has_key(pairs, key) {
        rewritten(pairs, key, value)
    } else {
        pairs.push((key, value))
    }
}

/// Rewriting a value changes no key and moves no entry.
pub proof fn lemma_rewritten_keys(
    pairs: Seq<(Seq<char>, Seq<char>)>,
    key: Seq<char>,
    value: Seq<char>,
)
    ensures
        rewritten(pairs, key, value).len() == pairs.len(),
        forall|i: int|
            0 <= i < pairs.len() ==> (#[trigger] rewritten(pairs, key, value)[i]).0 == pairs[i].0,
    decreases pairs.len(),
{
    if pairs.len() > 0 {
        lemma_rewritten_keys(pairs.drop_last(), key, value);
    }
}

/// Rewriting the value of a key that is there sets the key in the map and
/// touches no other.
proof fn lemma_rewritten_map(pairs: Seq<(Seq<char>, Seq<char>)>, key: Seq<char>, value: Seq<char>)
    requires
        has_key(pairs, key),
    ensures
        env_map(rewritten(pairs, key, value)) == env_map(pairs).insert(key, value),
    decreases pairs.len(),
{
    let init = pairs.drop_last();
    if pairs.last().0 == key {
        lemma_env_map_push(init, (key, value));
        assert(env_map(rewritten(pairs, key, value)) =~= env_map(pairs).insert(key, value));
    } else {
        let at = choose|i: int| 0 <= i < pairs.len() && (#[trigger] pairs[i]).0 == key;
        assert(init[at].0 == key);
        lemma_rewritten_map(init, key, value);
        lemma_env_map_push(rewritten(init, key, value), pairs.last());
        assert(env_map(rewritten(pairs, key, value)) =~= env_map(pairs).insert(key, value));
    }
}

/// Setting a key sets it in the map and touches no other key.
pub proof fn lemma_with_var_map(pairs: Seq<(Seq<char>, Seq<char>)>, key: Seq<char>, value: Seq<char>)
    ensures
        env_map(with_var(pairs, key, value)) == env_map(pairs).insert(key, value),
{
    if has_key(pairs, key) {
        lemma_rewritten_map(pairs, key, value);
    } else {
        lemma_env_map_push(pairs, (key, value));
    }
}

/// Setting a key in an environment that holds no key twice leaves it so.
pub proof fn lemma_with_var_distinct(
    pairs: Seq<(Seq<char>, Seq<char>)>,
    key: Seq<char>,
    value: Seq<char>,
)
    requires
        distinct_keys(pairs),
    ensures
        distinct_keys(with_var(pairs, key, value)),
{
    let set = with_var(pairs, key, value);
    lemma_rewritten_keys(pairs, key, value);
    assert forall|i: int, j: int| 0 <= i < j < set.len() implies set[i].0 != set[j].0 by {
        if has_key(pairs, key) {
            assert(set[i].0 == pairs[i].0 && set[j].0 == pairs[j].0);
        } else if j < pairs.len() {
            assert(pairs[i].0 != pairs[j].0);
        } else {
            assert(pairs[i].0 != key);
        }
    }
}

/// Where `at` is the last entry of `key`, setting the key rewrites that
/// entry.
proof fn lemma_with_var_found(
    pairs: Seq<(Seq<char>, Seq<char>)>,
    key: Seq<char>,
    value: Seq<char>,
    at: int,
)
    requires
        0 <= at < pairs.len(),
        pairs[at].0 == key,
        forall|j: int| at < j < pairs.len() ==> (#[trigger] pairs[j]).0 != key,
    ensures
        with_var(pairs, key, value) == pairs.update(at, (key, value)),
        rewritten(pairs, key, value) == pairs.update(at, (key, value)),
    decreases pairs.len(),
{
    let init = pairs.drop_last();
    if at == pairs.len() - 1 {
        assert(init.push((key, value)) == pairs.update(at, (key, value)));
    } else {
        assert(pairs[pairs.len() - 1].0 != key);
        assert forall|j: int| at < j < init.len() implies (#[trigger] init[j]).0 != key by {
            assert(pairs[j].0 != key);
        }
        assert(init[at].0 == key);
        lemma_with_var_found(init, key, value, at);
        assert(init.update(at, (key, value)).push(pairs.last()) == pairs.update(at, (key, value)));
    }
}

/// Reads the runtime's `KEY=VALUE` entries as pairs, in their order. An
/// entry without `=` is a key with the empty value.
pub fn envs_from_ctx(entries: &[String]) -> (env: Vec<(String, String)>)
    ensures
        pairs_view(env@) == split_entries(entries@),
{
    let mut env: Vec<(String, String)> = Vec::with_capacity(entries.len());
    let mut i: usize = 0;
    while i < entries.len()
        invariant
            i <= entries.len(),
            pairs_view(env@) == split_entries(entries@.take(i as int)),
        decreases entries.len() - i,
    {
        let pair = split_entry(entries[i].as_str());
        proof {
            let done = entries@.take(i as int);
            assert(entries@.take(i + 1) == done.push(entries@[i as int]));
            assert(split_entries(done.push(entries@[i as int])) == split_entries(done).push(
                (pair.0@, pair.1@),
            ));
            assert(pairs_view(env@.push(pair)) == pairs_view(env@).push((pair.0@, pair.1@)));
        }
        env.push(pair);
        i += 1;
    }
    proof {
        assert(entries@.take(i as int) == entries@);
    }
    env
}

/// Sets `key` to `value`: the last entry of the key is rewritten where it
/// stands, and without one a new entry is put at the end.
pub fn set_var(env: &mut Vec<(String, String)>, key: String, value: String)
    ensures
        pairs_view(final(env)@) == with_var(pairs_view(old(env)@), key@, value@),
        env_map(pairs_view(final(env)@)) == env_map(pairs_view(old(env)@)).insert(key@, value@),
        distinct_keys(pairs_view(old(env)@)) ==> distinct_keys(pairs_view(final(env)@)),
{
    let ghost before = pairs_view(env@);
    let mut j: usize = env.len();
    while j > 0
        invariant
            j <= env.len(),
            env@ == old(env)@,
            before == pairs_view(env@),
            forall|i: int| j <= i < before.len() ==> (#[trigger] before[i]).0 != key@,
        decreases j,
    {
        j -= 1;
        if env[j].0 == key {
            proof {
                assert(before[j as int].0 == key@);
                lemma_with_var_found(before, key@, value@, j as int);
                lemma_with_var_map(before, key@, value@);
                if distinct_keys(before) {
                    lemma_with_var_distinct(before, key@, value@);
                }
                assert(pairs_view(env@.update(j as int, (key, value))) == before.update(
                    j as int,
                    (key@, value@),
                ));
            }
            env.set(j, (key, value));
            return ;
        }
        assert(before[j as int].0 != key@);
    }
    proof {
        assert(!has_key(before, key@));
        lemma_with_var_map(before, key@, value@);
        if distinct_keys(before) {
            lemma_with_var_distinct(before, key@, value@);
        }
        assert(pairs_view(env@.push((key, value))) == before.push((key@, value@)));
    }
    env.push((key, value));
}

} // verus!
