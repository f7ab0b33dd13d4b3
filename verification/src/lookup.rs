//! Resolving an entity by its display name.
//!
//! A trivial linear scan over `(name, entity)` pairs: the first pair whose
//! name equals the target exactly (case-sensitive) wins, and an absent name
//! yields nothing. Pure and side-effect free; included for the downstream
//! systems that look entities up by name.

use vstd::prelude::*;

verus! {

/// The first value paired with `name`, scanning `pairs` front to back;
/// nothing when no pair carries `name`.
pub open spec fn name_lookup<T>(pairs: Seq<(String, T)>, name: Seq<char>) -> Option<T>
    decreases pairs.len(),
{
    if pairs.len() == 0 {
        None
    } else if pairs[0].0@ == name {
        Some(pairs[0].1)
    } else {
        name_lookup(pairs.drop_first(), name)
    }
}

/// Returns the first entity in `pairs` whose name equals `name` exactly
/// (case-sensitive), or nothing when no pair matches. Scans front to back
/// and stops at the first match.
pub fn find_entity_by_name<T: Copy>(pairs: &Vec<(String, T)>, name: &String) -> (r: Option<T>)
    ensures
        r == name_lookup(pairs@, name@),
{
    let mut i: usize = 0;
    proof {
        assert(pairs@.skip(0) =~= pairs@);
    }
    while i < pairs.len()
        invariant
            0 <= i <= pairs@.len(),
            name_lookup(pairs@, name@) == name_lookup(pairs@.skip(i as int), name@),
        decreases pairs@.len() - i,
    {
        let pair = &pairs[i];
        proof {
            assert(pairs@.skip(i as int).drop_first() =~= pairs@.skip(i as int + 1));
            assert(pairs@.skip(i as int)[0] == pairs@[i as int]);
        }
        if pair.0 == *name {
            return Some(pair.1);
        }
        i = i + 1;
    }
    proof {
        assert(pairs@.skip(pairs@.len() as int) =~= Seq::<(String, T)>::empty());
    }
    None
}

/// The lookup law: a scan finds a value exactly when some pair carries the
/// name, and a name present several times resolves to the value of its
/// first occurrence.
pub proof fn lemma_name_lookup_first_match<T>(pairs: Seq<(String, T)>, name: Seq<char>)
    ensures
        (name_lookup(pairs, name) is Some) <==> (exists|i: int|
            0 <= i < pairs.len() && (#[trigger] pairs[i]).0@ == name),
        forall|i: int|
            (0 <= i < pairs.len() && (#[trigger] pairs[i]).0@ == name && (forall|j: int|
                0 <= j < i ==> (#[trigger] pairs[j]).0@ != name)) ==> name_lookup(pairs, name)
                == Some(pairs[i].1),
    decreases pairs.len(),
{
    if pairs.len() == 0 {
    } else if pairs[0].0@ == name {
        assert(0 <= 0 < pairs.len() && pairs[0].0@ == name);
        assert forall|i: int|
            (0 <= i < pairs.len() && pairs[i].0@ == name && (forall|j: int|
                0 <= j < i ==> (#[trigger] pairs[j]).0@ != name)) implies name_lookup(pairs, name)
            == Some(pairs[i].1) by {
            if i > 0 {
                assert(pairs[0].0@ != name);
                assert(false);
            }
        }
    } else {
        let rest = pairs.drop_first();
        lemma_name_lookup_first_match(rest, name);
        assert forall|i: int| 0 <= i < pairs.len() && (#[trigger] pairs[i]).0@ == name implies (
        exists|k: int| 0 <= k < rest.len() && (#[trigger] rest[k]).0@ == name) by {
            assert(i != 0);
            assert(rest[i - 1] == pairs[i]);
        }
        if exists|k: int| 0 <= k < rest.len() && (#[trigger] rest[k]).0@ == name {
            let k = choose|k: int| 0 <= k < rest.len() && (#[trigger] rest[k]).0@ == name;
            assert(pairs[k + 1] == rest[k]);
            assert(0 <= k + 1 < pairs.len() && pairs[k + 1].0@ == name);
        }
        assert forall|i: int|
            (0 <= i < pairs.len() && (#[trigger] pairs[i]).0@ == name && (forall|j: int|
                0 <= j < i ==> (#[trigger] pairs[j]).0@ != name)) implies name_lookup(pairs, name)
            == Some(pairs[i].1) by {
            assert(i != 0);
            assert(rest[i - 1] == pairs[i]);
            assert forall|j: int| 0 <= j < i - 1 implies (#[trigger] rest[j]).0@ != name by {
                assert(rest[j] == pairs[j + 1]);
            }
            assert(name_lookup(rest, name) == Some(rest[i - 1].1));
        }
    }
}

} // verus!
