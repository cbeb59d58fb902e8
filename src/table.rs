//! First-match lookup in an ordered table of `(state, input, value)` entries.
use vstd::prelude::*;
use vstd::std_specs::cmp::PartialEqSpec;

verus! {

/// Entry `e` is keyed on `(s, i)`: same state, and an input equal to `i`
/// under the input type's equality.
pub open spec fn key_matches<I: PartialEq, T>(e: (u8, I, T), s: u8, i: I) -> bool {
    e.0 == s && e.1.eq_spec(&i)
}

/// `k` is the position of the first entry of `t` keyed on `(s, i)`.
pub open spec fn is_first_match<I: PartialEq, T>(t: Seq<(u8, I, T)>, s: u8, i: I, k: int) -> bool {
    &&& 0 <= k < t.len()
    &&& key_matches(t[k], s, i)
    &&& forall|j: int| 0 <= j < k ==> !key_matches(#[trigger] t[j], s, i)
}

/// The value of the first entry of `t` keyed on `(s, i)`, if there is one.
pub open spec fn lookup<I: PartialEq, T>(t: Seq<(u8, I, T)>, s: u8, i: I) -> Option<T> {
    if exists|k: int| is_first_match(t, s, i, k) {
        Some(t[choose|k: int| is_first_match(t, s, i, k)].2)
    } else {
        None
    }
}

/// Scans `table` in order and returns the value of the first entry whose
/// state is `state` and whose input equals `input`.
///
/// The result is pinned to `lookup` where the input type's `==` is known to
/// agree with its `eq_spec` (integers, `bool`, `char`, and types that state
/// their equality); for any other type, a returned value still comes from an
/// entry whose state is `state`.
pub fn resolve<I: Eq, T: Copy>(table: &[(u8, I, T)], state: u8, input: &I) -> (r: Option<T>)
    ensures
        I::obeys_eq_spec() ==> r == lookup(table@, state, *input),
        r is Some ==> exists|k: int|
            0 <= k < table@.len() && (#[trigger] table@[k]).0 == state && r == Some(table@[k].2),
{
    let mut k: usize = 0;
    while k < table.len()
        invariant
            0 <= k <= table@.len(),
            I::obeys_eq_spec() ==> forall|j: int| 0 <= j < k ==> !key_matches(#[trigger] table@[j], state, *input),
        decreases table@.len() - k,
    {
        let e = &table[k];
        if e.0 == state && e.1 == *input {
            proof {
                if I::obeys_eq_spec() {
                    lemma_lookup_at_first_match(table@, state, *input, k as int);
                }
            }
            return Some(e.2);
        }
        k += 1;
    }
    proof {
        if I::obeys_eq_spec() {
            assert(!exists|c: int| is_first_match(table@, state, *input, c)) by {
                assert forall|c: int| !is_first_match(table@, state, *input, c) by {
                    if 0 <= c < table@.len() {
                        assert(!key_matches(table@[c], state, *input));
                    }
                }
            }
        }
    }
    None
}

} // verus!

verus! {

/// First match wins: when two entries share the key `(s, i)`, the lookup
/// gives the value of the earlier one, provided no entry before it has that
/// key.
pub proof fn lemma_first_match_wins<I: PartialEq, T>(
    t: Seq<(u8, I, T)>,
    s: u8,
    i: I,
    j: int,
    k: int,
)
    requires
        0 <= j < k < t.len(),
        key_matches(t[j], s, i),
        key_matches(t[k], s, i),
        forall|m: int| 0 <= m < j ==> !key_matches(#[trigger] t[m], s, i),
    ensures
        lookup(t, s, i) == Some(t[j].2),
{
    lemma_lookup_at_first_match(t, s, i, j);
}

/// The lookup gives the value at the first matching position.
pub proof fn lemma_lookup_at_first_match<I: PartialEq, T>(t: Seq<(u8, I, T)>, s: u8, i: I, k: int)
    requires
        is_first_match(t, s, i, k),
    ensures
        lookup(t, s, i) == Some(t[k].2),
{
    let c = choose|c: int| is_first_match(t, s, i, c);
    assert(c == k) by {
        if c < k {
            assert(!key_matches(t[c], s, i));
        } else if c > k {
            assert(!key_matches(t[k], s, i));
        }
    }
}

} // verus!
