//! A wiring table is a sequence of 26 alphabet indexes: entry `i` is the pin
//! that a signal entering at pin `i` leaves from.  The predicates here say
//! when such a table is a bijection over [0, 25] and when one table undoes
//! another; rotors and reflectors state their invariants with them, and
//! `invert_table` builds the precomputed reverse table they rely on.

use vstd::prelude::*;

verus! {

/// Every entry is an alphabet index.
pub open spec fn in_range(t: Seq<u8>) -> bool {
    forall|i: int| 0 <= i < t.len() ==> t[i] < 26
}

/// No two pins are wired to the same pin.
pub open spec fn injective(t: Seq<u8>) -> bool {
    forall|i: int, j: int| 0 <= i < t.len() && 0 <= j < t.len() && i != j ==> t[i] != t[j]
}

/// Pin `v` is reached from some pin.
pub open spec fn hit(t: Seq<u8>, v: int) -> bool {
    exists|i: int| 0 <= i < t.len() && #[trigger] t[i] == v
}

/// Every pin is reached from some pin.
pub open spec fn surjective(t: Seq<u8>) -> bool {
    forall|v: int| 0 <= v < 26 ==> #[trigger] hit(t, v)
}

/// The table is a bijection over [0, 25].
pub open spec fn is_permutation(t: Seq<u8>) -> bool {
    t.len() == 26 && in_range(t) && injective(t) && surjective(t)
}

/// `inv` undoes `t` and `t` undoes `inv`, in both directions.
pub open spec fn inverse_of(inv: Seq<u8>, t: Seq<u8>) -> bool {
    &&& t.len() == 26
    &&& inv.len() == 26
    &&& in_range(t)
    &&& in_range(inv)
    &&& forall|i: int| 0 <= i < 26 ==> inv[t[i] as int] == i
    &&& forall|i: int| 0 <= i < 26 ==> t[inv[i] as int] == i
}

/// Sending a signal through the table twice returns it to its entry pin.
pub open spec fn involutive(t: Seq<u8>) -> bool {
    t.len() == 26 && in_range(t) && forall|i: int| 0 <= i < 26 ==> t[t[i] as int] == i
}

/// No pin is wired to itself.
pub open spec fn fixed_point_free(t: Seq<u8>) -> bool {
    forall|i: int| 0 <= i < t.len() ==> t[i] != i
}

/// A pair of mutually inverse tables are each a bijection over [0, 25].
pub proof fn lemma_inverse_permutation(inv: Seq<u8>, t: Seq<u8>)
    requires
        inverse_of(inv, t),
    ensures
        is_permutation(t),
        is_permutation(inv),
{
    assert forall|v: int| 0 <= v < 26 implies #[trigger] hit(t, v) by {
        assert(t[inv[v] as int] == v);
    }
    assert forall|v: int| 0 <= v < 26 implies #[trigger] hit(inv, v) by {
        assert(inv[t[v] as int] == v);
    }
}

/// Computes the 26-entry inverse of a wiring table, or reports that the table
/// is not a permutation.  Rotors call this once at construction time, so the
/// reverse lookup is never computed per letter.
pub fn invert_table(t: &Vec<u8>) -> (r: Option<Vec<u8>>)
    ensures
        r is Some <==> is_permutation(t@),
        r matches Some(inv) ==> inverse_of(inv@, t@),
{
    if t.len() != 26 {
        return None;
    }
    let mut inv: Vec<u8> = Vec::new();
    let mut k: usize = 0;
    while k < 26
        invariant
            inv@.len() == k,
            k <= 26,
            forall|v: int| 0 <= v < k ==> inv@[v] == 26,
        decreases 26 - k,
    {
        inv.push(26);
        k += 1;
    }
    let mut i: usize = 0;
    while i < 26
        invariant
            t@.len() == 26,
            inv@.len() == 26,
            i <= 26,
            forall|m: int| 0 <= m < i ==> t@[m] < 26,
            forall|m: int| 0 <= m < i ==> inv@[t@[m] as int] == m,
            forall|v: int| 0 <= v < 26 ==> (inv@[v] == 26 || (inv@[v] < i && t@[inv@[v] as int]
                == v)),
            forall|v: int| 0 <= v < 26 ==> (inv@[v] != 26 <==> exists|m: int|
                0 <= m < i && #[trigger] t@[m] == v),
        decreases 26 - i,
    {
        let x = t[i];
        if x >= 26 {
            return None;
        }
        if inv[x as usize] != 26 {
            proof {
                let m = choose|m: int| 0 <= m < i && t@[m] == x;
                assert(t@[m] == t@[i as int] && m != i);
            }
            return None;
        }
        inv.set(x as usize, i as u8);
        i += 1;
    }
    let mut j: usize = 0;
    while j < 26
        invariant
            t@.len() == 26,
            inv@.len() == 26,
            j <= 26,
            forall|m: int| 0 <= m < 26 ==> t@[m] < 26,
            forall|m: int| 0 <= m < 26 ==> inv@[t@[m] as int] == m,
            forall|v: int| 0 <= v < 26 ==> (inv@[v] == 26 || (inv@[v] < 26 && t@[inv@[v] as int]
                == v)),
            forall|v: int| 0 <= v < 26 ==> (inv@[v] != 26 <==> exists|m: int|
                0 <= m < 26 && #[trigger] t@[m] == v),
            forall|v: int| 0 <= v < j ==> inv@[v] != 26,
        decreases 26 - j,
    {
        if inv[j] == 26 {
            proof {
                if is_permutation(t@) {
                    assert(hit(t@, j as int));
                    let w = choose|i: int| 0 <= i < t@.len() && #[trigger] t@[i] == j as int;
                    assert(t@[w] == j as int);
                }
            }
            return None;
        }
        j += 1;
    }
    proof {
        lemma_inverse_permutation(inv@, t@);
    }
    Some(inv)
}

} // verus!
