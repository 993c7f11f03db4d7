//! Fixed-width byte strings: identities, hashes and their order.

use vstd::prelude::*;

verus! {

broadcast use vstd::array::group_array_axioms;

/// A 32-byte value: a hash, a public key or an identity.
pub type Bytes32 = [u8; 32];

/// Lexicographic order on byte strings of equal length; for fixed-width
/// values this is the order of the big-endian unsigned integers they encode.
pub open spec fn seq_lt(a: Seq<u8>, b: Seq<u8>) -> bool {
    exists|i: int|
        0 <= i < a.len() && i < b.len() && a[i] < b[i] && (forall|j: int|
            0 <= j < i ==> #[trigger] a[j] == b[j])
}

/// Whether two 32-byte values are equal.
pub fn bytes_eq(a: &Bytes32, b: &Bytes32) -> (r: bool)
    ensures
        r == (*a == *b),
{
    let mut i: usize = 0;
    while i < 32
        invariant
            0 <= i <= 32,
            forall|j: int| 0 <= j < i ==> a[j] == b[j],
        decreases 32 - i,
    {
        if a[i] != b[i] {
            return false;
        }
        i = i + 1;
    }
    assert(*a =~= *b);
    true
}

/// Whether `a` comes strictly before `b` in lexicographic order.
pub fn bytes_lt(a: &Bytes32, b: &Bytes32) -> (r: bool)
    ensures
        r == seq_lt(a@, b@),
{
    let mut i: usize = 0;
    while i < 32
        invariant
            0 <= i <= 32,
            a@.len() == 32,
            b@.len() == 32,
            forall|j: int| 0 <= j < i ==> a@[j] == b@[j],
        decreases 32 - i,
    {
        if a[i] != b[i] {
            assert(a@[i as int] == a[i as int]);
            if a[i] < b[i] {
                return true;
            } else {
                assert forall|k: int|
                    0 <= k < a@.len() && k < b@.len() && a@[k] < b@[k] implies !(forall|j: int|
                    0 <= j < k ==> #[trigger] a@[j] == b@[j]) by {
                    if k > i {
                        assert(a@[i as int] != b@[i as int]);
                    }
                }
                return false;
            }
        }
        i = i + 1;
    }
    false
}

/// `256^n`.
pub open spec fn pow256(n: nat) -> nat
    decreases n,
{
    if n == 0 {
        1
    } else {
        256 * pow256((n - 1) as nat)
    }
}

/// The unsigned number that a byte string encodes, most significant byte first.
pub open spec fn be_value(s: Seq<u8>) -> nat
    decreases s.len(),
{
    if s.len() == 0 {
        0
    } else {
        s[0] as nat * pow256((s.len() - 1) as nat) + be_value(s.drop_first())
    }
}

proof fn lemma_pow256_positive(n: nat)
    ensures
        pow256(n) > 0,
    decreases n,
{
    if n > 0 {
        lemma_pow256_positive((n - 1) as nat);
    }
}

/// A byte string of length `n` encodes a number below `256^n`.
proof fn lemma_be_value_bound(s: Seq<u8>)
    ensures
        be_value(s) < pow256(s.len()),
    decreases s.len(),
{
    if s.len() > 0 {
        let p = pow256((s.len() - 1) as nat);
        lemma_be_value_bound(s.drop_first());
        let d = s[0] as nat;
        assert(d * p <= 255 * p) by (nonlinear_arith)
            requires
                d <= 255,
        ;
    }
}

/// The lexicographic order on byte strings of equal length is the order of
/// the big-endian numbers they encode.
pub proof fn lemma_order_is_numeric(a: Seq<u8>, b: Seq<u8>)
    requires
        a.len() == b.len(),
    ensures
        seq_lt(a, b) <==> be_value(a) < be_value(b),
    decreases a.len(),
{
    if a.len() == 0 {
        return;
    }
    let n = (a.len() - 1) as nat;
    let p = pow256(n);
    let (ta, tb) = (a.drop_first(), b.drop_first());
    let (x, y) = (a[0] as nat, b[0] as nat);
    lemma_pow256_positive(n);
    lemma_be_value_bound(ta);
    lemma_be_value_bound(tb);
    if a[0] < b[0] {
        assert(forall|j: int| 0 <= j < 0 ==> #[trigger] a[j] == b[j]);
        assert(seq_lt(a, b));
        assert(x * p + p <= y * p) by (nonlinear_arith)
            requires
                x < y,
                p > 0,
        ;
    } else if a[0] > b[0] {
        if seq_lt(a, b) {
            let i = choose|i: int|
                0 <= i < a.len() && i < b.len() && a[i] < b[i] && (forall|j: int|
                    0 <= j < i ==> #[trigger] a[j] == b[j]);
            if i > 0 {
                assert(a[0] == b[0]);
            }
        }
        assert(y * p + p <= x * p) by (nonlinear_arith)
            requires
                y < x,
                p > 0,
        ;
    } else {
        lemma_order_is_numeric(ta, tb);
        if seq_lt(a, b) {
            let i = choose|i: int|
                0 <= i < a.len() && i < b.len() && a[i] < b[i] && (forall|j: int|
                    0 <= j < i ==> #[trigger] a[j] == b[j]);
            assert(i > 0);
            assert(ta[i - 1] < tb[i - 1]);
            assert forall|j: int| 0 <= j < i - 1 implies #[trigger] ta[j] == tb[j] by {
                assert(a[j + 1] == b[j + 1]);
            }
            assert(seq_lt(ta, tb));
        }
        if seq_lt(ta, tb) {
            let i = choose|i: int|
                0 <= i < ta.len() && i < tb.len() && ta[i] < tb[i] && (forall|j: int|
                    0 <= j < i ==> #[trigger] ta[j] == tb[j]);
            assert(a[i + 1] < b[i + 1]);
            assert forall|j: int| 0 <= j < i + 1 implies #[trigger] a[j] == b[j] by {
                if j > 0 {
                    assert(ta[j - 1] == tb[j - 1]);
                }
            }
            assert(seq_lt(a, b));
        }
    }
}

} // verus!
