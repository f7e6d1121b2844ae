//! The order of names: that of their UTF-8 bytes, compared from the left.

use vstd::prelude::*;
use vstd::string::*;
use vstd::utf8::{encode_utf8, encode_utf8_decode_utf8};

verus! {

/// `a` and `b` agree on their first `k` bytes, and there `a` ends while `b`
/// goes on, or `a` has the smaller byte.
pub open spec fn parts_at(a: Seq<u8>, b: Seq<u8>, k: int) -> bool {
    &&& 0 <= k <= a.len()
    &&& k < b.len()
    &&& a.take(k) == b.take(k)
    &&& (k == a.len() || a[k] < b[k])
}

/// `a` comes before `b`: at the first place where they differ `a` has the
/// smaller byte, or `a` is a proper prefix of `b`.
pub open spec fn bytes_before(a: Seq<u8>, b: Seq<u8>) -> bool {
    exists|k: int| parts_at(a, b, k)
}

/// The name `a` comes before the name `b`, by their UTF-8 bytes.
pub open spec fn name_before(a: Seq<char>, b: Seq<char>) -> bool {
    bytes_before(encode_utf8(a), encode_utf8(b))
}

/// Two byte strings that agree on their first `k` bytes agree on each of
/// them.
proof fn lemma_take_agrees(a: Seq<u8>, b: Seq<u8>, k: int, i: int)
    requires
        0 <= i < k <= a.len(),
        k <= b.len(),
        a.take(k) == b.take(k),
    ensures
        a[i] == b[i],
{
    assert(a.take(k)[i] == a[i]);
    assert(b.take(k)[i] == b[i]);
}

/// Where `a` parts from `b` towards the smaller side, `b` does not part from
/// `a` towards the smaller side anywhere.
proof fn lemma_parts_one_way(a: Seq<u8>, b: Seq<u8>, k: int, m: int)
    requires
        parts_at(a, b, k),
    ensures
        !parts_at(b, a, m),
{
    if parts_at(b, a, m) {
        if k < m {
            lemma_take_agrees(b, a, m, k);
        } else if m < k {
            lemma_take_agrees(a, b, k, m);
        }
    }
}

/// No byte string comes before itself, and of two at most one comes before
/// the other.
pub proof fn lemma_before_is_asymmetric(a: Seq<u8>, b: Seq<u8>)
    ensures
        !(bytes_before(a, b) && bytes_before(b, a)),
        !bytes_before(a, a),
{
    if bytes_before(a, b) && bytes_before(b, a) {
        let k = choose|k: int| parts_at(a, b, k);
        let m = choose|m: int| parts_at(b, a, m);
        lemma_parts_one_way(a, b, k, m);
    }
    if bytes_before(a, a) {
        let k = choose|k: int| parts_at(a, a, k);
        assert(k == a.len() || a[k] < a[k]);
    }
}

/// What comes before something that comes before a third comes before the
/// third.
pub proof fn lemma_before_is_transitive(a: Seq<u8>, b: Seq<u8>, c: Seq<u8>)
    requires
        bytes_before(a, b),
        bytes_before(b, c),
    ensures
        bytes_before(a, c),
{
    let k = choose|k: int| parts_at(a, b, k);
    let m = choose|m: int| parts_at(b, c, m);
    if k <= m {
        assert(a.take(k) =~= c.take(k)) by {
            assert forall|i: int| 0 <= i < k implies a[i] == c[i] by {
                lemma_take_agrees(a, b, k, i);
                lemma_take_agrees(b, c, m, i);
            }
        }
        if k < m {
            lemma_take_agrees(b, c, m, k);
        }
        assert(parts_at(a, c, k));
    } else {
        assert(a.take(m) =~= c.take(m)) by {
            assert forall|i: int| 0 <= i < m implies a[i] == c[i] by {
                lemma_take_agrees(a, b, k, i);
                lemma_take_agrees(b, c, m, i);
            }
        }
        lemma_take_agrees(a, b, k, m);
        assert(parts_at(a, c, m));
    }
}

/// Of two different byte strings one comes before the other.
pub proof fn lemma_before_is_total(a: Seq<u8>, b: Seq<u8>)
    ensures
        a == b || bytes_before(a, b) || bytes_before(b, a),
{
    assert(a.take(0) =~= b.take(0));
    lemma_total_from(a, b, 0);
}

/// Two byte strings that agree on their first `k` bytes are equal, or one
/// comes before the other.
proof fn lemma_total_from(a: Seq<u8>, b: Seq<u8>, k: int)
    requires
        0 <= k <= a.len(),
        k <= b.len(),
        a.take(k) == b.take(k),
    ensures
        a == b || bytes_before(a, b) || bytes_before(b, a),
    decreases a.len() - k,
{
    if k == a.len() {
        if k == b.len() {
            assert(a.take(k) =~= a);
            assert(b.take(k) =~= b);
        } else {
            assert(parts_at(a, b, k));
        }
    } else if k == b.len() {
        assert(parts_at(b, a, k));
    } else if a[k] < b[k] {
        assert(parts_at(a, b, k));
    } else if b[k] < a[k] {
        assert(parts_at(b, a, k));
    } else {
        assert(a.take(k + 1) =~= a.take(k).push(a[k]));
        assert(b.take(k + 1) =~= b.take(k).push(b[k]));
        lemma_total_from(a, b, k + 1);
    }
}

/// Of two different names one comes before the other, and never both: the
/// order of names is a strict total order.
pub proof fn lemma_names_are_totally_ordered(a: Seq<char>, b: Seq<char>, c: Seq<char>)
    ensures
        !name_before(a, a),
        !(name_before(a, b) && name_before(b, a)),
        name_before(a, b) && name_before(b, c) ==> name_before(a, c),
        a == b || name_before(a, b) || name_before(b, a),
{
    let x = encode_utf8(a);
    let y = encode_utf8(b);
    let z = encode_utf8(c);
    lemma_before_is_asymmetric(x, y);
    lemma_before_is_asymmetric(x, x);
    if name_before(a, b) && name_before(b, c) {
        lemma_before_is_transitive(x, y, z);
    }
    lemma_before_is_total(x, y);
    if x == y {
        encode_utf8_decode_utf8(a);
        encode_utf8_decode_utf8(b);
    }
}

/// Whether the name `a` comes before the name `b`.
pub fn name_less(a: &str, b: &str) -> (before: bool)
    ensures
        before == name_before(a@, b@),
{
    let x = a.as_bytes();
    let y = b.as_bytes();
    let mut i: usize = 0;
    assert(x@.take(0) =~= y@.take(0));
    while i < x.len() && i < y.len()
        invariant
            i <= x.len(),
            i <= y.len(),
            x@ == encode_utf8(a@),
            y@ == encode_utf8(b@),
            x@.take(i as int) == y@.take(i as int),
        decreases x.len() - i,
    {
        if x[i] != y[i] {
            proof {
                if x[i as int] < y[i as int] {
                    assert(parts_at(x@, y@, i as int));
                } else {
                    assert(parts_at(y@, x@, i as int));
                    lemma_before_is_asymmetric(x@, y@);
                }
            }
            return x[i] < y[i];
        }
        assert(x@.take(i + 1) =~= x@.take(i as int).push(x@[i as int]));
        assert(y@.take(i + 1) =~= y@.take(i as int).push(y@[i as int]));
        i += 1;
    }
    proof {
        if i < y.len() {
            assert(parts_at(x@, y@, i as int));
        } else if i < x.len() {
            assert(parts_at(y@, x@, i as int));
            lemma_before_is_asymmetric(x@, y@);
        } else {
            assert(x@.take(i as int) =~= x@);
            assert(y@.take(i as int) =~= y@);
            lemma_before_is_asymmetric(x@, x@);
        }
    }
    i < y.len()
}

} // verus!
