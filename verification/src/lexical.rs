//! The order in which channel identifiers are listed: byte by byte over
//! their UTF-8 encoding, a proper prefix before its extensions.

use vstd::prelude::*;
use vstd::utf8::*;

verus! {

/// `a` and `b` agree before index `k`, and there `a` ends while `b` goes on,
/// or `a` holds the smaller byte.
pub open spec fn less_at(a: Seq<u8>, b: Seq<u8>, k: int) -> bool {
    &&& 0 <= k <= a.len()
    &&& k < b.len()
    &&& forall|i: int| 0 <= i < k ==> a[i] == b[i]
    &&& (k == a.len() || a[k] < b[k])
}

/// `a` comes strictly before `b` in lexical order.
pub open spec fn bytes_less(a: Seq<u8>, b: Seq<u8>) -> bool {
    exists|k: int| less_at(a, b, k)
}

/// The identifier `a` comes strictly before the identifier `b`.
pub open spec fn id_less(a: Seq<char>, b: Seq<char>) -> bool {
    bytes_less(encode_utf8(a), encode_utf8(b))
}

/// The order is transitive.
pub proof fn lemma_bytes_less_transitive(a: Seq<u8>, b: Seq<u8>, c: Seq<u8>)
    requires
        bytes_less(a, b),
        bytes_less(b, c),
    ensures
        bytes_less(a, c),
{
    let k1 = choose|k: int| less_at(a, b, k);
    let k2 = choose|k: int| less_at(b, c, k);
    if k1 <= k2 {
        assert(less_at(a, c, k1));
    } else {
        assert(less_at(a, c, k2));
    }
}

/// Of two different byte strings one comes before the other.
pub proof fn lemma_bytes_less_total(a: Seq<u8>, b: Seq<u8>)
    ensures
        a == b || bytes_less(a, b) || bytes_less(b, a),
    decreases a.len(),
{
    if a.len() == 0 {
        if b.len() == 0 {
            assert(a =~= b);
        } else {
            assert(less_at(a, b, 0));
        }
    } else if b.len() == 0 {
        assert(less_at(b, a, 0));
    } else if a[0] < b[0] {
        assert(less_at(a, b, 0));
    } else if b[0] < a[0] {
        assert(less_at(b, a, 0));
    } else {
        let x = a.drop_first();
        let y = b.drop_first();
        lemma_bytes_less_total(x, y);
        if x == y {
            assert forall|i: int| 0 <= i < a.len() implies a[i] == b[i] by {
                if i > 0 {
                    assert(a[i] == x[i - 1]);
                    assert(b[i] == y[i - 1]);
                }
            }
            assert(a.len() == x.len() + 1);
            assert(b.len() == y.len() + 1);
            assert(a =~= b);
        } else if bytes_less(x, y) {
            let k = choose|k: int| less_at(x, y, k);
            assert forall|i: int| 0 <= i < k + 1 implies a[i] == b[i] by {
                if i > 0 {
                    assert(a[i] == x[i - 1]);
                    assert(b[i] == y[i - 1]);
                }
            }
            if k < x.len() {
                assert(a[k + 1] == x[k]);
                assert(b[k + 1] == y[k]);
            }
            assert(less_at(a, b, k + 1));
        } else {
            let k = choose|k: int| less_at(y, x, k);
            assert forall|i: int| 0 <= i < k + 1 implies b[i] == a[i] by {
                if i > 0 {
                    assert(a[i] == x[i - 1]);
                    assert(b[i] == y[i - 1]);
                }
            }
            if k < y.len() {
                assert(a[k + 1] == x[k]);
                assert(b[k + 1] == y[k]);
            }
            assert(less_at(b, a, k + 1));
        }
    }
}

/// No identifier comes before itself.
pub proof fn lemma_id_less_irreflexive(a: Seq<char>)
    ensures
        !id_less(a, a),
{
}

/// The order on identifiers is transitive.
pub proof fn lemma_id_less_transitive(a: Seq<char>, b: Seq<char>, c: Seq<char>)
    requires
        id_less(a, b),
        id_less(b, c),
    ensures
        id_less(a, c),
{
    lemma_bytes_less_transitive(encode_utf8(a), encode_utf8(b), encode_utf8(c));
}

/// Of two different identifiers one comes before the other.
pub proof fn lemma_id_less_total(a: Seq<char>, b: Seq<char>)
    ensures
        a == b || id_less(a, b) || id_less(b, a),
{
    lemma_bytes_less_total(encode_utf8(a), encode_utf8(b));
    if encode_utf8(a) == encode_utf8(b) {
        encode_utf8_decode_utf8(a);
        encode_utf8_decode_utf8(b);
    }
}

/// Decides whether `a` comes strictly before `b`.
pub fn precedes(a: &str, b: &str) -> (out: bool)
    ensures
        out == id_less(a@, b@),
{
    let x = a.as_bytes();
    let y = b.as_bytes();
    let mut i: usize = 0;
    while i < x.len() && i < y.len()
        invariant
            i <= x@.len(),
            i <= y@.len(),
            x@ == encode_utf8(a@),
            y@ == encode_utf8(b@),
            forall|j: int| 0 <= j < i ==> x@[j] == y@[j],
        decreases x@.len() - i,
    {
        if x[i] != y[i] {
            let out = x[i] < y[i];
            proof {
                if out {
                    assert(less_at(x@, y@, i as int));
                } else {
                    assert forall|k: int| !less_at(x@, y@, k) by {
                        if less_at(x@, y@, k) {
                            if k > i {
                                assert(x@[i as int] == y@[i as int]);
                            }
                        }
                    }
                }
            }
            return out;
        }
        i += 1;
    }
    let out = i < y.len();
    proof {
        if out {
            assert(less_at(x@, y@, i as int));
        } else {
            assert forall|k: int| !less_at(x@, y@, k) by {}
        }
    }
    out
}

} // verus!
