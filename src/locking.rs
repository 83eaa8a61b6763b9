//! The order in which a transfer takes exclusive access to its two
//! accounts: every transfer takes them by the byte order of the identifiers,
//! so two transfers in opposite directions never wait on each other.
use vstd::prelude::*;
use vstd::string::StringSliceAdditionalSpecFns;

verus! {

/// `a` comes no later than `b` in lexicographic byte order.
pub open spec fn bytes_no_later(a: Seq<u8>, b: Seq<u8>) -> bool
    decreases a.len(),
{
    if a.len() == 0 {
        true
    } else if b.len() == 0 {
        false
    } else if a[0] != b[0] {
        a[0] < b[0]
    } else {
        bytes_no_later(a.drop_first(), b.drop_first())
    }
}

proof fn lemma_skip_step(a: Seq<u8>, b: Seq<u8>, i: int)
    requires
        0 <= i < a.len(),
        i < b.len(),
        a[i] == b[i],
    ensures
        bytes_no_later(a.skip(i), b.skip(i)) == bytes_no_later(a.skip(i + 1), b.skip(i + 1)),
{
    assert(a.skip(i).drop_first() =~= a.skip(i + 1));
    assert(b.skip(i).drop_first() =~= b.skip(i + 1));
}

/// Whether the account `a` is locked before the account `b`: true when the
/// bytes of `a` come no later than those of `b`.
pub fn locks_first(a: &str, b: &str) -> (r: bool)
    ensures
        r == bytes_no_later(a.spec_bytes(), b.spec_bytes()),
{
    let x = a.as_bytes();
    let y = b.as_bytes();
    let mut i: usize = 0;
    assert(x@.skip(0) =~= x@);
    assert(y@.skip(0) =~= y@);
    while i < x.len() && i < y.len()
        invariant
            x@ == a.spec_bytes(),
            y@ == b.spec_bytes(),
            i <= x@.len(),
            i <= y@.len(),
            bytes_no_later(x@, y@) == bytes_no_later(x@.skip(i as int), y@.skip(i as int)),
        decreases x@.len() - i,
    {
        if x[i] != y[i] {
            return x[i] < y[i];
        }
        proof {
            lemma_skip_step(x@, y@, i as int);
        }
        i = i + 1;
    }
    i == x.len()
}

/// Lock order is total and antisymmetric: of two identifiers, one is locked
/// first, and both ways only when their bytes are equal.
pub proof fn lemma_lock_order_total(a: Seq<u8>, b: Seq<u8>)
    ensures
        bytes_no_later(a, b) || bytes_no_later(b, a),
        bytes_no_later(a, b) && bytes_no_later(b, a) ==> a == b,
    decreases a.len(),
{
    if a.len() > 0 && b.len() > 0 && a[0] == b[0] {
        lemma_lock_order_total(a.drop_first(), b.drop_first());
        if bytes_no_later(a, b) && bytes_no_later(b, a) {
            assert(a.len() == b.len());
            assert forall|i: int| 0 <= i < a.len() implies a[i] == b[i] by {
                if i > 0 {
                    assert(a[i] == a.drop_first()[i - 1]);
                    assert(b[i] == b.drop_first()[i - 1]);
                }
            }
            assert(a =~= b);
        }
    } else if a.len() == 0 && b.len() == 0 {
        assert(a =~= b);
    }
}

} // verus!
