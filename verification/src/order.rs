//! The order of texts.

use core::cmp::Ordering;
use vstd::prelude::*;

verus! {

/// The order of two texts: the first place where they differ decides, by the
/// code points of the characters there; a text that ends first comes first.
pub open spec fn text_order(a: Seq<char>, b: Seq<char>) -> Ordering
    decreases a.len(),
{
    if a.len() == 0 {
        if b.len() == 0 {
            Ordering::Equal
        } else {
            Ordering::Less
        }
    } else if b.len() == 0 {
        Ordering::Greater
    } else if a[0] < b[0] {
        Ordering::Less
    } else if a[0] > b[0] {
        Ordering::Greater
    } else {
        text_order(a.drop_first(), b.drop_first())
    }
}

/// `Ord::cmp` of the standard library on two string slices. Believed, not
/// proved: strings are ordered lexicographically by their bytes, which orders
/// them by the code points of their characters.
#[verifier::external_body]
pub(crate) fn compare_texts(a: &str, b: &str) -> (r: Ordering)
    ensures
        r == text_order(a@, b@),
{
    a.cmp(b)
}

/// Two texts compare equal exactly when they are the same text.
pub proof fn lemma_text_order_equal_iff_same(a: Seq<char>, b: Seq<char>)
    ensures
        text_order(a, b) == Ordering::Equal <==> a == b,
    decreases a.len(),
{
    if a.len() > 0 && b.len() > 0 && a[0] == b[0] {
        lemma_text_order_equal_iff_same(a.drop_first(), b.drop_first());
        if a.drop_first() == b.drop_first() {
            assert forall|i: int| 0 <= i < a.len() implies a[i] == b[i] by {
                if i > 0 {
                    assert(a[i] == a.drop_first()[i - 1]);
                    assert(b[i] == b.drop_first()[i - 1]);
                }
            }
            assert(a.len() == a.drop_first().len() + 1);
            assert(b.len() == b.drop_first().len() + 1);
            assert(a =~= b);
        }
    } else if a.len() == 0 && b.len() == 0 {
        assert(a =~= b);
    }
}

/// One text comes before another exactly when the other comes after it.
pub proof fn lemma_text_order_flips(a: Seq<char>, b: Seq<char>)
    ensures
        text_order(a, b) == Ordering::Less <==> text_order(b, a) == Ordering::Greater,
        text_order(a, b) == Ordering::Equal <==> text_order(b, a) == Ordering::Equal,
    decreases a.len(),
{
    if a.len() > 0 && b.len() > 0 && a[0] == b[0] {
        lemma_text_order_flips(a.drop_first(), b.drop_first());
    }
}

/// The order is transitive.
pub proof fn lemma_text_order_is_transitive(a: Seq<char>, b: Seq<char>, c: Seq<char>)
    requires
        text_order(a, b) == Ordering::Less,
        text_order(b, c) == Ordering::Less,
    ensures
        text_order(a, c) == Ordering::Less,
    decreases a.len(),
{
    if a.len() > 0 && b.len() > 0 && c.len() > 0 && a[0] == b[0] && b[0] == c[0] {
        lemma_text_order_is_transitive(a.drop_first(), b.drop_first(), c.drop_first());
    }
}

} // verus!
