use crate::float_bits::F64Bits;
use std::cmp::Ordering;
use vstd::prelude::*;

verus! {

broadcast use vstd::seq_lib::group_to_multiset_ensures;

/// A record that carries the floating-point value it is sorted by.
pub trait SortKey: Sized {
    spec fn spec_sort_key(&self) -> F64Bits;

    fn sort_key(&self) -> (r: F64Bits)
        ensures
            r == self.spec_sort_key(),
    ;
}

/// Whether `b` must move in front of `a`: in ascending order when `a` is
/// greater, in descending order when `b` is greater. Pairs involving a NaN
/// compare equal and are never out of order.
pub open spec fn out_of_order(a: F64Bits, b: F64Bits, descending: bool) -> bool {
    if descending {
        b.spec_gt(a)
    } else {
        a.spec_gt(b)
    }
}

/// No two neighbours of `s` are out of order.
pub open spec fn neighbours_in_order<T: SortKey>(s: Seq<T>, descending: bool) -> bool {
    forall|i: int|
        0 <= i < s.len() - 1 ==> !out_of_order(
            #[trigger] s[i].spec_sort_key(),
            s[i + 1].spec_sort_key(),
            descending,
        )
}

fn is_out_of_order(a: F64Bits, b: F64Bits, descending: bool) -> (r: bool)
    ensures
        r == out_of_order(a, b, descending),
{
    let o = if descending {
        b.compare_or_equal(&a)
    } else {
        a.compare_or_equal(&b)
    };
    match o {
        Ordering::Greater => true,
        _ => false,
    }
}

proof fn lemma_out_of_order_asymmetric(a: F64Bits, b: F64Bits, descending: bool)
    requires
        out_of_order(a, b, descending),
    ensures
        !out_of_order(b, a, descending),
{
}

/// Inserting `x` at `j` into a sequence whose neighbours are in order keeps
/// them in order, when the element before `j` may precede `x` and `x` may
/// precede the element at `j`.
proof fn lemma_insert_in_order<T: SortKey>(s: Seq<T>, j: int, x: T, descending: bool)
    requires
        0 <= j <= s.len(),
        neighbours_in_order(s, descending),
        j > 0 ==> !out_of_order(s[j - 1].spec_sort_key(), x.spec_sort_key(), descending),
        j < s.len() ==> out_of_order(s[j].spec_sort_key(), x.spec_sort_key(), descending),
    ensures
        neighbours_in_order(s.insert(j, x), descending),
{
    let t = s.insert(j, x);
    assert forall|p: int| 0 <= p < t.len() - 1 implies !out_of_order(
        #[trigger] t[p].spec_sort_key(),
        t[p + 1].spec_sort_key(),
        descending,
    ) by {
        if p < j - 1 {
            assert(t[p] == s[p] && t[p + 1] == s[p + 1]);
        } else if p == j - 1 {
            assert(t[p] == s[j - 1] && t[p + 1] == x);
        } else if p == j {
            assert(t[p] == x && t[p + 1] == s[j]);
            lemma_out_of_order_asymmetric(s[j].spec_sort_key(), x.spec_sort_key(), descending);
        } else {
            assert(t[p] == s[p - 1] && t[p + 1] == s[p]);
        }
    }
}

/// Stable insertion sort by the sort key, ascending or descending.
///
/// Unordered pairs (a NaN on either side) count as equal, so the sort always
/// finishes; a sequence whose neighbours are already in order is left as it is.
pub fn insertion_sort<T: SortKey>(v: &mut Vec<T>, descending: bool)
    ensures
        final(v)@.to_multiset() == old(v)@.to_multiset(),
        final(v)@.len() == old(v)@.len(),
        neighbours_in_order(final(v)@, descending),
        neighbours_in_order(old(v)@, descending) ==> final(v)@ == old(v)@,
{
    let n = v.len();
    if n == 0 {
        return;
    }
    let mut i: usize = 1;
    while i < n
        invariant
            v@.len() == n,
            n == old(v)@.len(),
            1 <= i <= n,
            v@.to_multiset() == old(v)@.to_multiset(),
            neighbours_in_order(v@.subrange(0, i as int), descending),
            neighbours_in_order(old(v)@, descending) ==> v@ == old(v)@,
        decreases n - i,
    {
        let ghost before = v@;
        let key = v[i].sort_key();
        let mut j: usize = i;
        while j > 0 && is_out_of_order(v[j - 1].sort_key(), key, descending)
            invariant
                v@ == before,
                before.len() == n,
                0 <= j <= i < n,
                key == before[i as int].spec_sort_key(),
                j < i ==> out_of_order(before[j as int].spec_sort_key(), key, descending),
                j < i ==> out_of_order(before[i - 1].spec_sort_key(), key, descending),
            decreases j,
        {
            j = j - 1;
        }
        let ghost s = before.subrange(0, i as int);
        let ghost x = before[i as int];
        proof {
            lemma_insert_in_order(s, j as int, x, descending);
        }
        if j < i {
            let x = v.remove(i);
            v.insert(j, x);
            assert(v@.subrange(0, i + 1) =~= s.insert(j as int, x));
            assert(v@ =~= before.remove(i as int).insert(j as int, x));
            assert(!neighbours_in_order(before, descending)) by {
                assert(out_of_order(before[i - 1].spec_sort_key(), key, descending));
            }
        } else {
            assert(v@.subrange(0, i + 1) =~= s.insert(j as int, x));
            assert(neighbours_in_order(old(v)@, descending) ==> !out_of_order(
                before[i - 1].spec_sort_key(),
                key,
                descending,
            ));
        }
        i = i + 1;
    }
    assert(v@.subrange(0, n as int) =~= v@);
}

} // verus!
