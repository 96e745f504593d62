//! Bubble sort over any type with a partial order, in a copying and an
//! in-place form.

use core::cmp::Ordering;
use vstd::prelude::*;
use vstd::slice::slice_to_vec;
use vstd::std_specs::cmp::PartialOrdSpec;

verus! {

/// The comparison of `T` behaves as its specification says.
pub open spec fn order_is_specified<T: PartialOrd>() -> bool {
    T::obeys_partial_cmp_spec()
}

/// `a` and `b` can be compared at all.
pub open spec fn comparable<T: PartialOrd>(a: T, b: T) -> bool {
    a.partial_cmp_spec(&b) is Some
}

/// `a` may stand before `b` in a sequence sorted in the given direction.
pub open spec fn before<T: PartialOrd>(a: T, b: T, asc: bool) -> bool {
    match a.partial_cmp_spec(&b) {
        Some(Ordering::Less) => asc,
        Some(Ordering::Equal) => true,
        Some(Ordering::Greater) => !asc,
        None => false,
    }
}

/// Every two elements of `s` can be compared.
pub open spec fn pairwise_comparable<T: PartialOrd>(s: Seq<T>) -> bool {
    forall|i: int, j: int|
        0 <= i < s.len() && 0 <= j < s.len() ==> comparable(#[trigger] s[i], #[trigger] s[j])
}

/// On the elements of `s`, `before` relates every pair one way or the other
/// and is transitive.
pub open spec fn linear_on<T: PartialOrd>(s: Seq<T>, asc: bool) -> bool {
    &&& forall|i: int, j: int|
        0 <= i < s.len() && 0 <= j < s.len() ==> before(#[trigger] s[i], #[trigger] s[j], asc)
            || before(s[j], s[i], asc)
    &&& forall|i: int, j: int, k: int|
        0 <= i < s.len() && 0 <= j < s.len() && 0 <= k < s.len() && before(
            #[trigger] s[i],
            #[trigger] s[j],
            asc,
        ) && before(s[j], #[trigger] s[k], asc) ==> before(s[i], s[k], asc)
}

/// Each element may stand before all that follow it.
pub open spec fn sorted<T: PartialOrd>(s: Seq<T>, asc: bool) -> bool {
    forall|i: int, j: int| 0 <= i < j < s.len() ==> before(#[trigger] s[i], #[trigger] s[j], asc)
}

/// Every element of `s` occurs in `of`.
pub open spec fn drawn_from<T>(s: Seq<T>, of: Seq<T>) -> bool {
    forall|i: int| 0 <= i < s.len() ==> of.contains(#[trigger] s[i])
}

/// What one inner pass has reached: position `j` holds an element that all
/// earlier ones may stand before.
pub open spec fn bubbled_to<T: PartialOrd>(s: Seq<T>, j: int, asc: bool) -> bool {
    forall|k: int| 0 <= k < j ==> before(#[trigger] s[k], s[j], asc)
}

/// What the outer passes have settled: from `from` on the sequence is sorted,
/// and everything earlier may stand before everything from `from` on.
pub open spec fn tail_settled<T: PartialOrd>(s: Seq<T>, from: int, asc: bool) -> bool {
    forall|a: int, b: int|
        0 <= a < b < s.len() && from <= b ==> before(#[trigger] s[a], #[trigger] s[b], asc)
}

/// Tells whether `a` has to move behind `b`.
fn misplaced<T: PartialOrd>(a: &T, b: &T, asc: bool) -> (r: bool)
    requires
        order_is_specified::<T>(),
        comparable(*a, *b),
    ensures
        r == !before(*a, *b, asc),
{
    match a.partial_cmp(b) {
        Some(Ordering::Less) => !asc,
        Some(Ordering::Equal) => false,
        Some(Ordering::Greater) => asc,
        None => true,
    }
}

/// `a` is known to be greater than `b`.
pub open spec fn greater<T: PartialOrd>(a: T, b: T) -> bool {
    a.partial_cmp_spec(&b) == Some(Ordering::Greater)
}

/// Tells whether `a` is greater than `b`.
fn exceeds<T: PartialOrd>(a: &T, b: &T) -> (r: bool)
    requires
        order_is_specified::<T>(),
    ensures
        r == greater(*a, *b),
{
    a > b
}

/// `<[T]>::swap` of std exchanges the elements at the two positions and
/// leaves the others as they are. It panics when a position is out of
/// bounds, which the precondition excludes.
pub assume_specification<Elem>[ <[Elem]>::swap ](slice: &mut [Elem], a: usize, b: usize)
    requires
        a < old(slice)@.len(),
        b < old(slice)@.len(),
    ensures
        final(slice)@ == old(slice)@.update(a as int, old(slice)@[b as int]).update(
            b as int,
            old(slice)@[a as int],
        ),
;

/// Swapping two positions keeps what the sequence holds.
proof fn lemma_swap_keeps_elements<T>(s: Seq<T>, a: int, b: int)
    requires
        0 <= a < s.len(),
        0 <= b < s.len(),
    ensures
        s.update(a, s[b]).update(b, s[a]).to_multiset() =~= s.to_multiset(),
        drawn_from(s.update(a, s[b]).update(b, s[a]), s),
{
    broadcast use vstd::multiset::group_multiset_axioms;

    let mid = s.update(a, s[b]);
    vstd::seq_lib::to_multiset_update(s, a, s[b]);
    vstd::seq_lib::to_multiset_update(mid, b, s[a]);
    vstd::seq_lib::to_multiset_contains(s, s[a]);
    vstd::seq_lib::to_multiset_contains(s, s[b]);
    assert(s.contains(s[a]));
    assert(s.contains(s[b]));
    let t = mid.update(b, s[a]);
    assert forall|i: int| 0 <= i < t.len() implies s.contains(#[trigger] t[i]) by {
        if i == b {
            assert(t[i] == s[a]);
        } else if i == a {
            assert(t[i] == s[b]);
        } else {
            assert(t[i] == s[i]);
        }
    }
}

/// Elements drawn from a sequence on which the order is linear obey it too.
proof fn lemma_drawn_linear<T: PartialOrd>(s: Seq<T>, of: Seq<T>, asc: bool)
    requires
        drawn_from(s, of),
        pairwise_comparable(of),
        linear_on(of, asc),
    ensures
        pairwise_comparable(s),
        linear_on(s, asc),
{
    assert forall|i: int, j: int| 0 <= i < s.len() && 0 <= j < s.len() implies comparable(
        #[trigger] s[i],
        #[trigger] s[j],
    ) && (before(s[i], s[j], asc) || before(s[j], s[i], asc)) by {
        let a = choose|a: int| 0 <= a < of.len() && of[a] == s[i];
        let b = choose|b: int| 0 <= b < of.len() && of[b] == s[j];
        assert(comparable(of[a], of[b]));
        assert(before(of[a], of[b], asc) || before(of[b], of[a], asc));
    }
    assert forall|i: int, j: int, k: int|
        0 <= i < s.len() && 0 <= j < s.len() && 0 <= k < s.len() && before(
            #[trigger] s[i],
            #[trigger] s[j],
            asc,
        ) && before(s[j], #[trigger] s[k], asc) implies before(s[i], s[k], asc) by {
        let a = choose|a: int| 0 <= a < of.len() && of[a] == s[i];
        let b = choose|b: int| 0 <= b < of.len() && of[b] == s[j];
        let c = choose|c: int| 0 <= c < of.len() && of[c] == s[k];
        assert(before(of[a], of[b], asc) && before(of[b], of[c], asc));
    }
}

/// One comparison of an inner pass, with or without the swap, moves the
/// pass one position on and keeps what the outer passes have settled.
proof fn lemma_step<T: PartialOrd>(old_s: Seq<T>, new_s: Seq<T>, j: int, limit: int, asc: bool)
    requires
        0 <= j < limit < old_s.len(),
        pairwise_comparable(old_s),
        linear_on(old_s, asc),
        bubbled_to(old_s, j, asc),
        tail_settled(old_s, limit + 1, asc),
        new_s == old_s || (!before(old_s[j], old_s[j + 1], asc) && new_s == old_s.update(
            j,
            old_s[j + 1],
        ).update(j + 1, old_s[j])),
        new_s == old_s ==> before(old_s[j], old_s[j + 1], asc),
    ensures
        bubbled_to(new_s, j + 1, asc),
        tail_settled(new_s, limit + 1, asc),
{
    if new_s == old_s {
        assert forall|k: int| 0 <= k < j + 1 implies before(#[trigger] new_s[k], new_s[j + 1], asc) by {
            if k < j {
                assert(before(old_s[k], old_s[j], asc));
                assert(before(old_s[j], old_s[j + 1], asc));
            }
        }
    } else {
        assert(before(old_s[j + 1], old_s[j], asc) || before(old_s[j], old_s[j + 1], asc));
        assert forall|k: int| 0 <= k < j + 1 implies before(#[trigger] new_s[k], new_s[j + 1], asc) by {
            if k < j {
                assert(new_s[k] == old_s[k]);
                assert(before(old_s[k], old_s[j], asc));
            }
        }
        assert forall|a: int, b: int|
            0 <= a < b < new_s.len() && limit + 1 <= b implies before(
            #[trigger] new_s[a],
            #[trigger] new_s[b],
            asc,
        ) by {
            assert(new_s[b] == old_s[b]);
            if a == j {
                assert(before(old_s[j + 1], old_s[b], asc));
            } else if a == j + 1 {
                assert(before(old_s[j], old_s[b], asc));
            } else {
                assert(new_s[a] == old_s[a]);
                assert(before(old_s[a], old_s[b], asc));
            }
        }
    }
}

/// A finished inner pass settles one more position.
proof fn lemma_pass_done<T: PartialOrd>(s: Seq<T>, limit: int, asc: bool)
    requires
        0 <= limit < s.len(),
        bubbled_to(s, limit, asc),
        tail_settled(s, limit + 1, asc),
    ensures
        tail_settled(s, limit, asc),
{
    assert forall|a: int, b: int| 0 <= a < b < s.len() && limit <= b implies before(
        #[trigger] s[a],
        #[trigger] s[b],
        asc,
    ) by {
        if b == limit {
            assert(before(s[a], s[limit], asc));
        }
    }
}

/// Returns the elements of `vec` sorted, ascending or descending.
///
/// The input has to hold at least one element, and its elements have to be
/// comparable with each other.
pub fn bubble_sort<T>(vec: &Vec<T>, asc: bool) -> (r: Vec<T>) where T: PartialOrd + Copy
    requires
        vec.len() > 0,
        order_is_specified::<T>(),
        pairwise_comparable(vec@),
    ensures
        r@.to_multiset() == vec@.to_multiset(),
        linear_on(vec@, asc) ==> sorted(r@, asc),
{
    let mut v = slice_to_vec(vec.as_slice());
    let n = v.len();
    proof {
        assert(drawn_from(v@, vec@)) by {
            assert forall|i: int| 0 <= i < v@.len() implies vec@.contains(#[trigger] v@[i]) by {
                assert(vec@[i] == v@[i]);
            }
        }
    }
    let mut i: usize = 0;
    while i < n - 1
        invariant
            n == v.len(),
            n > 0,
            0 <= i <= n - 1,
            order_is_specified::<T>(),
            pairwise_comparable(vec@),
            drawn_from(v@, vec@),
            v@.to_multiset() == vec@.to_multiset(),
            linear_on(vec@, asc) ==> tail_settled(v@, n - i, asc),
        decreases n - 1 - i,
    {
        let limit = n - 1 - i;
        let mut j: usize = 0;
        while j < limit
            invariant
                n == v.len(),
                limit == n - 1 - i,
                0 <= j <= limit < n,
                order_is_specified::<T>(),
                pairwise_comparable(vec@),
                drawn_from(v@, vec@),
                v@.to_multiset() == vec@.to_multiset(),
                linear_on(vec@, asc) ==> tail_settled(v@, limit + 1, asc),
                linear_on(vec@, asc) ==> bubbled_to(v@, j as int, asc),
            decreases limit - j,
        {
            let ghost before_step = v@;
            proof {
                lemma_drawn_linear_comparable(v@, vec@);
            }
            if misplaced(&v[j], &v[j + 1], asc) {
                let t = v[j + 1];
                let u = v[j];
                v[j + 1] = u;
                v[j] = t;
                proof {
                    assert(v@ =~= before_step.update(j as int, before_step[j + 1]).update(
                        j + 1,
                        before_step[j as int],
                    ));
                    lemma_swap_keeps_elements(before_step, j as int, j + 1);
                    assert forall|k: int| 0 <= k < v@.len() implies vec@.contains(
                        #[trigger] v@[k],
                    ) by {
                        assert(before_step.contains(v@[k]));
                        let w = choose|w: int| 0 <= w < before_step.len() && before_step[w] == v@[k];
                        assert(vec@.contains(before_step[w]));
                    }
                }
            }
            proof {
                if linear_on(vec@, asc) {
                    lemma_drawn_linear(before_step, vec@, asc);
                    lemma_step(before_step, v@, j as int, limit as int, asc);
                }
            }
            j = j + 1;
        }
        proof {
            if linear_on(vec@, asc) {
                lemma_pass_done(v@, limit as int, asc);
            }
        }
        i = i + 1;
    }
    proof {
        if linear_on(vec@, asc) {
            assert(tail_settled(v@, 1, asc));
            assert forall|a: int, b: int| 0 <= a < b < v@.len() implies before(
                #[trigger] v@[a],
                #[trigger] v@[b],
                asc,
            ) by {}
        }
    }
    v
}

/// Elements drawn from a pairwise comparable sequence are pairwise comparable.
proof fn lemma_drawn_linear_comparable<T: PartialOrd>(s: Seq<T>, of: Seq<T>)
    requires
        drawn_from(s, of),
        pairwise_comparable(of),
    ensures
        pairwise_comparable(s),
{
    assert forall|i: int, j: int| 0 <= i < s.len() && 0 <= j < s.len() implies comparable(
        #[trigger] s[i],
        #[trigger] s[j],
    ) by {
        let a = choose|a: int| 0 <= a < of.len() && of[a] == s[i];
        let b = choose|b: int| 0 <= b < of.len() && of[b] == s[j];
        assert(comparable(of[a], of[b]));
    }
}

/// Sorts the slice in place, ascending.
///
/// Elements that cannot be compared stay where a comparison finds them, so
/// the result is sorted only where the order on the elements is linear.
/// The slice has to hold at least one element.
pub fn bubble_sort2<T>(slice: &mut [T]) where T: PartialOrd
    requires
        old(slice)@.len() > 0,
        order_is_specified::<T>(),
    ensures
        final(slice)@.to_multiset() == old(slice)@.to_multiset(),
        pairwise_comparable(old(slice)@) && linear_on(old(slice)@, true) ==> sorted(
            final(slice)@,
            true,
        ),
{
    let n = slice.len();
    let ghost input = slice@;
    let ghost good = pairwise_comparable(input) && linear_on(input, true);
    proof {
        assert forall|i: int| 0 <= i < input.len() implies input.contains(#[trigger] input[i]) by {}
    }
    let mut i: usize = 0;
    while i < n - 1
        invariant
            n == slice@.len(),
            n > 0,
            0 <= i <= n - 1,
            order_is_specified::<T>(),
            good == (pairwise_comparable(input) && linear_on(input, true)),
            drawn_from(slice@, input),
            slice@.to_multiset() == input.to_multiset(),
            good ==> tail_settled(slice@, n - i, true),
        decreases n - 1 - i,
    {
        let limit = n - 1 - i;
        let mut j: usize = 0;
        while j < limit
            invariant
                n == slice@.len(),
                limit == n - 1 - i,
                0 <= j <= limit < n,
                order_is_specified::<T>(),
                good == (pairwise_comparable(input) && linear_on(input, true)),
                drawn_from(slice@, input),
                slice@.to_multiset() == input.to_multiset(),
                good ==> tail_settled(slice@, limit + 1, true),
                good ==> bubbled_to(slice@, j as int, true),
            decreases limit - j,
        {
            let ghost before_step = slice@;
            if exceeds(&slice[j], &slice[j + 1]) {
                slice.swap(j, j + 1);
                proof {
                    lemma_swap_keeps_elements(before_step, j as int, j + 1);
                    assert forall|k: int| 0 <= k < slice@.len() implies input.contains(
                        #[trigger] slice@[k],
                    ) by {
                        assert(before_step.contains(slice@[k]));
                        let w = choose|w: int|
                            0 <= w < before_step.len() && before_step[w] == slice@[k];
                        assert(input.contains(before_step[w]));
                    }
                }
            }
            proof {
                if good {
                    lemma_drawn_linear(before_step, input, true);
                    assert(comparable(before_step[j as int], before_step[j + 1]));
                    lemma_step(before_step, slice@, j as int, limit as int, true);
                }
            }
            j = j + 1;
        }
        proof {
            if good {
                lemma_pass_done(slice@, limit as int, true);
            }
        }
        i = i + 1;
    }
    proof {
        if good {
            assert(tail_settled(slice@, 1, true));
            assert forall|a: int, b: int| 0 <= a < b < slice@.len() implies before(
                #[trigger] slice@[a],
                #[trigger] slice@[b],
                true,
            ) by {}
        }
    }
}

} // verus!
