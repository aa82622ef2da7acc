//! Generic functions and types: larger of two values, overflow-checked
//! addition through a bound on the type's largest value, account and pair
//! wrappers, sums and maxima of lists.

use vstd::prelude::*;
use vstd::std_specs::cmp::{PartialOrdIs, PartialOrdSpec};
use vstd::std_specs::ops::{AddSpec, SubSpec};

verus! {

/// Whether `T`'s comparisons follow its specified ordering (true of the
/// integer types).
pub open spec fn follows_ordering<T: PartialOrd>() -> bool {
    T::obeys_partial_cmp_spec()
}

/// The larger of `a` and `b`: `a` when it is greater, else `b`.
pub fn max_val<T: PartialOrd>(a: T, b: T) -> (r: T)
    ensures
        follows_ordering::<T>() ==> r == (if a.is_gt(&b) { a } else { b }),
{
    if a > b { a } else { b }
}

/// A type with a largest value.
pub trait Bounded: Sized {
    /// The type's largest value.
    spec fn spec_max_val() -> Self;

    /// The type's largest value.
    fn max_val() -> (r: Self)
        ensures
            r == Self::spec_max_val(),
    ;
}

impl Bounded for u64 {
    open spec fn spec_max_val() -> u64 {
        u64::MAX
    }

    fn max_val() -> (r: u64) {
        u64::MAX
    }
}

impl Bounded for u32 {
    open spec fn spec_max_val() -> u32 {
        u32::MAX
    }

    fn max_val() -> (r: u32) {
        u32::MAX
    }
}

/// `a + b`, or `None` when `a` exceeds the room left above `b` before the
/// type's largest value.
pub fn checked_add<T>(a: T, b: T) -> (r: Option<T>)
    where
        T: std::ops::Add<Output = T> + std::ops::Sub<Output = T> + PartialOrd + Copy + Bounded,
    requires
        follows_ordering::<T>(),
        T::obeys_sub_spec(),
        T::obeys_add_spec(),
        T::spec_max_val().sub_req(b),
        !a.is_gt(&T::spec_max_val().sub_spec(b)) ==> a.add_req(b),
    ensures
        r == (if a.is_gt(&T::spec_max_val().sub_spec(b)) {
            None
        } else {
            Some(a.add_spec(b))
        }),
{
    if a > T::max_val() - b {
        None
    } else {
        Some(a + b)
    }
}

/// For `u64`, checked addition gives `None` exactly when the sum does not
/// fit, and the sum otherwise.
pub proof fn law_checked_add_u64(a: u64, b: u64)
    ensures
        a.is_gt(&((u64::MAX - b) as u64)) <==> a + b > u64::MAX,
        u64::spec_max_val().sub_req(b),
        !a.is_gt(&((u64::MAX - b) as u64)) ==> a.add_req(b) && a.add_spec(b) == a + b,
        follows_ordering::<u64>() && <u64 as SubSpec<u64>>::obeys_sub_spec() && <u64 as AddSpec<u64>>::obeys_add_spec(),
        u64::spec_max_val().sub_spec(b) == (u64::MAX - b) as u64,
{
}

/// An account holding data of any type.
pub struct Account<T> {
    pub data: T,
    pub is_writable: bool,
}

impl<T: std::fmt::Debug> Account<T> {
    /// A writable account holding `data`.
    pub fn new(data: T) -> (a: Self)
        ensures
            a.data == data,
            a.is_writable,
    {
        Account { data, is_writable: true }
    }
}

/// Two values of possibly different types.
pub struct Pair<A, B> {
    pub first: A,
    pub second: B,
}

impl<A, B> Pair<A, B> {
    /// The pair of `first` and `second`.
    pub fn new(first: A, second: B) -> (p: Self)
        ensures
            p.first == first,
            p.second == second,
    {
        Pair { first, second }
    }
}

/// The sum of a list of amounts.
pub open spec fn sum_of(s: Seq<u64>) -> int
    decreases s.len(),
{
    if s.len() == 0 { 0 } else { sum_of(s.drop_last()) + s.last() }
}

/// The sum of all `items`.
pub fn sum_all(items: &[u64]) -> (r: u64)
    requires
        sum_of(items@) <= u64::MAX,
    ensures
        r == sum_of(items@),
{
    let mut total: u64 = 0;
    let mut i: usize = 0;
    while i < items.len()
        invariant
            0 <= i <= items@.len(),
            total == sum_of(items@.take(i as int)),
            sum_of(items@) <= u64::MAX,
        decreases items@.len() - i,
    {
        proof {
            assert(items@.take(i + 1).drop_last() =~= items@.take(i as int));
            lemma_sum_prefix_bounded(items@, i + 1);
        }
        total = total + items[i];
        i = i + 1;
    }
    proof {
        assert(items@.take(items@.len() as int) =~= items@);
    }
    total
}

/// The sum of one amount is that amount, and the sum of two lists one after
/// the other is the sum of the first plus the sum of the second.
pub proof fn law_sum_of_concat(s: Seq<u64>, t: Seq<u64>, x: u64)
    ensures
        sum_of(seq![x]) == x,
        sum_of(Seq::<u64>::empty()) == 0,
        sum_of(s + t) == sum_of(s) + sum_of(t),
    decreases t.len(),
{
    assert(seq![x].drop_last() =~= Seq::<u64>::empty());
    assert(sum_of(Seq::<u64>::empty()) == 0);
    assert(sum_of(seq![x]) == sum_of(seq![x].drop_last()) + x);
    if t.len() == 0 {
        assert(s + t =~= s);
    } else {
        law_sum_of_concat(s, t.drop_last(), x);
        assert((s + t).drop_last() =~= s + t.drop_last());
    }
}

/// A prefix of a list of amounts sums to no more than the whole list.
pub proof fn lemma_sum_prefix_bounded(s: Seq<u64>, n: int)
    requires
        0 <= n <= s.len(),
    ensures
        sum_of(s.take(n)) <= sum_of(s),
    decreases s.len() - n,
{
    if n < s.len() {
        lemma_sum_prefix_bounded(s, n + 1);
        assert(s.take(n + 1).drop_last() =~= s.take(n));
    } else {
        assert(s.take(n) =~= s);
    }
}

/// The result of folding a non-empty list from the left, keeping the later
/// element whenever it is greater than the one kept so far.
pub open spec fn max_of<T: PartialOrd>(s: Seq<T>) -> T
    recommends
        s.len() > 0,
    decreases s.len(),
{
    if s.len() <= 1 {
        s[0]
    } else {
        let m = max_of(s.drop_last());
        if s.last().is_gt(&m) { s.last() } else { m }
    }
}

/// The greatest of `items`, the first of equals, or `None` for no items.
pub fn find_max<T: PartialOrd>(items: &[T]) -> (r: Option<&T>)
    ensures
        r is None <==> items@.len() == 0,
        follows_ordering::<T>() && r is Some ==> *r.unwrap() == max_of(items@),
        r is Some ==> exists|j: int| 0 <= j < items@.len() && #[trigger] items@[j] == *r.unwrap(),
{
    if items.len() == 0 {
        return None;
    }
    let mut best: usize = 0;
    let mut i: usize = 1;
    while i < items.len()
        invariant
            1 <= i <= items@.len(),
            best < i,
            follows_ordering::<T>() ==> items@[best as int] == max_of(items@.take(i as int)),
        decreases items@.len() - i,
    {
        proof {
            assert(items@.take(i + 1).drop_last() =~= items@.take(i as int));
            assert(items@.take(i + 1).last() == items@[i as int]);
        }
        if items[i] > items[best] {
            best = i;
        }
        i = i + 1;
    }
    proof {
        assert(items@.take(items@.len() as int) =~= items@);
    }
    let found = &items[best];
    assert(items@[best as int] == *found);
    Some(found)
}

/// For amounts, the maximum of a non-empty list is one of its elements and
/// no element is greater than it.
pub proof fn law_max_of_is_greatest(s: Seq<u64>)
    requires
        s.len() > 0,
    ensures
        forall|i: int| 0 <= i < s.len() ==> #[trigger] s[i] <= max_of(s),
        exists|j: int| 0 <= j < s.len() && #[trigger] s[j] == max_of(s),
    decreases s.len(),
{
    if s.len() == 1 {
        assert(s[0] == max_of(s));
    } else {
        let t = s.drop_last();
        law_max_of_is_greatest(t);
        let m = max_of(t);
        let j = choose|j: int| 0 <= j < t.len() && #[trigger] t[j] == m;
        assert(s[j] == t[j]);
        assert forall|i: int| 0 <= i < s.len() implies #[trigger] s[i] <= max_of(s) by {
            if i < t.len() {
                assert(s[i] == t[i]);
            }
        }
        if s.last() > m {
            assert(s[s.len() - 1] == max_of(s));
        } else {
            assert(s[j] == max_of(s));
        }
    }
}

/// Gives back the value it is handed.
pub fn wrap_value<T: std::fmt::Debug>(v: T) -> (r: T)
    ensures
        r == v,
{
    v
}

} // verus!
