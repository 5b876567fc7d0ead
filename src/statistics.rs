use vstd::prelude::*;

use crate::ieee::{Double, NAN_BITS};

verus! {

pub open spec fn has_nan(s: Seq<Double>) -> bool {
    exists|i: int| 0 <= i < s.len() && (#[trigger] s[i]).nan()
}

/// `r` is the absolute value of the last NaN of `s`.
pub open spec fn is_last_nan_abs(s: Seq<Double>, r: Double) -> bool {
    exists|i: int|
        0 <= i < s.len() && (#[trigger] s[i]).nan() && r == s[i].abs_spec() && forall|j: int|
            i < j < s.len() ==> !(#[trigger] s[j]).nan()
}

/// `r` is the absolute value of an element of `s`.
pub open spec fn is_abs_of_some(s: Seq<Double>, r: Double) -> bool {
    exists|i: int| 0 <= i < s.len() && r == (#[trigger] s[i]).abs_spec()
}

/// What the smallest absolute value of `s` is: a NaN as soon as one element
/// is a NaN (the last of them, sign cleared), else the smallest magnitude.
pub open spec fn is_abs_min(s: Seq<Double>, r: Double) -> bool {
    if s.len() == 0 {
        r.bits == NAN_BITS
    } else if has_nan(s) {
        is_last_nan_abs(s, r)
    } else {
        is_abs_of_some(s, r) && forall|j: int|
            0 <= j < s.len() ==> r.bits <= (#[trigger] s[j]).magnitude()
    }
}

/// As `is_abs_min`, for the largest absolute value.
pub open spec fn is_abs_max(s: Seq<Double>, r: Double) -> bool {
    if s.len() == 0 {
        r.bits == NAN_BITS
    } else if has_nan(s) {
        is_last_nan_abs(s, r)
    } else {
        is_abs_of_some(s, r) && forall|j: int|
            0 <= j < s.len() ==> (#[trigger] s[j]).magnitude() <= r.bits
    }
}

/// Descriptive statistics over a collection of values.
pub trait IterStatistics<T> {
    /// The smallest absolute value; a NaN when the data is empty or holds a NaN.
    fn abs_min(&mut self) -> T;

    /// The largest absolute value; a NaN when the data is empty or holds a NaN.
    fn abs_max(&mut self) -> T;
}

proof fn lemma_extend_nan(s: Seq<Double>, i: int, r: Double)
    requires
        0 < i < s.len(),
        s[i].nan(),
        r == s[i].abs_spec(),
    ensures
        is_last_nan_abs(s.subrange(0, i + 1), r),
        has_nan(s.subrange(0, i + 1)),
{
    let t = s.subrange(0, i + 1);
    assert(t[i].nan());
}

proof fn lemma_extend_keep_nan(s: Seq<Double>, i: int, r: Double)
    requires
        0 < i < s.len(),
        !s[i].nan(),
        has_nan(s.subrange(0, i)),
        is_last_nan_abs(s.subrange(0, i), r),
    ensures
        is_last_nan_abs(s.subrange(0, i + 1), r),
        has_nan(s.subrange(0, i + 1)),
{
    let p = s.subrange(0, i);
    let t = s.subrange(0, i + 1);
    let w = choose|w: int|
        0 <= w < p.len() && (#[trigger] p[w]).nan() && r == p[w].abs_spec() && forall|j: int|
            w < j < p.len() ==> !(#[trigger] p[j]).nan();
    assert(t[w] == p[w]);
    assert forall|j: int| w < j < t.len() implies !(#[trigger] t[j]).nan() by {
        if j < i {
            assert(t[j] == p[j]);
        }
    }
}

impl IterStatistics<Double> for Vec<Double> {
    fn abs_min(&mut self) -> (r: Double)
        ensures
            *final(self) == *old(self),
            is_abs_min(old(self)@, r),
    {
        let n = self.len();
        if n == 0 {
            return Double::nan_value();
        }
        let mut acc = self[0].abs();
        let mut i: usize = 1;
        proof {
            assert(self@.subrange(0, 1)[0] == self@[0]);
        }
        while i < n
            invariant
                n == self.len(),
                1 <= i <= n,
                is_abs_min(self@.subrange(0, i as int), acc),
            decreases n - i,
        {
            let x = self[i].abs();
            proof {
                let p = self@.subrange(0, i as int);
                let t = self@.subrange(0, i + 1);
                assert(t.subrange(0, i as int) == p);
                assert(t[i as int] == self@[i as int]);
                assert forall|j: int| 0 <= j < i implies t[j] == p[j] by {}
                if self@[i as int].nan() {
                    lemma_extend_nan(self@, i as int, x);
                } else if has_nan(p) {
                    lemma_extend_keep_nan(self@, i as int, acc);
                } else {
                    assert(!has_nan(t)) by {
                        if has_nan(t) {
                            let k = choose|k: int| 0 <= k < t.len() && (#[trigger] t[k]).nan();
                            assert(p[k] == t[k]);
                        }
                    }
                }
            }
            if x.lt(&acc) || x.is_nan() {
                proof {
                    let t = self@.subrange(0, i + 1);
                    if !self@[i as int].nan() {
                        assert(t[i as int] == self@[i as int]);
                        assert forall|j: int| 0 <= j < t.len() implies x.bits <= (
                        #[trigger] t[j]).magnitude() by {
                            if j < i {
                                assert(t[j] == self@.subrange(0, i as int)[j]);
                            }
                        }
                    }
                }
                acc = x;
            } else {
                proof {
                    let p = self@.subrange(0, i as int);
                    let t = self@.subrange(0, i + 1);
                    if !self@[i as int].nan() && !has_nan(p) {
                        assert(t[i as int] == self@[i as int]);
                        let w = choose|w: int| 0 <= w < p.len() && acc == (#[trigger] p[w]).abs_spec();
                        assert(t[w] == p[w]);
                        assert forall|j: int| 0 <= j < t.len() implies acc.bits <= (
                        #[trigger] t[j]).magnitude() by {
                            if j < i {
                                assert(t[j] == p[j]);
                            }
                        }
                    }
                }
            }
            i = i + 1;
        }
        proof {
            assert(self@.subrange(0, n as int) == self@);
        }
        acc
    }

    fn abs_max(&mut self) -> (r: Double)
        ensures
            *final(self) == *old(self),
            is_abs_max(old(self)@, r),
    {
        let n = self.len();
        if n == 0 {
            return Double::nan_value();
        }
        let mut acc = self[0].abs();
        let mut i: usize = 1;
        proof {
            assert(self@.subrange(0, 1)[0] == self@[0]);
        }
        while i < n
            invariant
                n == self.len(),
                1 <= i <= n,
                is_abs_max(self@.subrange(0, i as int), acc),
            decreases n - i,
        {
            let x = self[i].abs();
            proof {
                let p = self@.subrange(0, i as int);
                let t = self@.subrange(0, i + 1);
                assert(t.subrange(0, i as int) == p);
                assert(t[i as int] == self@[i as int]);
                if self@[i as int].nan() {
                    lemma_extend_nan(self@, i as int, x);
                } else if has_nan(p) {
                    lemma_extend_keep_nan(self@, i as int, acc);
                } else {
                    assert(!has_nan(t)) by {
                        if has_nan(t) {
                            let k = choose|k: int| 0 <= k < t.len() && (#[trigger] t[k]).nan();
                            assert(p[k] == t[k]);
                        }
                    }
                }
            }
            if acc.lt(&x) || x.is_nan() {
                proof {
                    let t = self@.subrange(0, i + 1);
                    if !self@[i as int].nan() {
                        assert(t[i as int] == self@[i as int]);
                        assert forall|j: int| 0 <= j < t.len() implies (
                        #[trigger] t[j]).magnitude() <= x.bits by {
                            if j < i {
                                assert(t[j] == self@.subrange(0, i as int)[j]);
                            }
                        }
                    }
                }
                acc = x;
            } else {
                proof {
                    let p = self@.subrange(0, i as int);
                    let t = self@.subrange(0, i + 1);
                    if !self@[i as int].nan() && !has_nan(p) {
                        assert(t[i as int] == self@[i as int]);
                        let w = choose|w: int| 0 <= w < p.len() && acc == (#[trigger] p[w]).abs_spec();
                        assert(t[w] == p[w]);
                        assert forall|j: int| 0 <= j < t.len() implies (
                        #[trigger] t[j]).magnitude() <= acc.bits by {
                            if j < i {
                                assert(t[j] == p[j]);
                            }
                        }
                    }
                }
            }
            i = i + 1;
        }
        proof {
            assert(self@.subrange(0, n as int) == self@);
        }
        acc
    }
}

} // verus!
