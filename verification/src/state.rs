//! State-vector algebra: the two primitive operations every integrator step
//! is made of — a deep copy of a state, and the in-place scaled update
//! `y <- y + alpha * d`.

use vstd::prelude::*;

use crate::scalar::Scalar;

verus! {

/// The sequence whose entry `i` is `y[i] + alpha * d[i]`, written in the
/// arithmetic of the scalar.  Its length is the length of `y`.
pub open spec fn axpy_spec<T: Scalar>(y: Seq<T>, alpha: T, d: Seq<T>) -> Seq<T> {
    Seq::new(y.len(), |i: int| y[i].plus_spec(alpha.times_spec(d[i])))
}

/// Deep copy of a state vector.
pub fn copy_state<T: Scalar>(y: &Vec<T>) -> (r: Vec<T>)
    ensures
        r@ == y@,
{
    let mut r: Vec<T> = Vec::new();
    let mut i: usize = 0;
    while i < y.len()
        invariant
            i <= y@.len(),
            r@.len() == i,
            forall|j: int| 0 <= j < i ==> r@[j] == y@[j],
        decreases y@.len() - i,
    {
        r.push(y[i]);
        i = i + 1;
    }
    assert(r@ =~= y@);
    r
}

/// In-place scaled add: every entry of `y` becomes `y[i] + alpha * d[i]`.
/// `y` and `d` must have the same length.
pub fn axpy<T: Scalar>(y: &mut Vec<T>, alpha: T, d: &Vec<T>)
    requires
        old(y)@.len() == d@.len(),
    ensures
        final(y)@ == axpy_spec(old(y)@, alpha, d@),
{
    let ghost y0 = y@;
    let n: usize = y.len();
    let mut i: usize = 0;
    while i < n
        invariant
            y@.len() == n,
            d@.len() == n,
            y0.len() == n,
            i <= n,
            forall|j: int| 0 <= j < i ==> y@[j] == #[trigger] axpy_spec(y0, alpha, d@)[j],
            forall|j: int| i <= j < n ==> y@[j] == y0[j],
        decreases n - i,
    {
        let yi = y[i];
        let di = d[i];
        y[i] = yi.plus(alpha.times(di));
        proof {
            assert(y@[i as int] == axpy_spec(y0, alpha, d@)[i as int]);
        }
        i = i + 1;
    }
    assert(y@ =~= axpy_spec(y0, alpha, d@));
}

} // verus!
