//! Fixed-step integrators: explicit Euler and the classical fourth-order
//! Runge–Kutta method, generic over any [`Dynamics`] right-hand side.
//!
//! Both return the full trajectory: a sequence of `steps + 1` state
//! vectors whose first entry is the initial state itself, untouched by any
//! update, and whose entry `k + 1` is one method step away from entry `k`.
//! The contracts pin every recorded state to a spec-level orbit, so a
//! caller knows the exact operation tree behind each number.  No error is
//! signalled on divergence: the integrators run to completion and record
//! whatever values the scalar arithmetic produces — exposing them is the
//! job of the energy diagnostic.

use vstd::prelude::*;

use crate::dynamics::Dynamics;
use crate::scalar::Scalar;
use crate::state::axpy;
use crate::state::axpy_spec;
use crate::state::copy_state;

verus! {

/// The time after `k` steps: `t0` with `dt` added `k` times, in the
/// scalar's arithmetic.
pub open spec fn time_at<T: Scalar>(t0: T, dt: T, k: nat) -> T
    decreases k,
{
    if k == 0 {
        t0
    } else {
        time_at(t0, dt, (k - 1) as nat).plus_spec(dt)
    }
}

/// One explicit Euler update: `y + dt * f(y, t)`.
pub open spec fn euler_step_spec<T: Scalar, D: Dynamics<T>>(f: D, y: Seq<T>, t: T, dt: T) -> Seq<
    T,
> {
    axpy_spec(y, dt, f.eval_spec(y, t))
}

/// The state reached from `y0` after `k` explicit Euler updates.
pub open spec fn euler_orbit<T: Scalar, D: Dynamics<T>>(
    f: D,
    y0: Seq<T>,
    t0: T,
    dt: T,
    k: nat,
) -> Seq<T>
    decreases k,
{
    if k == 0 {
        y0
    } else {
        euler_step_spec(
            f,
            euler_orbit(f, y0, t0, dt, (k - 1) as nat),
            time_at(t0, dt, (k - 1) as nat),
            dt,
        )
    }
}

/// Every state of an Euler orbit has the length of the initial state:
/// an update never grows or shrinks the vector.
pub proof fn lemma_euler_orbit_len<T: Scalar, D: Dynamics<T>>(
    f: D,
    y0: Seq<T>,
    t0: T,
    dt: T,
    k: nat,
)
    ensures
        euler_orbit(f, y0, t0, dt, k).len() == y0.len(),
    decreases k,
{
    if k > 0 {
        lemma_euler_orbit_len(f, y0, t0, dt, (k - 1) as nat);
    }
}

/// Explicit Euler integration: `steps` updates of size `dt` from `y0` at
/// `t0`, every intermediate state recorded.
pub fn euler<T: Scalar, D: Dynamics<T>>(
    f: &D,
    y0: Vec<T>,
    t0: T,
    dt: T,
    steps: usize,
) -> (trajectory: Vec<Vec<T>>)
    requires
        y0@.len() == f.dim(),
    ensures
        trajectory@.len() == steps + 1,
        trajectory@[0]@ == y0@,
        forall|k: int|
            0 <= k <= steps ==> (#[trigger] trajectory@[k])@ == euler_orbit(
                *f,
                y0@,
                t0,
                dt,
                k as nat,
            ),
{
    let ghost start = y0@;
    let mut y = y0;
    let mut trajectory: Vec<Vec<T>> = Vec::new();
    trajectory.push(copy_state(&y));
    let mut t = t0;
    let mut k: usize = 0;
    while k < steps
        invariant
            k <= steps,
            y@.len() == f.dim(),
            trajectory@.len() == k + 1,
            y@ == euler_orbit(*f, start, t0, dt, k as nat),
            t == time_at(t0, dt, k as nat),
            forall|j: int|
                0 <= j <= k ==> (#[trigger] trajectory@[j])@ == euler_orbit(
                    *f,
                    start,
                    t0,
                    dt,
                    j as nat,
                ),
        decreases steps - k,
    {
        let dy = f.eval(&y, t);
        axpy(&mut y, dt, &dy);
        trajectory.push(copy_state(&y));
        t = t.plus(dt);
        k = k + 1;
        proof {
            assert(y@ == euler_orbit(*f, start, t0, dt, k as nat));
            assert(t == time_at(t0, dt, k as nat));
        }
    }
    trajectory
}

/// A Runge–Kutta half-step offset: entry `i` is `y[i] + (dt * k[i]) / 2`.
pub open spec fn rk4_mid_spec<T: Scalar>(y: Seq<T>, dt: T, kv: Seq<T>) -> Seq<T> {
    Seq::new(y.len(), |i: int| y[i].plus_spec(dt.times_spec(kv[i]).div_spec(T::two_spec())))
}

/// The weighted Runge–Kutta combination: entry `i` is
/// `y[i] + dt * (k1[i] + 2 * k2[i] + 2 * k3[i] + k4[i]) / 6`.
pub open spec fn rk4_combine_spec<T: Scalar>(
    y: Seq<T>,
    dt: T,
    k1: Seq<T>,
    k2: Seq<T>,
    k3: Seq<T>,
    k4: Seq<T>,
) -> Seq<T> {
    Seq::new(
        y.len(),
        |i: int|
            y[i].plus_spec(
                dt.times_spec(
                    k1[i].plus_spec(T::two_spec().times_spec(k2[i])).plus_spec(
                        T::two_spec().times_spec(k3[i]),
                    ).plus_spec(k4[i]),
                ).div_spec(T::six_spec()),
            ),
    )
}

/// One classical Runge–Kutta update of `y` at `t`: four derivative
/// evaluations — at the state, at two half-step offsets, at a full-step
/// offset — combined with weights 1, 2, 2, 1.
pub open spec fn rk4_step_spec<T: Scalar, D: Dynamics<T>>(f: D, y: Seq<T>, t: T, dt: T) -> Seq<
    T,
> {
    let k1 = f.eval_spec(y, t);
    let y1 = rk4_mid_spec(y, dt, k1);
    let tm = t.plus_spec(dt.div_spec(T::two_spec()));
    let k2 = f.eval_spec(y1, tm);
    let y2 = rk4_mid_spec(y, dt, k2);
    let k3 = f.eval_spec(y2, tm);
    let y3 = axpy_spec(y, dt, k3);
    let k4 = f.eval_spec(y3, t.plus_spec(dt));
    rk4_combine_spec(y, dt, k1, k2, k3, k4)
}

/// The state reached from `y0` after `k` Runge–Kutta updates.
pub open spec fn rk4_orbit<T: Scalar, D: Dynamics<T>>(
    f: D,
    y0: Seq<T>,
    t0: T,
    dt: T,
    k: nat,
) -> Seq<T>
    decreases k,
{
    if k == 0 {
        y0
    } else {
        rk4_step_spec(
            f,
            rk4_orbit(f, y0, t0, dt, (k - 1) as nat),
            time_at(t0, dt, (k - 1) as nat),
            dt,
        )
    }
}

/// Every state of a Runge–Kutta orbit has the length of the initial
/// state.
pub proof fn lemma_rk4_orbit_len<T: Scalar, D: Dynamics<T>>(f: D, y0: Seq<T>, t0: T, dt: T, k: nat)
    ensures
        rk4_orbit(f, y0, t0, dt, k).len() == y0.len(),
    decreases k,
{
    if k > 0 {
        lemma_rk4_orbit_len(f, y0, t0, dt, (k - 1) as nat);
    }
}

/// Entry `i` becomes `y[i] + (dt * kv[i]) / 2`: the state handed to the
/// second and third derivative evaluations of a Runge–Kutta step.
fn rk4_mid<T: Scalar>(y: &Vec<T>, dt: T, kv: &Vec<T>) -> (r: Vec<T>)
    requires
        y@.len() == kv@.len(),
    ensures
        r@ == rk4_mid_spec(y@, dt, kv@),
{
    let mut r: Vec<T> = Vec::new();
    let mut i: usize = 0;
    while i < y.len()
        invariant
            i <= y@.len(),
            kv@.len() == y@.len(),
            r@.len() == i,
            forall|j: int| 0 <= j < i ==> r@[j] == #[trigger] rk4_mid_spec(y@, dt, kv@)[j],
        decreases y@.len() - i,
    {
        r.push(y[i].plus(dt.times(kv[i]).div(T::two())));
        i = i + 1;
    }
    assert(r@ =~= rk4_mid_spec(y@, dt, kv@));
    r
}

/// In-place weighted combination closing a Runge–Kutta step.
fn rk4_combine<T: Scalar>(
    y: &mut Vec<T>,
    dt: T,
    k1: &Vec<T>,
    k2: &Vec<T>,
    k3: &Vec<T>,
    k4: &Vec<T>,
)
    requires
        old(y)@.len() == k1@.len(),
        old(y)@.len() == k2@.len(),
        old(y)@.len() == k3@.len(),
        old(y)@.len() == k4@.len(),
    ensures
        final(y)@ == rk4_combine_spec(old(y)@, dt, k1@, k2@, k3@, k4@),
{
    let ghost start = y@;
    let n: usize = y.len();
    let mut i: usize = 0;
    while i < n
        invariant
            y@.len() == n,
            start.len() == n,
            k1@.len() == n,
            k2@.len() == n,
            k3@.len() == n,
            k4@.len() == n,
            i <= n,
            forall|j: int|
                0 <= j < i ==> y@[j] == #[trigger] rk4_combine_spec(
                    start,
                    dt,
                    k1@,
                    k2@,
                    k3@,
                    k4@,
                )[j],
            forall|j: int| i <= j < n ==> y@[j] == start[j],
        decreases n - i,
    {
        let yi = y[i];
        let weighted = k1[i].plus(T::two().times(k2[i])).plus(T::two().times(k3[i])).plus(k4[i]);
        y[i] = yi.plus(dt.times(weighted).div(T::six()));
        proof {
            assert(y@[i as int] == rk4_combine_spec(start, dt, k1@, k2@, k3@, k4@)[i as int]);
        }
        i = i + 1;
    }
    assert(y@ =~= rk4_combine_spec(start, dt, k1@, k2@, k3@, k4@));
}

/// Classical fourth-order Runge–Kutta integration: `steps` updates of
/// size `dt` from `y0` at `t0`, every intermediate state recorded.  The
/// running state is never mutated before its successor is fully combined,
/// and the recorded states share no storage with it.
pub fn rk4<T: Scalar, D: Dynamics<T>>(
    f: &D,
    y0: Vec<T>,
    t0: T,
    dt: T,
    steps: usize,
) -> (trajectory: Vec<Vec<T>>)
    requires
        y0@.len() == f.dim(),
    ensures
        trajectory@.len() == steps + 1,
        trajectory@[0]@ == y0@,
        forall|k: int|
            0 <= k <= steps ==> (#[trigger] trajectory@[k])@ == rk4_orbit(
                *f,
                y0@,
                t0,
                dt,
                k as nat,
            ),
{
    let ghost start = y0@;
    let mut y = y0;
    let mut trajectory: Vec<Vec<T>> = Vec::new();
    trajectory.push(copy_state(&y));
    let mut t = t0;
    let mut k: usize = 0;
    while k < steps
        invariant
            k <= steps,
            y@.len() == f.dim(),
            trajectory@.len() == k + 1,
            y@ == rk4_orbit(*f, start, t0, dt, k as nat),
            t == time_at(t0, dt, k as nat),
            forall|j: int|
                0 <= j <= k ==> (#[trigger] trajectory@[j])@ == rk4_orbit(
                    *f,
                    start,
                    t0,
                    dt,
                    j as nat,
                ),
        decreases steps - k,
    {
        let k1 = f.eval(&y, t);
        let y1 = rk4_mid(&y, dt, &k1);
        let tm = t.plus(dt.div(T::two()));
        let k2 = f.eval(&y1, tm);
        let y2 = rk4_mid(&y, dt, &k2);
        let k3 = f.eval(&y2, tm);
        let mut y3 = copy_state(&y);
        axpy(&mut y3, dt, &k3);
        let k4 = f.eval(&y3, t.plus(dt));
        rk4_combine(&mut y, dt, &k1, &k2, &k3, &k4);
        trajectory.push(copy_state(&y));
        t = t.plus(dt);
        k = k + 1;
        proof {
            assert(y@ == rk4_orbit(*f, start, t0, dt, k as nat));
            assert(t == time_at(t0, dt, k as nat));
        }
    }
    trajectory
}

} // verus!
