//! The experiment harness's computational core: running both integrators
//! across a ladder of step sizes, reshaping trajectories into per-body
//! plot series, and choosing the states an animation draws.
//!
//! Everything that touches a chart, a file or the clock lives outside the
//! library; the functions here hand it plain, fully specified values.

use vstd::prelude::*;

use crate::dynamics::Dynamics;
use crate::dynamics::ThreeBody;
use crate::dynamics::STATE_DIM;
use crate::energy::energy_error_series;
use crate::energy::energy_spec;
use crate::energy::floored_spec;
use crate::energy::relative_error_spec;
use crate::integrate::euler;
use crate::integrate::euler_orbit;
use crate::integrate::lemma_euler_orbit_len;
use crate::integrate::lemma_rk4_orbit_len;
use crate::integrate::rk4;
use crate::integrate::rk4_orbit;
use crate::scalar::Scalar;
use crate::state::copy_state;

verus! {

/// One independent Euler run and one independent Runge–Kutta run for each
/// rung of the ladder: `dts[i]` paired with `steps_list[i]`.  The two
/// sequences must walk in parallel; every run starts from its own copy of
/// the initial state.
pub fn run_ladder<T: Scalar, D: Dynamics<T>>(
    f: &D,
    y0: &Vec<T>,
    t0: T,
    dts: &Vec<T>,
    steps_list: &Vec<usize>,
) -> (runs: (Vec<Vec<Vec<T>>>, Vec<Vec<Vec<T>>>))
    requires
        dts@.len() == steps_list@.len(),
        y0@.len() == f.dim(),
    ensures
        runs.0@.len() == dts@.len(),
        runs.1@.len() == dts@.len(),
        forall|i: int|
            0 <= i < dts@.len() ==> (#[trigger] runs.0@[i])@.len() == steps_list@[i] + 1,
        forall|i: int|
            0 <= i < dts@.len() ==> (#[trigger] runs.1@[i])@.len() == steps_list@[i] + 1,
        forall|i: int, k: int|
            0 <= i < dts@.len() && 0 <= k <= steps_list@[i] ==> (#[trigger] runs.0@[i]@[k])@
                == euler_orbit(*f, y0@, t0, dts@[i], k as nat),
        forall|i: int, k: int|
            0 <= i < dts@.len() && 0 <= k <= steps_list@[i] ==> (#[trigger] runs.1@[i]@[k])@
                == rk4_orbit(*f, y0@, t0, dts@[i], k as nat),
{
    let mut es: Vec<Vec<Vec<T>>> = Vec::new();
    let mut rs: Vec<Vec<Vec<T>>> = Vec::new();
    let mut i: usize = 0;
    while i < dts.len()
        invariant
            dts@.len() == steps_list@.len(),
            y0@.len() == f.dim(),
            i <= dts@.len(),
            es@.len() == i,
            rs@.len() == i,
            forall|j: int| 0 <= j < i ==> (#[trigger] es@[j])@.len() == steps_list@[j] + 1,
            forall|j: int| 0 <= j < i ==> (#[trigger] rs@[j])@.len() == steps_list@[j] + 1,
            forall|j: int, k: int|
                0 <= j < i && 0 <= k <= steps_list@[j] ==> (#[trigger] es@[j]@[k])@ == euler_orbit(
                    *f,
                    y0@,
                    t0,
                    dts@[j],
                    k as nat,
                ),
            forall|j: int, k: int|
                0 <= j < i && 0 <= k <= steps_list@[j] ==> (#[trigger] rs@[j]@[k])@ == rk4_orbit(
                    *f,
                    y0@,
                    t0,
                    dts@[j],
                    k as nat,
                ),
        decreases dts@.len() - i,
    {
        let dt = dts[i];
        let steps = steps_list[i];
        let te = euler(f, copy_state(y0), t0, dt, steps);
        let tr = rk4(f, copy_state(y0), t0, dt, steps);
        es.push(te);
        rs.push(tr);
        i = i + 1;
    }
    (es, rs)
}

/// Entry `idx` of every state of a trajectory, in step order: the series
/// a chart draws for one coordinate of one body.
pub fn component_series<T: Scalar>(data: &Vec<Vec<T>>, idx: usize) -> (r: Vec<T>)
    requires
        forall|k: int| 0 <= k < data@.len() ==> idx < (#[trigger] data@[k])@.len(),
    ensures
        r@.len() == data@.len(),
        forall|k: int| 0 <= k < data@.len() ==> #[trigger] r@[k] == data@[k]@[idx as int],
{
    let mut r: Vec<T> = Vec::new();
    let mut i: usize = 0;
    while i < data.len()
        invariant
            i <= data@.len(),
            r@.len() == i,
            forall|k: int| 0 <= k < data@.len() ==> idx < (#[trigger] data@[k])@.len(),
            forall|k: int| 0 <= k < i ==> #[trigger] r@[k] == data@[k]@[idx as int],
        decreases data@.len() - i,
    {
        let s = &data[i];
        r.push(s[idx]);
        i = i + 1;
    }
    r
}

/// The indices of the states an animation draws when it keeps every
/// `skip`-th state of a trajectory of length `len`: `0, skip, 2 * skip, …`
/// strictly below `len`.  There are `(len + skip - 1) / skip` of them —
/// the frame count of the animation.
pub fn frame_steps(len: usize, skip: usize) -> (r: Vec<usize>)
    requires
        skip >= 1,
        len + skip - 1 <= usize::MAX,
    ensures
        r@.len() == (len + skip - 1) as int / skip as int,
        forall|i: int| 0 <= i < r@.len() ==> #[trigger] r@[i] == i * skip,
        forall|i: int| 0 <= i < r@.len() ==> #[trigger] r@[i] < len,
{
    let mut r: Vec<usize> = Vec::new();
    let mut s: usize = 0;
    proof {
        assert(r@.len() == 0);
        assert(0int * skip == 0) by (nonlinear_arith);
    }
    while s < len
        invariant
            skip >= 1,
            len + skip - 1 <= usize::MAX,
            s == r@.len() * skip,
            s <= len + skip - 1,
            forall|i: int| 0 <= i < r@.len() ==> #[trigger] r@[i] == i * skip,
            forall|i: int| 0 <= i < r@.len() ==> #[trigger] r@[i] < len,
        decreases len + skip - s,
    {
        let ghost j = r@.len() as int;
        r.push(s);
        s = s + skip;
        proof {
            assert((j + 1) * skip == j * skip + skip) by (nonlinear_arith);
        }
    }
    proof {
        let j = r@.len() as int;
        assert(s == j * skip);
        assert(s >= len);
        if j >= 1 {
            assert(r@[j - 1] == (j - 1) * skip);
            assert(r@[j - 1] < len);
        } else {
            assert(0int * skip == 0) by (nonlinear_arith);
        }
        assert((len + skip - 1) as int / skip as int == j) by (nonlinear_arith)
            requires
                skip >= 1,
                len >= 0,
                s == j * skip,
                s >= len,
                j >= 1 ==> (j - 1) * skip < len,
                j == 0 ==> len == 0,
        {
        }
    }
    r
}

/// Everything the experiment produces: both trajectory ladders and, for
/// each rung, the plotted relative-energy-error series of each method.
pub struct Experiment<T> {
    /// One Euler trajectory per step size.
    pub euler_runs: Vec<Vec<Vec<T>>>,
    /// One Runge–Kutta trajectory per step size.
    pub rk4_runs: Vec<Vec<Vec<T>>>,
    /// The floored relative-energy-error series of each Euler run.
    pub euler_errors: Vec<Vec<T>>,
    /// The floored relative-energy-error series of each Runge–Kutta run.
    pub rk4_errors: Vec<Vec<T>>,
}

/// The full experiment on the three-body world `w`: run both integrators
/// for every rung of the ladder, then push each trajectory through the
/// energy diagnostic.  Every state and every plotted error value is
/// pinned to its spec-level orbit and formula.
#[verifier::loop_isolation(false)]
pub fn run_experiment<T: Scalar>(
    w: &ThreeBody<T>,
    y0: &Vec<T>,
    t0: T,
    dts: &Vec<T>,
    steps_list: &Vec<usize>,
    floor: T,
) -> (out: Experiment<T>)
    requires
        dts@.len() == steps_list@.len(),
        y0@.len() == STATE_DIM,
    ensures
        out.euler_runs@.len() == dts@.len(),
        out.rk4_runs@.len() == dts@.len(),
        out.euler_errors@.len() == dts@.len(),
        out.rk4_errors@.len() == dts@.len(),
        forall|i: int|
            0 <= i < dts@.len() ==> (#[trigger] out.euler_runs@[i])@.len() == steps_list@[i] + 1,
        forall|i: int|
            0 <= i < dts@.len() ==> (#[trigger] out.rk4_runs@[i])@.len() == steps_list@[i] + 1,
        forall|i: int, k: int|
            0 <= i < dts@.len() && 0 <= k <= steps_list@[i] ==> (#[trigger] out.euler_runs@[i]@[k])@
                == euler_orbit(*w, y0@, t0, dts@[i], k as nat),
        forall|i: int, k: int|
            0 <= i < dts@.len() && 0 <= k <= steps_list@[i] ==> (#[trigger] out.rk4_runs@[i]@[k])@
                == rk4_orbit(*w, y0@, t0, dts@[i], k as nat),
        forall|i: int|
            0 <= i < dts@.len() ==> (#[trigger] out.euler_errors@[i])@.len() == steps_list@[i]
                + 1,
        forall|i: int|
            0 <= i < dts@.len() ==> (#[trigger] out.rk4_errors@[i])@.len() == steps_list@[i] + 1,
        forall|i: int, k: int|
            0 <= i < dts@.len() && 0 <= k <= steps_list@[i] ==> #[trigger] out.euler_errors@[i]@[k]
                == floored_spec(
                relative_error_spec(
                    energy_spec(*w, out.euler_runs@[i]@[k]@),
                    energy_spec(*w, out.euler_runs@[i]@[0]@),
                ),
                floor,
            ),
        forall|i: int, k: int|
            0 <= i < dts@.len() && 0 <= k <= steps_list@[i] ==> #[trigger] out.rk4_errors@[i]@[k]
                == floored_spec(
                relative_error_spec(
                    energy_spec(*w, out.rk4_runs@[i]@[k]@),
                    energy_spec(*w, out.rk4_runs@[i]@[0]@),
                ),
                floor,
            ),
{
    let (es, rs) = run_ladder(w, y0, t0, dts, steps_list);
    let mut euler_errors: Vec<Vec<T>> = Vec::new();
    let mut rk4_errors: Vec<Vec<T>> = Vec::new();
    let mut i: usize = 0;
    while i < dts.len()
        invariant
            euler_errors@.len() == i,
            rk4_errors@.len() == i,
            i <= dts@.len(),
            forall|j: int|
                0 <= j < i ==> (#[trigger] euler_errors@[j])@.len() == steps_list@[j] + 1,
            forall|j: int|
                0 <= j < i ==> (#[trigger] rk4_errors@[j])@.len() == steps_list@[j] + 1,
            forall|j: int, k: int|
                0 <= j < i && 0 <= k <= steps_list@[j] ==> #[trigger] euler_errors@[j]@[k]
                    == floored_spec(
                    relative_error_spec(
                        energy_spec(*w, es@[j]@[k]@),
                        energy_spec(*w, es@[j]@[0]@),
                    ),
                    floor,
                ),
            forall|j: int, k: int|
                0 <= j < i && 0 <= k <= steps_list@[j] ==> #[trigger] rk4_errors@[j]@[k]
                    == floored_spec(
                    relative_error_spec(
                        energy_spec(*w, rs@[j]@[k]@),
                        energy_spec(*w, rs@[j]@[0]@),
                    ),
                    floor,
                ),
        decreases dts@.len() - i,
    {
        proof {
            let ghost ii = i as int;
            assert forall|k: int| 0 <= k < es@[ii]@.len() implies (#[trigger] es@[ii]@[k])@.len()
                == STATE_DIM by {
                assert(es@[ii]@[k]@ == euler_orbit(*w, y0@, t0, dts@[ii], k as nat));
                lemma_euler_orbit_len(*w, y0@, t0, dts@[ii], k as nat);
            }
            assert forall|k: int| 0 <= k < rs@[ii]@.len() implies (#[trigger] rs@[ii]@[k])@.len()
                == STATE_DIM by {
                assert(rs@[ii]@[k]@ == rk4_orbit(*w, y0@, t0, dts@[ii], k as nat));
                lemma_rk4_orbit_len(*w, y0@, t0, dts@[ii], k as nat);
            }
        }
        let e_series = energy_error_series(&es[i], w, floor);
        let r_series = energy_error_series(&rs[i], w, floor);
        euler_errors.push(e_series);
        rk4_errors.push(r_series);
        i = i + 1;
    }
    Experiment { euler_runs: es, rk4_runs: rs, euler_errors, rk4_errors }
}

} // verus!
