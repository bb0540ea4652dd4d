//! The conserved-quantity diagnostic: total mechanical energy of a
//! three-body state, the relative-error series of a trajectory against its
//! initial energy, and the floor applied to that series before log-scale
//! plotting.

use vstd::prelude::*;

use crate::dynamics::ThreeBody;
use crate::dynamics::STATE_DIM;
use crate::scalar::Scalar;

verus! {

/// Total mechanical energy of a 12-entry state:
/// `sum_i (1/2) * m_i * |v_i|^2  -  g * sum_{i<j} m_i * m_j / r_ij`,
/// with each distance `r_ij` the square root of the squared separation —
/// the exact operation tree the executable code performs.
pub open spec fn energy_spec<T: Scalar>(w: ThreeBody<T>, y: Seq<T>) -> T {
    let x1 = y[0];
    let y1 = y[1];
    let x2 = y[2];
    let y2 = y[3];
    let x3 = y[4];
    let y3 = y[5];
    let vx1 = y[6];
    let vy1 = y[7];
    let vx2 = y[8];
    let vy2 = y[9];
    let vx3 = y[10];
    let vy3 = y[11];
    let kinetic = T::half_spec().times_spec(w.m1).times_spec(
        vx1.times_spec(vx1).plus_spec(vy1.times_spec(vy1)),
    ).plus_spec(
        T::half_spec().times_spec(w.m2).times_spec(
            vx2.times_spec(vx2).plus_spec(vy2.times_spec(vy2)),
        ),
    ).plus_spec(
        T::half_spec().times_spec(w.m3).times_spec(
            vx3.times_spec(vx3).plus_spec(vy3.times_spec(vy3)),
        ),
    );
    let r12 = x2.minus_spec(x1).sq_spec().plus_spec(y2.minus_spec(y1).sq_spec()).sqrt_spec();
    let r13 = x3.minus_spec(x1).sq_spec().plus_spec(y3.minus_spec(y1).sq_spec()).sqrt_spec();
    let r23 = x3.minus_spec(x2).sq_spec().plus_spec(y3.minus_spec(y2).sq_spec()).sqrt_spec();
    let potential = w.g.neg_spec().times_spec(
        w.m1.times_spec(w.m2).div_spec(r12).plus_spec(w.m1.times_spec(w.m3).div_spec(r13)).plus_spec(
            w.m2.times_spec(w.m3).div_spec(r23),
        ),
    );
    kinetic.plus_spec(potential)
}

/// Total mechanical energy of one state.
pub fn calculate_energy<T: Scalar>(state: &Vec<T>, w: &ThreeBody<T>) -> (e: T)
    requires
        state@.len() == STATE_DIM,
    ensures
        e == energy_spec(*w, state@),
{
    let x1 = state[0];
    let y1 = state[1];
    let x2 = state[2];
    let y2 = state[3];
    let x3 = state[4];
    let y3 = state[5];
    let vx1 = state[6];
    let vy1 = state[7];
    let vx2 = state[8];
    let vy2 = state[9];
    let vx3 = state[10];
    let vy3 = state[11];
    let kinetic = T::half().times(w.m1).times(vx1.times(vx1).plus(vy1.times(vy1))).plus(
        T::half().times(w.m2).times(vx2.times(vx2).plus(vy2.times(vy2))),
    ).plus(T::half().times(w.m3).times(vx3.times(vx3).plus(vy3.times(vy3))));
    let r12 = x2.minus(x1).sq().plus(y2.minus(y1).sq()).sqrt();
    let r13 = x3.minus(x1).sq().plus(y3.minus(y1).sq()).sqrt();
    let r23 = x3.minus(x2).sq().plus(y3.minus(y2).sq()).sqrt();
    let potential = w.g.neg().times(
        w.m1.times(w.m2).div(r12).plus(w.m1.times(w.m3).div(r13)).plus(
            w.m2.times(w.m3).div(r23),
        ),
    );
    kinetic.plus(potential)
}

/// The energy of every state of a trajectory, in order.
pub fn energy_series<T: Scalar>(data: &Vec<Vec<T>>, w: &ThreeBody<T>) -> (r: Vec<T>)
    requires
        forall|k: int| 0 <= k < data@.len() ==> (#[trigger] data@[k])@.len() == STATE_DIM,
    ensures
        r@.len() == data@.len(),
        forall|k: int| 0 <= k < data@.len() ==> #[trigger] r@[k] == energy_spec(*w, data@[k]@),
{
    let mut r: Vec<T> = Vec::new();
    let mut i: usize = 0;
    while i < data.len()
        invariant
            i <= data@.len(),
            r@.len() == i,
            forall|k: int| 0 <= k < data@.len() ==> (#[trigger] data@[k])@.len() == STATE_DIM,
            forall|k: int| 0 <= k < i ==> #[trigger] r@[k] == energy_spec(*w, data@[k]@),
        decreases data@.len() - i,
    {
        let e = calculate_energy(&data[i], w);
        r.push(e);
        i = i + 1;
    }
    r
}

/// Relative deviation of `e` from the reference energy `e0`:
/// `|e - e0| / |e0|`.
pub open spec fn relative_error_spec<T: Scalar>(e: T, e0: T) -> T {
    e.minus_spec(e0).abs_spec().div_spec(e0.abs_spec())
}

/// The relative-error series of an energy series against its first entry.
pub fn relative_error_series<T: Scalar>(energies: &Vec<T>) -> (r: Vec<T>)
    requires
        energies@.len() >= 1,
    ensures
        r@.len() == energies@.len(),
        forall|k: int|
            0 <= k < energies@.len() ==> #[trigger] r@[k] == relative_error_spec(
                energies@[k],
                energies@[0],
            ),
{
    let e0 = energies[0];
    let mut r: Vec<T> = Vec::new();
    let mut i: usize = 0;
    while i < energies.len()
        invariant
            i <= energies@.len(),
            e0 == energies@[0],
            energies@.len() >= 1,
            r@.len() == i,
            forall|k: int|
                0 <= k < i ==> #[trigger] r@[k] == relative_error_spec(energies@[k], energies@[0]),
        decreases energies@.len() - i,
    {
        r.push(energies[i].minus(e0).abs().div(e0.abs()));
        i = i + 1;
    }
    r
}

/// An error value as it is plotted: itself when strictly above the floor,
/// the floor otherwise — also when the value is incomparable with the
/// floor, so the floor absorbs whatever a pathological state produced.
pub open spec fn floored_spec<T: Scalar>(e: T, floor: T) -> T {
    if floor.lt_spec(e) {
        e
    } else {
        floor
    }
}

/// The series as plotted on a log scale: every entry clamped from below
/// by `floor`.
pub fn log_floor_series<T: Scalar>(errors: &Vec<T>, floor: T) -> (r: Vec<T>)
    ensures
        r@.len() == errors@.len(),
        forall|k: int|
            0 <= k < errors@.len() ==> #[trigger] r@[k] == floored_spec(errors@[k], floor),
{
    let mut r: Vec<T> = Vec::new();
    let mut i: usize = 0;
    while i < errors.len()
        invariant
            i <= errors@.len(),
            r@.len() == i,
            forall|k: int| 0 <= k < i ==> #[trigger] r@[k] == floored_spec(errors@[k], floor),
        decreases errors@.len() - i,
    {
        let e = errors[i];
        if floor.lt(e) {
            r.push(e);
        } else {
            r.push(floor);
        }
        i = i + 1;
    }
    r
}

/// Log-floor property: every entry of a floored series is the floor
/// itself or lies strictly above it — nothing plotted falls below the
/// floor.
pub proof fn lemma_log_floor_bound<T: Scalar>(errors: Seq<T>, floor: T)
    ensures
        forall|k: int|
            0 <= k < errors.len() ==> (#[trigger] floored_spec(errors[k], floor)) == floor
                || floor.lt_spec(floored_spec(errors[k], floor)),
{
}

/// The full diagnostic pipeline of one trajectory: energy of every state,
/// relative error against the initial energy, and the plotting floor.
pub fn energy_error_series<T: Scalar>(data: &Vec<Vec<T>>, w: &ThreeBody<T>, floor: T) -> (r: Vec<
    T,
>)
    requires
        data@.len() >= 1,
        forall|k: int| 0 <= k < data@.len() ==> (#[trigger] data@[k])@.len() == STATE_DIM,
    ensures
        r@.len() == data@.len(),
        forall|k: int|
            0 <= k < data@.len() ==> #[trigger] r@[k] == floored_spec(
                relative_error_spec(
                    energy_spec(*w, data@[k]@),
                    energy_spec(*w, data@[0]@),
                ),
                floor,
            ),
{
    let energies = energy_series(data, w);
    let errors = relative_error_series(&energies);
    log_floor_series(&errors, floor)
}

} // verus!
