//! Right-hand sides: the planar three-body gravitational system and the
//! linear decay test problem, behind one trait the integrators are generic
//! over.
//!
//! A state vector of the three-body system is an ordered sequence of
//! exactly 12 scalars, laid out as
//! `[x1, y1, x2, y2, x3, y3, vx1, vy1, vx2, vy2, vx3, vy3]`:
//! entries 0..5 are the positions of the three bodies, entries 6..11 their
//! velocities.  The derivative vector has the same shape: its first six
//! entries are the velocities, its last six the accelerations from the
//! pairwise inverse-cube attractions.

use vstd::prelude::*;

use crate::scalar::Scalar;

verus! {

/// Number of entries of a three-body state vector.
pub const STATE_DIM: usize = 12;

/// An autonomous-style right-hand side `f(y, t)`: a map from a state
/// vector and a time to the time-derivative of the state.
///
/// The executable `eval` is pinned to the spec function `eval_spec`, a
/// function of the state and time alone.  That is the purity the
/// integrators rely on: evaluating twice on the same input gives the same
/// derivative, and `eval` cannot mutate the state it is handed.
pub trait Dynamics<T: Scalar>: Sized {
    /// The one state-vector length this right-hand side accepts.
    spec fn dim(&self) -> nat;

    /// Meaning of [`Dynamics::eval`].
    spec fn eval_spec(&self, y: Seq<T>, t: T) -> Seq<T>;

    /// The derivative of the state `y` at time `t`.
    fn eval(&self, y: &Vec<T>, t: T) -> (r: Vec<T>)
        requires
            y@.len() == self.dim(),
        ensures
            r@ == self.eval_spec(y@, t),
            r@.len() == self.dim(),
    ;
}

/// The planar three-body gravitational world: the gravitational constant
/// and the three masses, in the scalar arithmetic the simulation runs on.
pub struct ThreeBody<T> {
    /// Gravitational constant.
    pub g: T,
    /// Mass of the first body.
    pub m1: T,
    /// Mass of the second body.
    pub m2: T,
    /// Mass of the third body.
    pub m3: T,
}

/// The derivative of a 12-entry three-body state: velocities first, then
/// the accelerations `a_i = g * sum_{j != i} m_j * (p_j - p_i) / r_ij^3`,
/// where `r_ij^3` is the squared distance taken through a square root and
/// then cubed — the exact operation tree the executable code performs.
pub open spec fn three_body_deriv<T: Scalar>(w: ThreeBody<T>, y: Seq<T>) -> Seq<T> {
    let x1 = y[0];
    let y1 = y[1];
    let x2 = y[2];
    let y2 = y[3];
    let x3 = y[4];
    let y3 = y[5];
    let dx12 = x2.minus_spec(x1);
    let dy12 = y2.minus_spec(y1);
    let dx13 = x3.minus_spec(x1);
    let dy13 = y3.minus_spec(y1);
    let dx23 = x3.minus_spec(x2);
    let dy23 = y3.minus_spec(y2);
    let r12 = dx12.sq_spec().plus_spec(dy12.sq_spec()).sqrt_spec().cube_spec();
    let r13 = dx13.sq_spec().plus_spec(dy13.sq_spec()).sqrt_spec().cube_spec();
    let r23 = dx23.sq_spec().plus_spec(dy23.sq_spec()).sqrt_spec().cube_spec();
    let ax1 = w.g.times_spec(
        w.m2.times_spec(dx12).div_spec(r12).plus_spec(w.m3.times_spec(dx13).div_spec(r13)),
    );
    let ay1 = w.g.times_spec(
        w.m2.times_spec(dy12).div_spec(r12).plus_spec(w.m3.times_spec(dy13).div_spec(r13)),
    );
    let ax2 = w.g.times_spec(
        w.m1.neg_spec().times_spec(dx12).div_spec(r12).plus_spec(
            w.m3.times_spec(dx23).div_spec(r23),
        ),
    );
    let ay2 = w.g.times_spec(
        w.m1.neg_spec().times_spec(dy12).div_spec(r12).plus_spec(
            w.m3.times_spec(dy23).div_spec(r23),
        ),
    );
    let ax3 = w.g.times_spec(
        w.m1.neg_spec().times_spec(dx13).div_spec(r13).minus_spec(
            w.m2.times_spec(dx23).div_spec(r23),
        ),
    );
    let ay3 = w.g.times_spec(
        w.m1.neg_spec().times_spec(dy13).div_spec(r13).minus_spec(
            w.m2.times_spec(dy23).div_spec(r23),
        ),
    );
    seq![y[6], y[7], y[8], y[9], y[10], y[11], ax1, ay1, ax2, ay2, ax3, ay3]
}

/// The three-body right-hand side.  The time is unused — the system is
/// autonomous — but carried for generality.  No singularity handling: when
/// two bodies coincide the cubed distance is a division-free zero and the
/// result holds whatever the scalar's total division returns there.
pub fn three_body<T: Scalar>(w: &ThreeBody<T>, y: &Vec<T>, _t: T) -> (r: Vec<T>)
    requires
        y@.len() == STATE_DIM,
    ensures
        r@ == three_body_deriv(*w, y@),
        r@.len() == STATE_DIM,
{
    let x1 = y[0];
    let y1 = y[1];
    let x2 = y[2];
    let y2 = y[3];
    let x3 = y[4];
    let y3 = y[5];
    let vx1 = y[6];
    let vy1 = y[7];
    let vx2 = y[8];
    let vy2 = y[9];
    let vx3 = y[10];
    let vy3 = y[11];
    let dx12 = x2.minus(x1);
    let dy12 = y2.minus(y1);
    let dx13 = x3.minus(x1);
    let dy13 = y3.minus(y1);
    let dx23 = x3.minus(x2);
    let dy23 = y3.minus(y2);
    let r12 = dx12.sq().plus(dy12.sq()).sqrt().cube();
    let r13 = dx13.sq().plus(dy13.sq()).sqrt().cube();
    let r23 = dx23.sq().plus(dy23.sq()).sqrt().cube();
    let ax1 = w.g.times(w.m2.times(dx12).div(r12).plus(w.m3.times(dx13).div(r13)));
    let ay1 = w.g.times(w.m2.times(dy12).div(r12).plus(w.m3.times(dy13).div(r13)));
    let ax2 = w.g.times(w.m1.neg().times(dx12).div(r12).plus(w.m3.times(dx23).div(r23)));
    let ay2 = w.g.times(w.m1.neg().times(dy12).div(r12).plus(w.m3.times(dy23).div(r23)));
    let ax3 = w.g.times(w.m1.neg().times(dx13).div(r13).minus(w.m2.times(dx23).div(r23)));
    let ay3 = w.g.times(w.m1.neg().times(dy13).div(r13).minus(w.m2.times(dy23).div(r23)));
    let mut r: Vec<T> = Vec::new();
    r.push(vx1);
    r.push(vy1);
    r.push(vx2);
    r.push(vy2);
    r.push(vx3);
    r.push(vy3);
    r.push(ax1);
    r.push(ay1);
    r.push(ax2);
    r.push(ay2);
    r.push(ax3);
    r.push(ay3);
    proof {
        assert(r@ =~= three_body_deriv(*w, y@));
    }
    r
}

impl<T: Scalar> Dynamics<T> for ThreeBody<T> {
    open spec fn dim(&self) -> nat {
        STATE_DIM as nat
    }

    open spec fn eval_spec(&self, y: Seq<T>, t: T) -> Seq<T> {
        three_body_deriv(*self, y)
    }

    fn eval(&self, y: &Vec<T>, t: T) -> (r: Vec<T>) {
        three_body(self, y, t)
    }
}

/// The linear decay problem `y' = -y`, entry by entry: the classical probe
/// for an integrator's order of accuracy.
pub struct LinearDecay {
    /// The state-vector length this instance accepts.
    pub n: usize,
}

/// Entrywise negation of the state: the derivative under linear decay.
pub open spec fn linear_decay_deriv<T: Scalar>(y: Seq<T>) -> Seq<T> {
    Seq::new(y.len(), |i: int| y[i].neg_spec())
}

impl<T: Scalar> Dynamics<T> for LinearDecay {
    open spec fn dim(&self) -> nat {
        self.n as nat
    }

    open spec fn eval_spec(&self, y: Seq<T>, t: T) -> Seq<T> {
        linear_decay_deriv(y)
    }

    fn eval(&self, y: &Vec<T>, _t: T) -> (r: Vec<T>) {
        let mut r: Vec<T> = Vec::new();
        let mut i: usize = 0;
        while i < y.len()
            invariant
                i <= y@.len(),
                r@.len() == i,
                forall|j: int| 0 <= j < i ==> r@[j] == y@[j].neg_spec(),
            decreases y@.len() - i,
        {
            r.push(y[i].neg());
            i = i + 1;
        }
        proof {
            assert(r@ =~= linear_decay_deriv(y@));
        }
        r
    }
}

/// Dynamics functions are pure: two evaluations on the same state and time
/// agree, because the contract of [`Dynamics::eval`] pins each result to
/// `eval_spec`, a function of the state and the time alone.  (The state
/// itself is taken by shared reference, so an evaluation cannot change
/// it.)
pub proof fn lemma_dynamics_pure<T: Scalar, D: Dynamics<T>>(
    f: D,
    y: Seq<T>,
    t: T,
    r1: Seq<T>,
    r2: Seq<T>,
)
    requires
        r1 == f.eval_spec(y, t),
        r2 == f.eval_spec(y, t),
    ensures
        r1 == r2,
{
}

/// Derivative structure: the first six entries of the three-body
/// derivative are exactly the last six entries of the state — positions
/// move with the recorded velocities.
pub proof fn lemma_derivative_structure<T: Scalar>(w: ThreeBody<T>, y: Seq<T>)
    requires
        y.len() == STATE_DIM,
    ensures
        forall|i: int| 0 <= i < 6 ==> three_body_deriv(w, y)[i] == y[i + 6],
{
    let d = three_body_deriv(w, y);
    assert(d[0] == y[6]);
    assert(d[1] == y[7]);
    assert(d[2] == y[8]);
    assert(d[3] == y[9]);
    assert(d[4] == y[10]);
    assert(d[5] == y[11]);
}

} // verus!
