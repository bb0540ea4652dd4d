use threebody::dynamics::{three_body, Dynamics, LinearDecay, ThreeBody};
use threebody::energy::{calculate_energy, energy_error_series, log_floor_series};
use threebody::harness::{component_series, frame_steps, run_ladder};
use threebody::integrate::{euler, rk4};
use threebody::scalar::Scalar;

/// A machine-float scalar for the simulator.  Every operation is a pure
/// function of its operands, which is all the `Scalar` contract asks.
#[derive(Clone, Copy, PartialEq, Debug)]
struct Real(f64);

impl Scalar for Real {
    fn plus_spec(self, rhs: Self) -> Self {
        self.plus(rhs)
    }
    fn minus_spec(self, rhs: Self) -> Self {
        self.minus(rhs)
    }
    fn times_spec(self, rhs: Self) -> Self {
        self.times(rhs)
    }
    fn div_spec(self, rhs: Self) -> Self {
        self.div(rhs)
    }
    fn neg_spec(self) -> Self {
        self.neg()
    }
    fn abs_spec(self) -> Self {
        self.abs()
    }
    fn sq_spec(self) -> Self {
        self.sq()
    }
    fn sqrt_spec(self) -> Self {
        self.sqrt()
    }
    fn cube_spec(self) -> Self {
        self.cube()
    }
    fn lt_spec(self, rhs: Self) -> bool {
        self.lt(rhs)
    }
    fn two_spec() -> Self {
        Self::two()
    }
    fn six_spec() -> Self {
        Self::six()
    }
    fn half_spec() -> Self {
        Self::half()
    }
    fn plus(self, rhs: Self) -> Self {
        Real(self.0 + rhs.0)
    }
    fn minus(self, rhs: Self) -> Self {
        Real(self.0 - rhs.0)
    }
    fn times(self, rhs: Self) -> Self {
        Real(self.0 * rhs.0)
    }
    fn div(self, rhs: Self) -> Self {
        Real(self.0 / rhs.0)
    }
    fn neg(self) -> Self {
        Real(-self.0)
    }
    fn abs(self) -> Self {
        Real(self.0.abs())
    }
    fn sq(self) -> Self {
        Real(self.0.powi(2))
    }
    fn sqrt(self) -> Self {
        Real(self.0.sqrt())
    }
    fn cube(self) -> Self {
        Real(self.0.powi(3))
    }
    fn lt(self, rhs: Self) -> bool {
        self.0 < rhs.0
    }
    fn two() -> Self {
        Real(2.0)
    }
    fn six() -> Self {
        Real(6.0)
    }
    fn half() -> Self {
        Real(0.5)
    }
}

fn world() -> ThreeBody<Real> {
    ThreeBody { g: Real(1.0), m1: Real(1.0), m2: Real(1.0), m3: Real(1.0) }
}

/// The compiled-in initial state of the default three-body problem.
fn canonical() -> Vec<Real> {
    [-1.0, 0.0, 1.0, 0.0, 0.0, 0.5, 0.0, 1.0, 0.0, -1.0, 0.0, 0.0]
        .iter()
        .map(|&v| Real(v))
        .collect()
}

fn bits(states: &[Real]) -> Vec<u64> {
    states.iter().map(|r| r.0.to_bits()).collect()
}

#[test]
fn trajectory_length_euler() {
    let w = world();
    let t = euler(&w, canonical(), Real(0.0), Real(0.01), 7);
    assert_eq!(t.len(), 8);
    for state in &t {
        assert_eq!(state.len(), 12);
    }
}

#[test]
fn trajectory_length_rk4() {
    let w = world();
    let t = rk4(&w, canonical(), Real(0.0), Real(0.01), 7);
    assert_eq!(t.len(), 8);
    for state in &t {
        assert_eq!(state.len(), 12);
    }
}

#[test]
fn initial_state_recorded_exactly() {
    let w = world();
    let y0 = canonical();
    let te = euler(&w, y0.clone(), Real(0.0), Real(0.25), 3);
    let tr = rk4(&w, y0.clone(), Real(0.0), Real(0.25), 3);
    assert_eq!(bits(&te[0]), bits(&y0));
    assert_eq!(bits(&tr[0]), bits(&y0));
}

#[test]
fn dynamics_purity() {
    let w = world();
    let y = canonical();
    let before = bits(&y);
    let d1 = three_body(&w, &y, Real(0.0));
    let d2 = three_body(&w, &y, Real(0.0));
    assert_eq!(bits(&d1), bits(&d2));
    assert_eq!(bits(&y), before);
}

#[test]
fn derivative_structure() {
    let w = world();
    let mut y = canonical();
    y[6] = Real(0.125);
    y[9] = Real(-3.5);
    let d = three_body(&w, &y, Real(0.0));
    for i in 0..6 {
        assert_eq!(d[i].0.to_bits(), y[i + 6].0.to_bits());
    }
}

#[test]
fn dynamics_canonical_state() {
    let w = world();
    let d = three_body(&w, &canonical(), Real(0.0));
    let expected_vel = [0.0, 1.0, 0.0, -1.0, 0.0, 0.0];
    for i in 0..6 {
        assert_eq!(d[i].0, expected_vel[i]);
    }
    for i in 6..12 {
        assert!(d[i].0.is_finite());
    }
}

#[test]
fn newton_third_law() {
    let w = world();
    let d = three_body(&w, &canonical(), Real(0.0));
    let ax = d[6].0 + d[8].0 + d[10].0;
    let ay = d[7].0 + d[9].0 + d[11].0;
    assert!(ax.abs() < 1e-12);
    assert!(ay.abs() < 1e-12);
}

#[test]
fn euler_single_step() {
    let w = world();
    let t = euler(&w, canonical(), Real(0.0), Real(0.1), 1);
    assert_eq!(t[1][0].0, -1.0);
    assert_eq!(t[1][1].0, 0.1);
    assert_eq!(t[1][2].0, 1.0);
    assert_eq!(t[1][3].0, -0.1);
}

#[test]
fn rk4_single_step_order() {
    let w = world();
    let te = euler(&w, canonical(), Real(0.0), Real(0.1), 1);
    let tr = rk4(&w, canonical(), Real(0.0), Real(0.1), 1);
    let mut largest: f64 = 0.0;
    for i in 0..6 {
        let diff = (tr[1][i].0 - te[1][i].0).abs();
        assert!(diff < 0.01, "position {} moved by {}", i, diff);
        if diff > largest {
            largest = diff;
        }
    }
    assert!(largest > 0.0);
}

fn decay_error(trajectory: &[Vec<Real>]) -> f64 {
    let exact = (-1.0f64).exp();
    (trajectory.last().unwrap()[0].0 - exact).abs()
}

#[test]
fn rk4_convergence_linear() {
    let f = LinearDecay { n: 1 };
    let coarse = rk4(&f, vec![Real(1.0)], Real(0.0), Real(0.1), 10);
    let fine = rk4(&f, vec![Real(1.0)], Real(0.0), Real(0.05), 20);
    let e_coarse = decay_error(&coarse);
    let e_fine = decay_error(&fine);
    assert!(e_coarse < 1e-4);
    assert!(e_fine < 1e-5);
    assert!(e_coarse / e_fine >= 14.0);
}

#[test]
fn euler_convergence_linear() {
    let f = LinearDecay { n: 1 };
    let coarse = euler(&f, vec![Real(1.0)], Real(0.0), Real(0.1), 10);
    let fine = euler(&f, vec![Real(1.0)], Real(0.0), Real(0.05), 20);
    assert!(decay_error(&coarse) / decay_error(&fine) >= 1.9);
}

#[test]
fn energy_error_trend() {
    let w = world();
    let dt = Real(1e-4);
    let steps = 100_000;
    let te = euler(&w, canonical(), Real(0.0), dt, steps);
    let tr = rk4(&w, canonical(), Real(0.0), dt, steps);
    let floor = Real(1e-15);
    let ee = energy_error_series(&te, &w, floor);
    let er = energy_error_series(&tr, &w, floor);
    let last_euler = ee.last().unwrap().0;
    let last_rk4 = er.last().unwrap().0;
    assert!(
        last_rk4 < last_euler,
        "rk4 error {} not below euler error {}",
        last_rk4,
        last_euler
    );
}

#[test]
fn log_floor_series_bounds() {
    let floor = Real(1e-15);
    let series = vec![Real(0.0), Real(1e-20), Real(1e-15), Real(1e-3), Real(2.0)];
    let clamped = log_floor_series(&series, floor);
    assert_eq!(clamped.len(), series.len());
    for v in &clamped {
        assert!(v.0 >= 1e-15);
    }
    assert_eq!(clamped[0].0, 1e-15);
    assert_eq!(clamped[1].0, 1e-15);
    assert_eq!(clamped[2].0, 1e-15);
    assert_eq!(clamped[3].0, 1e-3);
    assert_eq!(clamped[4].0, 2.0);
}

#[test]
fn log_floor_absorbs_nan() {
    let floor = Real(1e-15);
    let clamped = log_floor_series(&vec![Real(f64::NAN)], floor);
    assert_eq!(clamped[0].0, 1e-15);
}

#[test]
fn energy_exact_value() {
    // Bodies at (0,0), (3,0), (0,4): the three distances are exactly
    // 3, 5 and 4.  Velocities (1,0), (0,2), (2,2).
    let w = world();
    let state: Vec<Real> = [0.0, 0.0, 3.0, 0.0, 0.0, 4.0, 1.0, 0.0, 0.0, 2.0, 2.0, 2.0]
        .iter()
        .map(|&v| Real(v))
        .collect();
    let e = calculate_energy(&state, &w);
    let kinetic = 0.5 * 1.0 * 1.0 + 0.5 * 2.0 * 2.0 + 0.5 * (2.0f64 * 2.0 + 2.0 * 2.0);
    let expected = kinetic + -1.0 * (1.0 / 3.0 + 1.0 / 4.0 + 1.0 / 5.0);
    assert!((e.0 - expected).abs() < 1e-15);
}

#[test]
fn energy_error_series_initial_entry() {
    let w = world();
    let t = rk4(&w, canonical(), Real(0.0), Real(0.001), 5);
    let series = energy_error_series(&t, &w, Real(1e-15));
    assert_eq!(series.len(), 6);
    // The first error is |E0 - E0| / |E0| = 0, lifted to the floor.
    assert_eq!(series[0].0, 1e-15);
}

#[test]
fn frame_steps_counts() {
    let f = frame_steps(100_001, 20);
    assert_eq!(f.len(), 5001);
    for (i, &s) in f.iter().enumerate() {
        assert_eq!(s, i * 20);
        assert!(s < 100_001);
    }
    assert_eq!(frame_steps(0, 20).len(), 0);
    assert_eq!(frame_steps(5, 20), vec![0]);
    assert_eq!(frame_steps(40, 20), vec![0, 20]);
    assert_eq!(frame_steps(41, 20), vec![0, 20, 40]);
    assert_eq!(frame_steps(3, 1), vec![0, 1, 2]);
}

#[test]
fn component_series_extracts() {
    let w = world();
    let t = euler(&w, canonical(), Real(0.0), Real(0.01), 4);
    let xs = component_series(&t, 2);
    assert_eq!(xs.len(), 5);
    for k in 0..5 {
        assert_eq!(xs[k].0.to_bits(), t[k][2].0.to_bits());
    }
}

#[test]
fn run_ladder_shapes() {
    let w = world();
    let y0 = canonical();
    let dts = vec![Real(0.1), Real(0.05)];
    let steps = vec![4usize, 8usize];
    let (es, rs) = run_ladder(&w, &y0, Real(0.0), &dts, &steps);
    assert_eq!(es.len(), 2);
    assert_eq!(rs.len(), 2);
    assert_eq!(es[0].len(), 5);
    assert_eq!(es[1].len(), 9);
    assert_eq!(rs[0].len(), 5);
    assert_eq!(rs[1].len(), 9);
    // Each rung is the same run the integrator alone would produce.
    let alone = euler(&w, y0.clone(), Real(0.0), Real(0.1), 4);
    for k in 0..5 {
        assert_eq!(bits(&es[0][k]), bits(&alone[k]));
    }
}

#[test]
fn euler_exact_wrapping_int() {
    let f = LinearDecay { n: 2 };
    let t = euler(&f, vec![12i64, -6i64], 0, 2, 2);
    // One step: y + 2 * (-y) = -y.
    assert_eq!(t[0], vec![12, -6]);
    assert_eq!(t[1], vec![-12, 6]);
    assert_eq!(t[2], vec![12, -6]);
}

#[test]
fn rk4_exact_wrapping_int() {
    let f = LinearDecay { n: 1 };
    let t = rk4(&f, vec![64i64], 0, 1, 1);
    // k1 = -64; y1 = 64 + (1 * -64) / 2 = 32; k2 = -32;
    // y2 = 64 + (1 * -32) / 2 = 48; k3 = -48; y3 = 64 + 1 * -48 = 16;
    // k4 = -16; y' = 64 + 1 * (-64 - 64 - 96 - 16) / 6 = 64 - 40 = 24.
    assert_eq!(t[1], vec![24]);
}

#[test]
fn axpy_updates_in_place() {
    let mut y = vec![Real(1.0), Real(2.0), Real(-3.0)];
    let d = vec![Real(10.0), Real(-20.0), Real(0.5)];
    threebody::state::axpy(&mut y, Real(0.5), &d);
    assert_eq!(y, vec![Real(6.0), Real(-8.0), Real(-2.75)]);
}

#[test]
fn copy_state_is_deep() {
    let y = vec![Real(1.5), Real(-2.5)];
    let mut c = threebody::state::copy_state(&y);
    assert_eq!(c, y);
    c[0] = Real(9.0);
    assert_eq!(y[0], Real(1.5));
}

#[test]
fn energy_canonical_value() {
    // Kinetic: 1/2 + 1/2 = 1.  Distances: 2, sqrt(1.25), sqrt(1.25).
    let w = world();
    let e = calculate_energy(&canonical(), &w);
    let expected = 1.0 - (0.5 + 2.0 / 1.25f64.sqrt());
    assert!((e.0 - expected).abs() < 1e-12);
}

#[test]
fn dynamics_tolerates_coincident_bodies() {
    // Bodies one and two at the same point: the cubed distance is zero and
    // the accelerations come out non-finite, with no failure signalled.
    let w = world();
    let state: Vec<Real> = [0.0, 0.0, 0.0, 0.0, 1.0, 1.0, 0.0, 0.0, 0.0, 0.0, 0.0, 0.0]
        .iter()
        .map(|&v| Real(v))
        .collect();
    let d = three_body(&w, &state, Real(0.0));
    assert_eq!(d.len(), 12);
    assert!(d[6..12].iter().any(|a| !a.0.is_finite()));
    let e = calculate_energy(&state, &w);
    assert!(!e.0.is_finite());
}

#[test]
fn run_experiment_matches_pieces() {
    let w = world();
    let y0 = canonical();
    let dts = vec![Real(0.01)];
    let steps = vec![10usize];
    let ex = threebody::harness::run_experiment(&w, &y0, Real(0.0), &dts, &steps, Real(1e-15));
    assert_eq!(ex.euler_runs.len(), 1);
    assert_eq!(ex.rk4_runs.len(), 1);
    assert_eq!(ex.euler_errors.len(), 1);
    assert_eq!(ex.rk4_errors.len(), 1);
    assert_eq!(ex.euler_runs[0].len(), 11);
    assert_eq!(ex.euler_errors[0].len(), 11);
    assert_eq!(ex.rk4_errors[0].len(), 11);
    // The per-rung series is exactly the diagnostic of the recorded run.
    let direct = energy_error_series(&ex.euler_runs[0], &w, Real(1e-15));
    assert_eq!(bits(&ex.euler_errors[0]), bits(&direct));
    assert_eq!(ex.euler_errors[0][0].0, 1e-15);
    // And the recorded runs are the integrators' own trajectories.
    let alone = euler(&w, y0.clone(), Real(0.0), Real(0.01), 10);
    for k in 0..11 {
        assert_eq!(bits(&ex.euler_runs[0][k]), bits(&alone[k]));
    }
}
