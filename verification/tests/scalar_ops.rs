use threebody::scalar::Scalar;

/// A machine-float scalar: the arithmetic the simulator is meant to run on.
/// Every operation is a pure function of its operands, which is all the
/// `Scalar` contract asks.
#[derive(Clone, Copy, PartialEq, Debug)]
struct Real(f64);

impl Scalar for Real {
    fn plus_spec(self, rhs: Self) -> Self {
        self.plus(rhs)
    }
    fn minus_spec(self, rhs: Self) -> Self {
        self.minus(rhs)
    }
    fn times_spec(self, rhs: Self) -> Self {
        self.times(rhs)
    }
    fn div_spec(self, rhs: Self) -> Self {
        self.div(rhs)
    }
    fn neg_spec(self) -> Self {
        self.neg()
    }
    fn abs_spec(self) -> Self {
        self.abs()
    }
    fn sq_spec(self) -> Self {
        self.sq()
    }
    fn sqrt_spec(self) -> Self {
        self.sqrt()
    }
    fn cube_spec(self) -> Self {
        self.cube()
    }
    fn lt_spec(self, rhs: Self) -> bool {
        self.lt(rhs)
    }
    fn two_spec() -> Self {
        Self::two()
    }
    fn six_spec() -> Self {
        Self::six()
    }
    fn half_spec() -> Self {
        Self::half()
    }
    fn plus(self, rhs: Self) -> Self {
        Real(self.0 + rhs.0)
    }
    fn minus(self, rhs: Self) -> Self {
        Real(self.0 - rhs.0)
    }
    fn times(self, rhs: Self) -> Self {
        Real(self.0 * rhs.0)
    }
    fn div(self, rhs: Self) -> Self {
        Real(self.0 / rhs.0)
    }
    fn neg(self) -> Self {
        Real(-self.0)
    }
    fn abs(self) -> Self {
        Real(self.0.abs())
    }
    fn sq(self) -> Self {
        Real(self.0.powi(2))
    }
    fn sqrt(self) -> Self {
        Real(self.0.sqrt())
    }
    fn cube(self) -> Self {
        Real(self.0.powi(3))
    }
    fn lt(self, rhs: Self) -> bool {
        self.0 < rhs.0
    }
    fn two() -> Self {
        Real(2.0)
    }
    fn six() -> Self {
        Real(6.0)
    }
    fn half() -> Self {
        Real(0.5)
    }
}

#[test]
fn real_ops() {
    assert_eq!(Real(2.0).plus(Real(3.0)), Real(5.0));
    assert_eq!(Real(2.0).times(Real(3.0)), Real(6.0));
    assert_eq!(Real(9.0).sqrt(), Real(3.0));
    assert_eq!(Real(-2.5).abs(), Real(2.5));
    assert!(Real(1.0).lt(Real(2.0)));
    assert!(!Real(2.0).lt(Real(2.0)));
}

#[test]
fn wrapping_int_ops() {
    assert_eq!(2i64.plus(3), 5);
    assert_eq!(i64::MAX.plus(1), i64::MIN);
    assert_eq!(2i64.minus(5), -3);
    assert_eq!(4i64.times(-3), -12);
    assert_eq!(7i64.div(2), 3);
    assert_eq!((-7i64).div(2), -3);
    assert_eq!(7i64.div(0), 0);
    assert_eq!(i64::MIN.div(-1), i64::MIN);
    assert_eq!(5i64.neg(), -5);
    assert_eq!((-5i64).abs(), 5);
    assert_eq!(3i64.sq(), 9);
    assert_eq!(3i64.cube(), 27);
    assert_eq!(15i64.sqrt(), 3);
    assert_eq!(16i64.sqrt(), 4);
    assert_eq!(17i64.sqrt(), 4);
    assert_eq!((-9i64).sqrt(), 0);
    assert_eq!(0i64.sqrt(), 0);
    assert_eq!(i64::MAX.sqrt(), 3037000499);
}
