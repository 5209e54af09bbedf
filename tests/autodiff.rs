use autodiff::examples::{f, g, multivariate_example, univariate_example};
use autodiff::grad::grad;
use autodiff::tape::GradientTape;
use autodiff::variable::Variable;
use autodiff::{Scalar, Value};

/// Single-precision floats as the engines' scalar.
#[derive(Clone, Copy, Debug, PartialEq)]
struct F32(f32);

impl Scalar for F32 {
    fn spec_zero() -> F32 {
        F32::zero()
    }
    fn spec_one() -> F32 {
        F32::one()
    }
    fn spec_from_u8(n: u8) -> F32 {
        F32::from_u8(n)
    }
    fn spec_plus(self, rhs: F32) -> F32 {
        self.plus(rhs)
    }
    fn spec_minus(self, rhs: F32) -> F32 {
        self.minus(rhs)
    }
    fn spec_times(self, rhs: F32) -> F32 {
        self.times(rhs)
    }
    fn spec_divide(self, rhs: F32) -> F32 {
        self.divide(rhs)
    }
    fn spec_negate(self) -> F32 {
        self.negate()
    }
    fn spec_is_positive(self) -> bool {
        self.is_positive()
    }
    fn zero() -> F32 {
        F32(0.0)
    }
    fn one() -> F32 {
        F32(1.0)
    }
    fn from_u8(n: u8) -> F32 {
        F32(n as f32)
    }
    fn plus(self, rhs: F32) -> F32 {
        F32(self.0 + rhs.0)
    }
    fn minus(self, rhs: F32) -> F32 {
        F32(self.0 - rhs.0)
    }
    fn times(self, rhs: F32) -> F32 {
        F32(self.0 * rhs.0)
    }
    fn divide(self, rhs: F32) -> F32 {
        F32(self.0 / rhs.0)
    }
    fn negate(self) -> F32 {
        F32(-self.0)
    }
    fn is_positive(self) -> bool {
        self.0 > 0.0
    }
}

fn named(value: f32, name: &str, tape: &mut GradientTape<F32>) -> Variable<F32> {
    Variable::new(F32(value), Some(name.to_string()), tape)
}

fn unnamed(value: f32, tape: &mut GradientTape<F32>) -> Variable<F32> {
    Variable::new(F32(value), None, tape)
}

fn value_of(g: Option<F32>) -> f32 {
    g.unwrap().0
}

// Variables and automatic names.

#[test]
fn backprop_test_variable() {
    let mut tape = GradientTape::new();
    let x = named(3.0, "x", &mut tape);
    assert_eq!(x.value.0, 3.0);
    assert_eq!(x.name, "x");
}

#[test]
fn backprop_test_auto_name_generation() {
    let mut tape = GradientTape::new();
    let v0 = unnamed(3.0, &mut tape);
    let v1 = unnamed(3.0, &mut tape);
    assert_eq!(v0.name, "v0");
    assert_eq!(v1.name, "v1");
}

#[test]
fn variable_test_variable() {
    let mut tape = GradientTape::new();
    let x = named(3.0, "x", &mut tape);
    assert_eq!(x.value.0, 3.0);
    assert_eq!(x.name, "x");
}

#[test]
fn variable_test_auto_name_generation() {
    let mut tape = GradientTape::new();
    let v0 = unnamed(3.0, &mut tape);
    let v1 = unnamed(3.0, &mut tape);
    assert_eq!(v0.name, "v0");
    assert_eq!(v1.name, "v1");
}

#[test]
fn explicit_names_leave_the_counter_alone() {
    let mut tape = GradientTape::new();
    let _a = named(1.0, "a", &mut tape);
    let v = unnamed(2.0, &mut tape);
    assert_eq!(v.name, "v0");
}

#[test]
fn auto_names_count_past_one_digit() {
    let mut tape = GradientTape::new();
    let mut last = unnamed(0.0, &mut tape);
    for _ in 0..12 {
        last = unnamed(0.0, &mut tape);
    }
    assert_eq!(last.name, "v12");
}

#[test]
fn operators_name_their_results() {
    let mut tape = GradientTape::new();
    let a = named(2.0, "a", &mut tape);
    let b = named(3.0, "b", &mut tape);
    let c = a.add(&b, &mut tape);
    let d = c.mul(&a, &mut tape);
    assert_eq!(c.name, "v0");
    assert_eq!(d.name, "v1");
    assert_eq!(tape.entries().len(), 2);
}

// Forward values of the recorded operators.

#[test]
fn test_simple_add() {
    let mut tape = GradientTape::new();
    let a = unnamed(2.0, &mut tape);
    let b = unnamed(3.0, &mut tape);
    let c = a.add(&b, &mut tape);
    assert_eq!(c.value.0, 5.0);
}

#[test]
fn test_simple_sub() {
    let mut tape = GradientTape::new();
    let a = unnamed(2.5, &mut tape);
    let b = unnamed(0.5, &mut tape);
    let c = a.sub(&b, &mut tape);
    assert_eq!(c.value.0, 2.0);
}

#[test]
fn test_simple_mul() {
    let mut tape = GradientTape::new();
    let a = unnamed(2.0, &mut tape);
    let b = unnamed(3.0, &mut tape);
    let c = a.mul(&b, &mut tape);
    assert_eq!(c.value.0, 6.0);
}

#[test]
fn test_simple_div() {
    let mut tape = GradientTape::new();
    let a = unnamed(12.0, &mut tape);
    let b = unnamed(3.0, &mut tape);
    let c = a.div(&b, &mut tape);
    assert_eq!(c.value.0, 4.0);
}

#[test]
fn test_simple_neg() {
    let mut tape = GradientTape::new();
    let a = unnamed(3.0, &mut tape);
    let b = a.neg(&mut tape);
    assert_eq!(b.value.0, -3.0);
}

#[test]
fn division_by_zero_follows_the_scalar() {
    let mut tape = GradientTape::new();
    let a = named(1.0, "a", &mut tape);
    let z = named(0.0, "z", &mut tape);
    let q = a.div(&z, &mut tape);
    assert_eq!(q.value.0, f32::INFINITY);
    let d = grad(&tape, &q, &vec![a, z]);
    assert_eq!(value_of(d[0]), f32::INFINITY);
    assert!(value_of(d[1]).is_infinite());
}

// Gradients.

#[test]
fn test_mul_backprop() {
    let mut tape = GradientTape::new();
    let a = named(3.0, "a", &mut tape);
    let b = named(2.0, "b", &mut tape);
    let loss = a.mul(&b, &mut tape);
    let da = value_of(grad(&tape, &loss, &vec![a])[0]);
    let db = value_of(grad(&tape, &loss, &vec![b])[0]);
    assert_eq!(da, 2.0);
    assert_eq!(db, 3.0);
}

#[test]
fn test_backprop_simple_add() {
    let mut tape = GradientTape::new();
    let a = named(3.0, "a", &mut tape);
    let b = named(2.0, "b", &mut tape);
    let loss = a.add(&b, &mut tape);
    let dloss_d = grad(&tape, &loss, &vec![a, b]);
    assert_eq!(value_of(dloss_d[0]), 1.0);
    assert_eq!(value_of(dloss_d[1]), 1.0);
}

#[test]
fn test_backprop_simple_sub() {
    let mut tape = GradientTape::new();
    let a = named(3.0, "a", &mut tape);
    let b = named(2.0, "b", &mut tape);
    let loss = a.sub(&b, &mut tape);
    let dloss_d = grad(&tape, &loss, &vec![a, b]);
    assert_eq!(value_of(dloss_d[0]), 1.0);
    assert_eq!(value_of(dloss_d[1]), -1.0);
}

#[test]
fn test_backprop_simple_mul() {
    let mut tape = GradientTape::new();
    let a = named(3.0, "a", &mut tape);
    let b = named(2.0, "b", &mut tape);
    let loss = a.mul(&b, &mut tape);
    let dloss_d = grad(&tape, &loss, &vec![a, b]);
    assert_eq!(value_of(dloss_d[0]), 2.0);
    assert_eq!(value_of(dloss_d[1]), 3.0);
}

#[test]
fn test_backprop_simple_div() {
    let mut tape = GradientTape::new();
    let a = named(3.0, "a", &mut tape);
    let b = named(2.0, "b", &mut tape);
    let loss = a.div(&b, &mut tape);
    let dloss_d = grad(&tape, &loss, &vec![a, b]);
    assert_eq!(value_of(dloss_d[0]), 0.5);
    assert_eq!(value_of(dloss_d[1]), -0.75);
}

#[test]
fn test_backprop_simple_neg() {
    let mut tape = GradientTape::new();
    let a = unnamed(3.0, &mut tape);
    let loss = a.neg(&mut tape);
    let dloss_d = grad(&tape, &loss, &vec![a]);
    assert_eq!(value_of(dloss_d[0]), -1.0);
}

#[test]
fn test_backprop_zero_grad() {
    let mut tape = GradientTape::new();
    let a = named(3.0, "a", &mut tape);
    let b = named(2.0, "b", &mut tape);
    let loss = a.mul(&a, &mut tape);
    let dloss_d = grad(&tape, &loss, &vec![a, b]);
    assert_eq!(value_of(dloss_d[0]), 6.0);
    assert_eq!(dloss_d.get(1), Some(&None));
}

#[test]
fn self_multiplication_accumulates() {
    let mut tape = GradientTape::new();
    let a = named(3.0, "a", &mut tape);
    let loss = a.mul(&a, &mut tape);
    assert_eq!(grad(&tape, &loss, &vec![a]), vec![Some(F32(6.0))]);
}

#[test]
fn seed_of_a_leaf_is_one() {
    let mut tape = GradientTape::new();
    let x = named(7.0, "x", &mut tape);
    assert_eq!(grad(&tape, &x, &vec![x.clone()]), vec![Some(F32(1.0))]);
}

#[test]
fn seed_of_a_recorded_result_is_one() {
    let mut tape = GradientTape::new();
    let a = named(3.0, "a", &mut tape);
    let b = named(2.0, "b", &mut tape);
    let x = a.mul(&b, &mut tape);
    let _later = x.add(&a, &mut tape);
    assert_eq!(grad(&tape, &x, &vec![x.clone()]), vec![Some(F32(1.0))]);
}

#[test]
fn gradients_follow_the_order_asked() {
    let mut tape = GradientTape::new();
    let x = named(3.0, "x", &mut tape);
    let y = named(2.0, "y", &mut tape);
    let loss = x.mul(&y, &mut tape);
    let xy = grad(&tape, &loss, &vec![x.clone(), y.clone()]);
    let yx = grad(&tape, &loss, &vec![y, x]);
    assert_eq!(xy, vec![Some(F32(2.0)), Some(F32(3.0))]);
    assert_eq!(yx, vec![Some(F32(3.0)), Some(F32(2.0))]);
}

#[test]
fn grad_twice_gives_the_same_result() {
    let mut tape = GradientTape::new();
    let a = named(3.0, "a", &mut tape);
    let b = named(2.0, "b", &mut tape);
    let c = a.div(&b, &mut tape);
    let loss = c.sub(&a, &mut tape);
    let first = grad(&tape, &loss, &vec![a.clone(), b.clone()]);
    let second = grad(&tape, &loss, &vec![a, b]);
    assert_eq!(first, second);
    assert_eq!(tape.entries().len(), 2);
}

#[test]
fn clear_restarts_names_at_v0() {
    let mut tape = GradientTape::new();
    let a = unnamed(1.0, &mut tape);
    let b = unnamed(2.0, &mut tape);
    let _c = a.add(&b, &mut tape);
    tape.clear();
    assert_eq!(tape.entries().len(), 0);
    let v0 = unnamed(3.0, &mut tape);
    let v1 = unnamed(4.0, &mut tape);
    assert_eq!(v0.name, "v0");
    assert_eq!(v1.name, "v1");
}

#[test]
fn chain_through_shared_intermediate() {
    // loss = (a * b) + (a * b) * a, at a = 2, b = 5:
    // d/da = b + 2 a b = 25, d/db = a + a^2 = 6.
    let mut tape = GradientTape::new();
    let a = named(2.0, "a", &mut tape);
    let b = named(5.0, "b", &mut tape);
    let ab = a.mul(&b, &mut tape);
    let aba = ab.mul(&a, &mut tape);
    let loss = ab.add(&aba, &mut tape);
    let d = grad(&tape, &loss, &vec![a, b, ab]);
    assert_eq!(d, vec![Some(F32(25.0)), Some(F32(6.0)), Some(F32(3.0))]);
}

#[test]
fn entries_after_the_loss_are_ignored() {
    let mut tape = GradientTape::new();
    let a = named(3.0, "a", &mut tape);
    let b = named(2.0, "b", &mut tape);
    let loss = a.mul(&b, &mut tape);
    let _other = loss.mul(&a, &mut tape);
    let d = grad(&tape, &loss, &vec![a, b]);
    assert_eq!(d, vec![Some(F32(2.0)), Some(F32(3.0))]);
}

// Forward mode.

#[test]
fn value_test_default_value() {
    let x = Value::passive(F32(5.0));
    assert_eq!(x.value.0, 5.0);
    assert_eq!(x.der.0, 0.0);
}

#[test]
fn test_neg() {
    let x = Value::new(F32(1.0), F32(2.0)).neg();
    assert_eq!(x.value.0, -1.0);
    assert_eq!(x.der.0, -2.0);
}

#[test]
fn test_pos_relu_operator() {
    let x = Value::new(F32(1.5), F32(2.5));
    let y = x.relu();
    assert_eq!(y.value, x.value);
    assert_eq!(y.der, x.der);
}

#[test]
fn test_neg_relu_operator() {
    let x = Value::new(F32(-1.5), F32(2.5));
    let y = x.relu();
    assert_eq!(y.value.0, 0.0);
    assert_eq!(y.der.0, 0.0);
}

#[test]
fn test_zero_relu_operator() {
    let x = Value::new(F32(0.0), F32(2.5));
    let y = x.relu();
    assert_eq!(y.value.0, 0.0);
    assert_eq!(y.der.0, 0.0);
}

#[test]
fn forward_product_and_quotient() {
    let u = Value::new(F32(3.0), F32(1.0));
    let v = Value::new(F32(2.0), F32(0.0));
    let p = u.mul(v);
    assert_eq!((p.value.0, p.der.0), (6.0, 2.0));
    let q = u.div(v);
    assert_eq!((q.value.0, q.der.0), (1.5, 0.5));
    let s = u.sub(v).add(u);
    assert_eq!((s.value.0, s.der.0), (4.0, 2.0));
}

#[test]
fn univariate_example_at_two() {
    let y = univariate_example::<F32>();
    assert_eq!(y.value.0, 13.0);
    assert_eq!(y.der.0, 11.5);
}

#[test]
fn f_at_one_seeded() {
    let y = f(Value::new(F32(1.0), F32(1.0)));
    // 3 + 2 = 5; 6 - 2 = 4
    assert_eq!((y.value.0, y.der.0), (5.0, 4.0));
}

#[test]
fn multivariate_example_gradient() {
    let grad_g = multivariate_example::<F32>();
    assert_eq!(grad_g, vec![F32(3.0), F32(2.0)]);
}

#[test]
fn g_multiplies() {
    let y = g(Value::new(F32(2.0), F32(1.0)), Value::new(F32(3.0), F32(0.0)));
    assert_eq!((y.value.0, y.der.0), (6.0, 3.0));
}
