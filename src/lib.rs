//! Automatic differentiation of scalar computations.
//!
//! The reverse-mode engine records each arithmetic operation on a caller-owned
//! [`GradientTape`] and replays the tape backwards to accumulate adjoints
//! ([`grad`]). A forward-mode dual number, [`Value`], propagates a value and
//! its tangent together. Both are generic over the [`Scalar`] they compute
//! with.

pub mod examples;
pub mod forward;
pub mod grad;
pub mod scalar;
pub mod tape;
pub mod variable;

pub use forward::Value;
pub use grad::grad;
pub use scalar::Scalar;
pub use tape::{CloneableFn, GradientTape, LocalGrad, TapeEntry};
pub use variable::Variable;
