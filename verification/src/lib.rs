//! Benchmark objective functions and a stochastic perturbation operator for
//! external optimization drivers.
//!
//! The core of the library is the Rosenbrock surface
//! `f(x, y) = (a - x)^2 + b * (y - x^2)^2` together with its exact analytic
//! gradient and Hessian, exposed over two parameter representations, and a
//! bounded random-walk neighbor generator for simulated-annealing-style
//! drivers. All quantities are held in decimal fixed point (see [`fixed`]),
//! so every formula is evaluated exactly and its value is pinned down by the
//! contracts.
//!
//! Dimensionality policy: the shipped surface is two-dimensional, and cost,
//! gradient and Hessian reject any parameter that is not of length two with
//! a typed `InvalidInput` failure rather than a panic; the perturbation
//! operator works for any nonzero length matching its bounds.

pub mod anneal;
pub mod error;
pub mod fixed;
pub mod matrix;
pub mod objective;
pub mod rng;
pub mod surface;
