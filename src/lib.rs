//! Low-degree polynomials: the float-free parts of their behaviour.
//!
//! `general` holds the helpers that line up two coefficient sequences of
//! different lengths, `lattice` the degree lattice that decides which type an
//! operation yields, `render` the shared text form, and `roots` the
//! degeneracy rules of root finding.

pub mod general;
pub mod lattice;
pub mod render;
pub mod roots;

pub use general::{inbounds, larger};
pub use lattice::Kind;
pub use render::{render, Coef, Sign};
pub use roots::RootError;
