//! When root finding has an answer.
//!
//! A linear or quadratic equation whose leading coefficient is zero has no
//! well-defined root, and a quadratic with a negative discriminant has no
//! real one. These are reported as errors, never as a numeric stand-in.

use vstd::prelude::*;

use crate::render::Sign;

verus! {

/// Why an equation has no root to report.
#[derive(Clone, Copy, Debug, PartialEq, Eq, Structural)]
pub enum RootError {
    /// The leading coefficient is zero: the equation holds always or never.
    NoSolution,
    /// The discriminant is negative.
    NoRealRoots,
}

/// Whether `a·x + b = 0`, with `lead` the sign of `a`, has a single root.
pub fn linear_root_case(lead: Sign) -> (r: Result<(), RootError>)
    ensures
        r == if lead == Sign::Zero {
            Err::<(), RootError>(RootError::NoSolution)
        } else {
            Ok(())
        },
{
    if lead == Sign::Zero {
        Err(RootError::NoSolution)
    } else {
        Ok(())
    }
}

/// Whether `a·x² + b·x + c = 0`, with `lead` the sign of `a` and
/// `discriminant` that of `b² - 4ac`, has two real roots. A zero leading
/// coefficient is reported first.
pub fn quadratic_roots_case(lead: Sign, discriminant: Sign) -> (r: Result<(), RootError>)
    ensures
        r == if lead == Sign::Zero {
            Err::<(), RootError>(RootError::NoSolution)
        } else if discriminant == Sign::Negative {
            Err(RootError::NoRealRoots)
        } else {
            Ok(())
        },
{
    if lead == Sign::Zero {
        Err(RootError::NoSolution)
    } else if discriminant == Sign::Negative {
        Err(RootError::NoRealRoots)
    } else {
        Ok(())
    }
}

} // verus!
