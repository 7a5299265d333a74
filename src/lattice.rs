//! The fixed-degree polynomial types as a lattice ordered by degree.
//!
//! Adding or subtracting two of them yields the type of the higher degree;
//! multiplying yields the type whose degree is the sum of the two, and is
//! defined only where that sum is at most four. Differentiating lowers the
//! degree by one, down to the scalar, whose derivative is the zero scalar.

use vstd::prelude::*;

verus! {

/// One of the fixed-degree polynomial types.
#[derive(Clone, Copy, Debug, PartialEq, Eq, Structural)]
pub enum Kind {
    Scalar,
    Linear,
    Quadratic,
    Cubic,
    Quartic,
}

/// The kind of the given degree, if a fixed-degree type has it.
pub open spec fn kind_of(d: nat) -> Option<Kind> {
    if d == 0 {
        Some(Kind::Scalar)
    } else if d == 1 {
        Some(Kind::Linear)
    } else if d == 2 {
        Some(Kind::Quadratic)
    } else if d == 3 {
        Some(Kind::Cubic)
    } else if d == 4 {
        Some(Kind::Quartic)
    } else {
        None
    }
}

impl Kind {
    /// The degree of every polynomial of this type, whatever its
    /// coefficients.
    pub open spec fn spec_degree(self) -> nat {
        match self {
            Kind::Scalar => 0,
            Kind::Linear => 1,
            Kind::Quadratic => 2,
            Kind::Cubic => 3,
            Kind::Quartic => 4,
        }
    }

    /// The type of the derivative.
    pub open spec fn spec_derivative(self) -> Kind {
        if self.spec_degree() == 0 {
            Kind::Scalar
        } else {
            kind_of((self.spec_degree() - 1) as nat).unwrap()
        }
    }

    /// The type of a sum or difference.
    pub open spec fn spec_sum(self, other: Kind) -> Kind {
        if self.spec_degree() >= other.spec_degree() {
            self
        } else {
            other
        }
    }

    /// The type of a product, where one is defined.
    pub open spec fn spec_product(self, other: Kind) -> Option<Kind> {
        kind_of(self.spec_degree() + other.spec_degree())
    }

    pub fn degree(self) -> (r: u8)
        ensures
            r == self.spec_degree(),
    {
        match self {
            Kind::Scalar => 0,
            Kind::Linear => 1,
            Kind::Quadratic => 2,
            Kind::Cubic => 3,
            Kind::Quartic => 4,
        }
    }

    /// The type of the given degree; `None` above four.
    pub fn from_degree(d: u8) -> (r: Option<Kind>)
        ensures
            r == kind_of(d as nat),
            r is Some <==> d <= 4,
            r matches Some(k) ==> k.spec_degree() == d,
    {
        match d {
            0 => Some(Kind::Scalar),
            1 => Some(Kind::Linear),
            2 => Some(Kind::Quadratic),
            3 => Some(Kind::Cubic),
            4 => Some(Kind::Quartic),
            _ => None,
        }
    }

    pub fn derivative(self) -> (r: Kind)
        ensures
            r == self.spec_derivative(),
            r.spec_degree() == if self.spec_degree() == 0 {
                0
            } else {
                self.spec_degree() - 1
            },
    {
        match self {
            Kind::Scalar => Kind::Scalar,
            Kind::Linear => Kind::Scalar,
            Kind::Quadratic => Kind::Linear,
            Kind::Cubic => Kind::Quadratic,
            Kind::Quartic => Kind::Cubic,
        }
    }

    pub fn sum(self, other: Kind) -> (r: Kind)
        ensures
            r == self.spec_sum(other),
            r.spec_degree() == if self.spec_degree() >= other.spec_degree() {
                self.spec_degree()
            } else {
                other.spec_degree()
            },
    {
        if self.degree() >= other.degree() {
            self
        } else {
            other
        }
    }

    pub fn product(self, other: Kind) -> (r: Option<Kind>)
        ensures
            r == self.spec_product(other),
            r is Some <==> self.spec_degree() + other.spec_degree() <= 4,
            r matches Some(k) ==> k.spec_degree() == self.spec_degree() + other.spec_degree(),
    {
        Kind::from_degree(self.degree() + other.degree())
    }
}

/// Differentiating lowers the degree by one and leaves a scalar a scalar;
/// four derivatives take a quartic to the scalar.
pub proof fn lemma_derivative_degree(k: Kind)
    ensures
        k.spec_derivative().spec_degree() == if k.spec_degree() == 0 {
            0
        } else {
            k.spec_degree() - 1
        },
        Kind::Quartic.spec_derivative().spec_derivative().spec_derivative().spec_derivative()
            == Kind::Scalar,
        Kind::Scalar.spec_derivative() == Kind::Scalar,
{
}

/// A product of kinds of degrees `m` and `n` with `m + n <= 4` has degree
/// `m + n`.
pub proof fn lemma_product_degree(p: Kind, q: Kind)
    requires
        p.spec_degree() + q.spec_degree() <= 4,
    ensures
        p.spec_product(q) is Some,
        p.spec_product(q).unwrap().spec_degree() == p.spec_degree() + q.spec_degree(),
{
}

/// A sum or difference never drops below either operand's degree, and two
/// operands of one kind keep that kind.
pub proof fn lemma_sum_degree(p: Kind, q: Kind)
    ensures
        p.spec_sum(q).spec_degree() >= p.spec_degree(),
        p.spec_sum(q).spec_degree() >= q.spec_degree(),
        p.spec_sum(q) == q.spec_sum(p),
        p.spec_sum(p) == p,
{
}

} // verus!
